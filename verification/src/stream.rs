//! The seeded pseudo-random stream that beacon parameters are drawn from.
//!
//! The stream is the ChaCha generator with 12 rounds of the `rand_chacha`
//! crate, and the draws are those of the `rand` crate. Verus cannot look
//! inside either, so this module names what it cannot see: the generator's
//! state, and what each operation makes of a state. Nothing here is proved;
//! it is what the rest of the library takes on trust about the two crates.
//!
//! Whoever wants to derive the same beacons by other means has to draw as
//! these crates do, word for word of the stream. One draw depends on the
//! machine as well: a `usize` is drawn from 64 bits of the stream where a
//! `usize` has 64 bits, and from 32 bits elsewhere.

use rand::seq::SliceRandom;
use rand::Rng;
use rand::SeedableRng;
use rand_chacha::ChaCha12Rng;
use vstd::prelude::*;

verus! {

/// `rand_chacha::ChaCha12Rng`, which Verus carries about without looking
/// inside.
#[verifier::external_type_specification]
#[verifier::external_body]
pub struct ExChaCha12Rng(ChaCha12Rng);

/// What a generator holds: its seed, its stream number and how far into the
/// stream it is. These decide everything it gives out from here on, and
/// `rand_chacha` compares two generators by just these.
pub uninterp spec fn stream_state(rng: ChaCha12Rng) -> Seq<u8>;

/// The state of a generator that was just made from `seed` by
/// `ChaCha12Rng::from_seed`.
pub uninterp spec fn seeded_state(seed: Seq<u8>) -> Seq<u8>;

/// What `Rng::gen_range` gives for `low..=high` as `usize` in a given state:
/// the number drawn, and the state afterwards. `rand` takes 64 bits from the
/// stream for a `usize` of 64 bits and 32 bits for a narrower one, so the
/// width `bits` of a `usize` is part of the input.
pub uninterp spec fn uniform_draw(state: Seq<u8>, low: nat, high: nat, bits: nat) -> (
    nat,
    Seq<u8>,
);

/// What `SliceRandom::choose` gives for a slice of `len > 0` items in a given
/// state: the index of the item chosen, and the state afterwards.
pub uninterp spec fn choice_draw(state: Seq<u8>, len: nat) -> (nat, Seq<u8>);

/// `ChaCha12Rng::from_seed`: a generator at the start of the stream of
/// `seed`, whose state depends on the seed alone.
#[verifier::external_body]
pub(crate) fn seeded(seed: [u8; 32]) -> (rng: ChaCha12Rng)
    ensures
        stream_state(rng) == seeded_state(seed@),
{
    ChaCha12Rng::from_seed(seed)
}

/// `Rng::gen_range` on `low..=high`: a number within the range. The number
/// and the state the generator is left in depend on the state it was in, the
/// range and the width of a `usize`, and on nothing else. An empty range
/// would panic.
#[verifier::external_body]
pub(crate) fn uniform_in(rng: &mut ChaCha12Rng, low: usize, high: usize) -> (drawn: usize)
    requires
        low <= high,
    ensures
        low <= drawn <= high,
        (drawn as nat, stream_state(*final(rng))) == uniform_draw(
            stream_state(*old(rng)),
            low as nat,
            high as nat,
            usize::BITS as nat,
        ),
{
    rng.gen_range(low..=high)
}

/// `SliceRandom::choose`: nothing from an empty slice, which leaves the
/// generator as it was; otherwise the item at an index below the length. The
/// index and the state the generator is left in depend on the state it was
/// in and the length, and on nothing else.
#[verifier::external_body]
pub(crate) fn pick<'a, T>(items: &'a [T], rng: &mut ChaCha12Rng) -> (choice: Option<&'a T>)
    ensures
        items@.len() == 0 ==> choice is None && stream_state(*final(rng)) == stream_state(
            *old(rng),
        ),
        items@.len() > 0 ==> choice == Some(
            &items@[choice_draw(stream_state(*old(rng)), items@.len()).0 as int],
        ) && choice_draw(stream_state(*old(rng)), items@.len()).0 < items@.len(),
        items@.len() > 0 ==> stream_state(*final(rng)) == choice_draw(
            stream_state(*old(rng)),
            items@.len(),
        ).1,
{
    items.choose(rng)
}

} // verus!
