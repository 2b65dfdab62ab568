//! The mixing digest: SHA-256 over what the two entropies contribute.

use crate::entropy::Entropy;
use crate::entropy::lemma_timestamp_bytes;
use crate::entropy::timestamp_bytes;
use crate::entropy::EntropyView;
use sha2::Digest;
use sha2::Sha256;
use vstd::prelude::*;

verus! {

/// Length of a mixing digest in bytes.
pub const DIGEST_SIZE: usize = 32;

/// The SHA-256 digest of a byte string, as `Sha256::digest` of the `sha2`
/// crate computes it.
pub uninterp spec fn sha256(message: Seq<u8>) -> Seq<u8>;

/// `Sha256::digest`: the hash of the whole message, which depends on the
/// message alone and is always 32 bytes long. Nothing is proved of it.
#[verifier::external_body]
fn sha256_digest(message: &[u8]) -> (digest: Vec<u8>)
    ensures
        digest@ == sha256(message@),
        digest@.len() == DIGEST_SIZE,
{
    Sha256::digest(message).to_vec()
}

/// The bytes that are hashed for a pair of entropies: the remote one's
/// contribution, then the local one's.
pub open spec fn mixing_input(remote: EntropyView, local: EntropyView) -> Seq<u8> {
    remote.digest_input() + local.digest_input()
}

/// The digest that seeds the parameter draws and supplies the payload.
pub open spec fn mixing_digest(remote: EntropyView, local: EntropyView) -> Seq<u8> {
    sha256(mixing_input(remote, local))
}

/// Pairs of entropies whose data have the same lengths are hashed from
/// different bytes as soon as they differ in one byte of data or in one
/// timestamp.
pub proof fn lemma_mixing_input_tells_entropies_apart(
    remote_a: EntropyView,
    local_a: EntropyView,
    remote_b: EntropyView,
    local_b: EntropyView,
)
    requires
        remote_a.data.len() == remote_b.data.len(),
        local_a.data.len() == local_b.data.len(),
        mixing_input(remote_a, local_a) == mixing_input(remote_b, local_b),
    ensures
        remote_a.data == remote_b.data,
        remote_a.timestamp == remote_b.timestamp,
        local_a.data == local_b.data,
        local_a.timestamp == local_b.timestamp,
{
    let input_a = mixing_input(remote_a, local_a);
    let input_b = mixing_input(remote_b, local_b);
    let n = remote_a.data.len() as int;
    let m = local_a.data.len() as int;
    lemma_timestamp_bytes(remote_a.timestamp, remote_b.timestamp);
    lemma_timestamp_bytes(local_a.timestamp, local_b.timestamp);
    assert(input_a.subrange(0, n) =~= remote_a.data);
    assert(input_b.subrange(0, n) =~= remote_b.data);
    assert(input_a.subrange(n, n + 8) =~= timestamp_bytes(remote_a.timestamp));
    assert(input_b.subrange(n, n + 8) =~= timestamp_bytes(remote_b.timestamp));
    assert(input_a.subrange(n + 8, n + 8 + m) =~= local_a.data);
    assert(input_b.subrange(n + 8, n + 8 + m) =~= local_b.data);
    assert(input_a.subrange(n + 8 + m, n + 16 + m) =~= timestamp_bytes(local_a.timestamp));
    assert(input_b.subrange(n + 8 + m, n + 16 + m) =~= timestamp_bytes(local_b.timestamp));
}

/// Computes the mixing digest of a pair of entropies.
pub fn mix(remote: &Entropy, local: &Entropy) -> (digest: Vec<u8>)
    ensures
        digest@ == mixing_digest(remote@, local@),
        digest@.len() == DIGEST_SIZE,
{
    let mut input: Vec<u8> = Vec::new();
    remote.write_digest_input(&mut input);
    local.write_digest_input(&mut input);
    assert(input@ == mixing_input(remote@, local@));
    sha256_digest(input.as_slice())
}

} // verus!
