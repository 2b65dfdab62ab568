//! Entropy values and the bytes they contribute to the mixing digest.

use vstd::bytes::lemma_auto_spec_u64_to_from_le_bytes;
use vstd::bytes::spec_u64_from_le_bytes;
use vstd::bytes::spec_u64_to_le_bytes;
use vstd::bytes::u64_to_le_bytes;
use vstd::prelude::*;

verus! {

/// One source's contribution to a beacon: opaque bytes, the moment they were
/// produced, and the version of the scheme that produced them.
#[derive(Debug, Clone, PartialEq, Eq)]
pub struct Entropy {
    pub version: u32,
    pub timestamp: i64,
    pub data: Vec<u8>,
}

/// An [`Entropy`] as a mathematical value.
pub struct EntropyView {
    pub version: u32,
    pub timestamp: i64,
    pub data: Seq<u8>,
}

impl View for Entropy {
    type V = EntropyView;

    open spec fn view(&self) -> EntropyView {
        EntropyView { version: self.version, timestamp: self.timestamp, data: self.data@ }
    }
}

/// The eight bytes of a timestamp: two's complement, least significant byte first.
pub open spec fn timestamp_bytes(timestamp: i64) -> Seq<u8> {
    spec_u64_to_le_bytes(timestamp as u64)
}

/// A timestamp has eight bytes, and no two timestamps have the same eight.
pub proof fn lemma_timestamp_bytes(a: i64, b: i64)
    ensures
        timestamp_bytes(a).len() == 8,
        timestamp_bytes(b).len() == 8,
        timestamp_bytes(a) == timestamp_bytes(b) ==> a == b,
{
    lemma_auto_spec_u64_to_from_le_bytes();
    if timestamp_bytes(a) == timestamp_bytes(b) {
        let x = a as u64;
        let y = b as u64;
        assert(spec_u64_from_le_bytes(spec_u64_to_le_bytes(x)) == x);
        assert(spec_u64_from_le_bytes(spec_u64_to_le_bytes(y)) == y);
        assert(a == b) by (bit_vector)
            requires
                a as u64 == b as u64,
        ;
    }
}

impl EntropyView {
    /// What this entropy feeds into the mixing digest: its data, then its timestamp.
    pub open spec fn digest_input(self) -> Seq<u8> {
        self.data + timestamp_bytes(self.timestamp)
    }
}

/// Appends `bytes` to `out`.
fn append_bytes(out: &mut Vec<u8>, bytes: &[u8])
    ensures
        final(out)@ == old(out)@ + bytes@,
{
    let mut i: usize = 0;
    while i < bytes.len()
        invariant
            i <= bytes@.len(),
            out@ == old(out)@ + bytes@.take(i as int),
        decreases bytes@.len() - i,
    {
        out.push(bytes[i]);
        i = i + 1;
    }
    assert(bytes@.take(i as int) == bytes@);
}

impl Entropy {
    /// Appends this entropy's digest input to `out`.
    pub fn write_digest_input(&self, out: &mut Vec<u8>)
        ensures
            final(out)@ == old(out)@ + self@.digest_input(),
    {
        append_bytes(out, self.data.as_slice());
        let stamp = u64_to_le_bytes(
            #[verifier::truncate]
            (self.timestamp as u64),
        );
        append_bytes(out, stamp.as_slice());
    }
}

} // verus!
