use vstd::prelude::*;

verus! {

/// The two-byte little-endian encoding of a sample: low byte first.
pub open spec fn le_bytes_of(v: u16) -> Seq<u8> {
    seq![(v % 256) as u8, (v / 256) as u8]
}

/// Serializes a sample into the notification payload: two bytes,
/// little-endian.
pub fn sample_to_le_bytes(v: u16) -> (r: Vec<u8>)
    ensures
        r@ == le_bytes_of(v),
        r@.len() == 2,
{
    let lo: u8 = (v % 256) as u8;
    let hi: u8 = (v / 256) as u8;
    let mut out: Vec<u8> = Vec::new();
    out.push(lo);
    out.push(hi);
    proof {
        assert(out@ =~= le_bytes_of(v));
    }
    out
}

/// The encoding loses nothing: the sample is recovered from its two payload
/// bytes, so distinct samples have distinct payloads.
pub proof fn lemma_le_bytes_faithful(v: u16)
    ensures
        le_bytes_of(v)[0] + 256 * le_bytes_of(v)[1] == v,
{
}

} // verus!
