//! The vendor checksum scheme: a packet-level checksum byte derived from
//! the report id and the sum of the other fifteen bytes, and a per-field
//! complement byte that pairs every settable payload byte with `0x55 - v`.

use vstd::prelude::*;

verus! {

/// Sum of all bytes of a sequence, as an unbounded integer.
pub open spec fn sum_bytes(s: Seq<u8>) -> int
    decreases s.len(),
{
    if s.len() == 0 {
        0
    } else {
        sum_bytes(s.drop_last()) + s.last()
    }
}

/// The packet checksum: `0x55 - ((report_id + sum(bytes)) mod 256)`,
/// wrapping to a byte.
pub open spec fn checksum_of(report_id: u8, s: Seq<u8>) -> u8 {
    (((0x55 + 0x100) - (report_id + sum_bytes(s)) % 0x100) % 0x100) as u8
}

/// The per-field complement byte `0x55 - v`, wrapping to a byte.
pub open spec fn pair_complement(v: u8) -> u8 {
    (((0x55 + 0x100) - v) % 0x100) as u8
}

/// The sum of a sequence of bytes is non-negative and at most `255 * len`.
pub proof fn lemma_sum_bytes_bounds(s: Seq<u8>)
    ensures
        0 <= sum_bytes(s) <= 255 * s.len(),
    decreases s.len(),
{
    if s.len() > 0 {
        lemma_sum_bytes_bounds(s.drop_last());
    }
}

/// Extending a prefix by one byte adds that byte to the prefix sum.
pub proof fn lemma_sum_bytes_take_step(s: Seq<u8>, i: int)
    requires
        0 <= i < s.len(),
    ensures
        sum_bytes(s.take(i + 1)) == sum_bytes(s.take(i)) + s[i],
{
    assert(s.take(i + 1).drop_last() =~= s.take(i));
    assert(s.take(i + 1).last() == s[i]);
}

/// `0x55 - v` wrapped to a byte, executably.
pub fn complement_byte(v: u8) -> (r: u8)
    ensures
        r == pair_complement(v),
{
    (((0x55u16 + 0x100u16) - (v as u16)) % 0x100u16) as u8
}

} // verus!
