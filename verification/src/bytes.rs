//! Little-endian integers.

use vstd::prelude::*;

verus! {

/// The two bytes of `x`, least significant first.
pub open spec fn le16(x: u16) -> Seq<u8> {
    seq![(x % 0x100) as u8, (x / 0x100) as u8]
}

/// The four bytes of `x`, least significant first.
pub open spec fn le32(x: u32) -> Seq<u8> {
    seq![
        (x % 0x100) as u8,
        (x / 0x100 % 0x100) as u8,
        (x / 0x1_0000 % 0x100) as u8,
        (x / 0x100_0000) as u8,
    ]
}

/// The eight bytes of `x`, least significant first.
pub open spec fn le64(x: u64) -> Seq<u8> {
    le32((x % 0x1_0000_0000) as u32) + le32((x / 0x1_0000_0000) as u32)
}

/// The number whose little-endian bytes are the first four of `s`.
pub open spec fn le32_value(s: Seq<u8>) -> u32 {
    (s[0] + s[1] * 0x100 + s[2] * 0x1_0000 + s[3] * 0x100_0000) as u32
}

/// The four bytes of `x`, least significant first.
pub(crate) fn u32_to_bytes(x: u32) -> (r: [u8; 4])
    ensures
        r@ == le32(x),
{
    [
        (x % 0x100) as u8,
        (x / 0x100 % 0x100) as u8,
        (x / 0x1_0000 % 0x100) as u8,
        (x / 0x100_0000) as u8,
    ]
}

/// The number whose little-endian bytes are the first four of `s`.
pub(crate) fn u32_from_bytes(s: &[u8]) -> (r: u32)
    requires
        s@.len() >= 4,
    ensures
        r == le32_value(s@),
{
    s[0] as u32 + s[1] as u32 * 0x100 + s[2] as u32 * 0x1_0000 + s[3] as u32 * 0x100_0000
}

/// Reading the bytes of a number gives the number back, whatever follows them.
pub proof fn le32_round_trip(x: u32, rest: Seq<u8>)
    ensures
        le32_value(le32(x) + rest) == x,
{
}

/// The bytes of the number that four bytes stand for are those four bytes.
pub proof fn le32_value_round_trip(s: Seq<u8>)
    requires
        s.len() >= 4,
    ensures
        le32(le32_value(s)) == s.take(4),
{
    let (a, b, c, d) = (s[0] as int, s[1] as int, s[2] as int, s[3] as int);
    let x = a + b * 0x100 + c * 0x1_0000 + d * 0x100_0000;
    assert(x == le32_value(s));
    assert(x / 0x100 == b + c * 0x100 + d * 0x1_0000 && x % 0x100 == a);
    assert(x / 0x1_0000 == c + d * 0x100);
    assert(x / 0x100_0000 == d);
    assert((b + c * 0x100 + d * 0x1_0000) % 0x100 == b);
    assert((c + d * 0x100) % 0x100 == c);
    assert(le32(le32_value(s)) =~= s.take(4));
}

} // verus!
