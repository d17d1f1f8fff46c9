//! Big-endian fixed-width integers as byte sequences.

use vstd::prelude::*;

verus! {

/// The two bytes of `v`, most significant first.
pub open spec fn be_bytes_u16(v: u16) -> Seq<u8> {
    seq![(v / 0x100) as u8, (v % 0x100) as u8]
}

/// The four bytes of `v`, most significant first.
pub open spec fn be_bytes_u32(v: u32) -> Seq<u8> {
    seq![
        (v / 0x100_0000) as u8,
        (v / 0x1_0000 % 0x100) as u8,
        (v / 0x100 % 0x100) as u8,
        (v % 0x100) as u8,
    ]
}

/// The eight bytes of `v`, most significant first.
pub open spec fn be_bytes_u64(v: u64) -> Seq<u8> {
    be_bytes_u32((v / 0x1_0000_0000) as u32) + be_bytes_u32((v % 0x1_0000_0000) as u32)
}

/// The sixteen bytes of `v`, most significant first.
pub open spec fn be_bytes_u128(v: u128) -> Seq<u8> {
    be_bytes_u64((v / 0x1_0000_0000_0000_0000) as u64) + be_bytes_u64(
        (v % 0x1_0000_0000_0000_0000) as u64,
    )
}

/// The number that the first two bytes of `s` spell, most significant
/// first.
pub open spec fn be_u16(s: Seq<u8>) -> u16 {
    (s[0] * 0x100 + s[1]) as u16
}

/// The number that the first four bytes of `s` spell.
pub open spec fn be_u32(s: Seq<u8>) -> u32 {
    (s[0] * 0x100_0000 + s[1] * 0x1_0000 + s[2] * 0x100 + s[3]) as u32
}

/// The number that the first eight bytes of `s` spell.
pub open spec fn be_u64(s: Seq<u8>) -> u64 {
    (be_u32(s) * 0x1_0000_0000 + be_u32(s.skip(4))) as u64
}

/// The number that the first sixteen bytes of `s` spell.
pub open spec fn be_u128(s: Seq<u8>) -> u128 {
    (be_u64(s) * 0x1_0000_0000_0000_0000 + be_u64(s.skip(8))) as u128
}

/// A 16-bit pattern read as a signed number.
pub open spec fn u16_as_i16(v: u16) -> i16 {
    if v >= 0x8000 {
        (v - 0x1_0000) as i16
    } else {
        v as i16
    }
}

/// Reading back the bytes written for a number gives that number, whatever
/// follows them.
pub proof fn lemma_be_round_trip_u16(v: u16, rest: Seq<u8>)
    ensures
        be_bytes_u16(v).len() == 2,
        be_u16(be_bytes_u16(v) + rest) == v,
{
}

pub proof fn lemma_be_round_trip_u32(v: u32, rest: Seq<u8>)
    ensures
        be_bytes_u32(v).len() == 4,
        be_u32(be_bytes_u32(v) + rest) == v,
{
}

pub proof fn lemma_be_round_trip_u64(v: u64, rest: Seq<u8>)
    ensures
        be_bytes_u64(v).len() == 8,
        be_u64(be_bytes_u64(v) + rest) == v,
{
    let hi = (v / 0x1_0000_0000) as u32;
    let lo = (v % 0x1_0000_0000) as u32;
    let s = be_bytes_u64(v) + rest;
    lemma_be_round_trip_u32(hi, be_bytes_u32(lo) + rest);
    lemma_be_round_trip_u32(lo, rest);
    assert(s =~= be_bytes_u32(hi) + (be_bytes_u32(lo) + rest));
    assert(s.skip(4) =~= be_bytes_u32(lo) + rest);
}

pub proof fn lemma_be_round_trip_u128(v: u128, rest: Seq<u8>)
    ensures
        be_bytes_u128(v).len() == 16,
        be_u128(be_bytes_u128(v) + rest) == v,
{
    let hi = (v / 0x1_0000_0000_0000_0000) as u64;
    let lo = (v % 0x1_0000_0000_0000_0000) as u64;
    let s = be_bytes_u128(v) + rest;
    lemma_be_round_trip_u64(hi, be_bytes_u64(lo) + rest);
    lemma_be_round_trip_u64(lo, rest);
    assert(s =~= be_bytes_u64(hi) + (be_bytes_u64(lo) + rest));
    assert(s.skip(8) =~= be_bytes_u64(lo) + rest);
}

/// Appends the two bytes of `v`.
pub fn push_be_u16(buf: &mut Vec<u8>, v: u16)
    ensures
        final(buf)@ == old(buf)@ + be_bytes_u16(v),
{
    buf.push((v / 0x100) as u8);
    buf.push((v % 0x100) as u8);
    assert(buf@ =~= old(buf)@ + be_bytes_u16(v));
}

/// Appends the four bytes of `v`.
pub fn push_be_u32(buf: &mut Vec<u8>, v: u32)
    ensures
        final(buf)@ == old(buf)@ + be_bytes_u32(v),
{
    buf.push((v / 0x100_0000) as u8);
    buf.push((v / 0x1_0000 % 0x100) as u8);
    buf.push((v / 0x100 % 0x100) as u8);
    buf.push((v % 0x100) as u8);
    assert(buf@ =~= old(buf)@ + be_bytes_u32(v));
}

/// Appends the eight bytes of `v`.
pub fn push_be_u64(buf: &mut Vec<u8>, v: u64)
    ensures
        final(buf)@ == old(buf)@ + be_bytes_u64(v),
{
    push_be_u32(buf, (v / 0x1_0000_0000) as u32);
    push_be_u32(buf, (v % 0x1_0000_0000) as u32);
    assert(buf@ =~= old(buf)@ + be_bytes_u64(v));
}

/// Appends the sixteen bytes of `v`.
pub fn push_be_u128(buf: &mut Vec<u8>, v: u128)
    ensures
        final(buf)@ == old(buf)@ + be_bytes_u128(v),
{
    push_be_u64(buf, (v / 0x1_0000_0000_0000_0000) as u64);
    push_be_u64(buf, (v % 0x1_0000_0000_0000_0000) as u64);
    assert(buf@ =~= old(buf)@ + be_bytes_u128(v));
}

/// Reads the two bytes at `data[at..]`.
pub fn get_be_u16(data: &[u8], at: usize) -> (v: u16)
    requires
        at + 2 <= data@.len(),
    ensures
        v == be_u16(data@.skip(at as int)),
{
    (data[at] as u16) * 0x100 + data[at + 1] as u16
}

/// Reads the four bytes at `data[at..]`.
pub fn get_be_u32(data: &[u8], at: usize) -> (v: u32)
    requires
        at + 4 <= data@.len(),
    ensures
        v == be_u32(data@.skip(at as int)),
{
    (data[at] as u32) * 0x100_0000 + (data[at + 1] as u32) * 0x1_0000 + (data[at + 2] as u32)
        * 0x100 + data[at + 3] as u32
}

/// Reads the eight bytes at `data[at..]`.
pub fn get_be_u64(data: &[u8], at: usize) -> (v: u64)
    requires
        at + 8 <= data@.len(),
    ensures
        v == be_u64(data@.skip(at as int)),
{
    let end = data.len();
    assert(at + 8 <= end);
    let hi = get_be_u32(data, at);
    let lo = get_be_u32(data, at + 4);
    assert(data@.skip(at as int).skip(4) =~= data@.skip(at + 4));
    (hi as u64) * 0x1_0000_0000 + lo as u64
}

/// Reads the sixteen bytes at `data[at..]`.
pub fn get_be_u128(data: &[u8], at: usize) -> (v: u128)
    requires
        at + 16 <= data@.len(),
    ensures
        v == be_u128(data@.skip(at as int)),
{
    let end = data.len();
    assert(at + 16 <= end);
    let hi = get_be_u64(data, at);
    let lo = get_be_u64(data, at + 8);
    assert(data@.skip(at as int).skip(8) =~= data@.skip(at + 8));
    (hi as u128) * 0x1_0000_0000_0000_0000 + lo as u128
}

} // verus!
