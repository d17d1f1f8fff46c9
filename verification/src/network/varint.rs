//! Little-endian base-128 integers with a continuation bit.

use vstd::prelude::*;

verus! {

/// The longest encoding of a 32-bit value, in bytes.
pub const VARINT_MAX_BYTES: usize = 5;

/// The longest encoding of a 64-bit value, in bytes.
pub const VARLONG_MAX_BYTES: usize = 10;

/// The shortest encoding of `v`: seven bits per byte, least significant
/// group first, the top bit set on every byte but the last.
pub open spec fn varint_bytes(v: nat) -> Seq<u8>
    decreases v,
{
    if v < 128 {
        seq![v as u8]
    } else {
        seq![(v % 128 + 128) as u8] + varint_bytes(v / 128)
    }
}

/// The length of the shortest encoding of `v`.
pub open spec fn varint_size(v: nat) -> nat
    decreases v,
{
    if v < 128 {
        1
    } else {
        1 + varint_size(v / 128)
    }
}

/// What decoding finds at the front of a byte sequence.
pub enum VarIntParse {
    /// An encoding of `value` that takes `len` bytes.
    Value { value: nat, len: nat },
    /// The continuation bit is still set on the last byte allowed.
    TooBig,
    /// The bytes end before the encoding does.
    Short,
}

/// Decodes the front of `s`, reading at most `max_bytes` bytes.
pub open spec fn parse_varint(s: Seq<u8>, max_bytes: nat) -> VarIntParse
    decreases max_bytes,
{
    if max_bytes == 0 {
        VarIntParse::TooBig
    } else if s.len() == 0 {
        VarIntParse::Short
    } else if s[0] < 128 {
        VarIntParse::Value { value: s[0] as nat, len: 1 }
    } else {
        match parse_varint(s.skip(1), (max_bytes - 1) as nat) {
            VarIntParse::Value { value, len } => VarIntParse::Value {
                value: (s[0] - 128) as nat + 128 * value,
                len: len + 1,
            },
            VarIntParse::TooBig => VarIntParse::TooBig,
            VarIntParse::Short => VarIntParse::Short,
        }
    }
}

/// A parse of a tail, seen from a front whose groups add up to `acc` and
/// whose next group weighs `mult`.
pub open spec fn lift_parse(p: VarIntParse, acc: nat, mult: nat, taken: nat) -> VarIntParse {
    match p {
        VarIntParse::Value { value, len } => VarIntParse::Value {
            value: acc + mult * value,
            len: len + taken,
        },
        VarIntParse::TooBig => VarIntParse::TooBig,
        VarIntParse::Short => VarIntParse::Short,
    }
}

/// A 32-bit pattern read as a signed number.
pub open spec fn u32_as_i32(v: u32) -> i32 {
    if v >= 0x8000_0000 {
        (v - 0x1_0000_0000) as i32
    } else {
        v as i32
    }
}

/// A signed 32-bit number's bit pattern.
pub open spec fn i32_as_u32(v: i32) -> u32 {
    if v < 0 {
        (v + 0x1_0000_0000) as u32
    } else {
        v as u32
    }
}

/// A 64-bit pattern read as a signed number.
pub open spec fn u64_as_i64(v: u64) -> i64 {
    if v >= 0x8000_0000_0000_0000 {
        (v - 0x1_0000_0000_0000_0000) as i64
    } else {
        v as i64
    }
}

/// A signed 64-bit number's bit pattern.
pub open spec fn i64_as_u64(v: i64) -> u64 {
    if v < 0 {
        (v + 0x1_0000_0000_0000_0000) as u64
    } else {
        v as u64
    }
}

pub fn i32_bits(v: i32) -> (r: u32)
    ensures
        r == i32_as_u32(v),
        u32_as_i32(r) == v,
{
    if v < 0 {
        (v as i64 + 0x1_0000_0000) as u32
    } else {
        v as u32
    }
}

pub fn i32_from_bits(v: u32) -> (r: i32)
    ensures
        r == u32_as_i32(v),
        i32_as_u32(r) == v,
{
    if v >= 0x8000_0000 {
        (v as i64 - 0x1_0000_0000) as i32
    } else {
        v as i32
    }
}

pub fn i64_bits(v: i64) -> (r: u64)
    ensures
        r == i64_as_u64(v),
        u64_as_i64(r) == v,
{
    if v < 0 {
        (v as i128 + 0x1_0000_0000_0000_0000) as u64
    } else {
        v as u64
    }
}

pub fn i64_from_bits(v: u64) -> (r: i64)
    ensures
        r == u64_as_i64(v),
        i64_as_u64(r) == v,
{
    if v >= 0x8000_0000_0000_0000 {
        (v as i128 - 0x1_0000_0000_0000_0000) as i64
    } else {
        v as i64
    }
}

/// Why a variable-length integer could not be read.
#[derive(Debug, Clone, Copy, PartialEq, Eq, Structural)]
pub enum ReadVarIntError {
    /// The continuation bit was still set after `max_bytes` bytes.
    TooBig { max_bytes: usize },
    /// The input ended inside the number.
    IOError,
}

pub proof fn lemma_varint_bytes_len(v: nat)
    ensures
        varint_bytes(v).len() == varint_size(v),
        varint_size(v) >= 1,
    decreases v,
{
    if v >= 128 {
        lemma_varint_bytes_len(v / 128);
    }
}

/// The weight of the seven-bit group at position `i`.
pub open spec fn pow128(i: nat) -> nat
    decreases i,
{
    if i == 0 {
        1
    } else {
        128 * pow128((i - 1) as nat)
    }
}

proof fn lemma_pow128_values()
    ensures
        pow128(0) == 1,
        pow128(5) == 0x8_0000_0000,
        pow128(10) == 0x40_0000_0000_0000_0000,
{
    reveal_with_fuel(pow128, 11);
}

proof fn lemma_pow128_monotone(i: nat, j: nat)
    requires
        i <= j,
    ensures
        1 <= pow128(i) <= pow128(j),
    decreases j,
{
    if j > 0 {
        if i < j {
            lemma_pow128_monotone(i, (j - 1) as nat);
        } else {
            lemma_pow128_monotone((i - 1) as nat, (j - 1) as nat);
        }
    }
}

/// A value below `128^k` is encoded in at most `k` bytes.
pub proof fn lemma_varint_size_bound(v: nat, k: nat)
    requires
        k >= 1,
        v < pow128(k),
    ensures
        varint_size(v) <= k,
    decreases k,
{
    if v >= 128 {
        assert(pow128(1) == 128) by {
            reveal_with_fuel(pow128, 2);
        }
        lemma_varint_size_bound(v / 128, (k - 1) as nat);
    }
}

/// Every 32-bit value is encoded in at most five bytes, every 64-bit value
/// in at most ten.
pub proof fn lemma_varint_size_limits(v: nat)
    ensures
        v < 0x1_0000_0000 ==> varint_size(v) <= 5,
        v < 0x1_0000_0000_0000_0000 ==> varint_size(v) <= 10,
{
    lemma_pow128_values();
    if v < 0x1_0000_0000 {
        lemma_varint_size_bound(v, 5);
    }
    if v < 0x1_0000_0000_0000_0000 {
        lemma_varint_size_bound(v, 10);
    }
}

/// Decoding what was encoded gives the value back, whatever follows it, as
/// long as the encoding fits the byte limit.
pub proof fn lemma_varint_round_trip(v: nat, rest: Seq<u8>, max_bytes: nat)
    requires
        varint_size(v) <= max_bytes,
    ensures
        parse_varint(varint_bytes(v) + rest, max_bytes) == (VarIntParse::Value {
            value: v,
            len: varint_size(v),
        }),
    decreases v,
{
    let s = varint_bytes(v) + rest;
    if v < 128 {
        assert(s[0] == v as u8);
    } else {
        let tail = varint_bytes(v / 128) + rest;
        assert(s[0] == (v % 128 + 128) as u8);
        assert(s.skip(1) =~= tail);
        lemma_varint_round_trip(v / 128, rest, (max_bytes - 1) as nat);
    }
}

/// A decoded value took at least one byte and no more bytes than there
/// are.
proof fn lemma_parse_varint_len(s: Seq<u8>, max_bytes: nat)
    requires
        parse_varint(s, max_bytes) is Value,
    ensures
        1 <= parse_varint(s, max_bytes)->len <= s.len(),
        parse_varint(s, max_bytes)->len <= max_bytes,
    decreases max_bytes,
{
    if s[0] >= 128 {
        lemma_parse_varint_len(s.skip(1), (max_bytes - 1) as nat);
    }
}

/// Encoding what was decoded gives the decoded bytes back, for every
/// encoding that ends in no needless byte: its last byte is not zero,
/// unless it is the only one.
pub proof fn lemma_varint_decode_encode(s: Seq<u8>, max_bytes: nat)
    requires
        parse_varint(s, max_bytes) matches VarIntParse::Value { value, len } && (len == 1 || s[len
            - 1] != 0),
    ensures
        parse_varint(s, max_bytes) matches VarIntParse::Value { value, len } && 1 <= len <= s.len()
            && varint_bytes(value) == s.take(len as int) && (value > 0 || s[len - 1] == 0),
    decreases max_bytes,
{
    if s[0] < 128 {
        assert(varint_bytes(s[0] as nat) =~= s.take(1));
    } else {
        let tail = s.skip(1);
        let below = parse_varint(tail, (max_bytes - 1) as nat);
        let inner = below->value;
        let taken = below->len;
        lemma_parse_varint_len(tail, (max_bytes - 1) as nat);
        assert(tail[taken - 1] == s[taken as int]);
        lemma_varint_decode_encode(tail, (max_bytes - 1) as nat);
        let value = (s[0] - 128) as nat + 128 * inner;
        assert(inner > 0);
        assert(value >= 128);
        assert(value % 128 == s[0] - 128 && value / 128 == inner);
        assert(varint_bytes(value) =~= seq![s[0]] + varint_bytes(inner));
        assert(seq![s[0]] + tail.take(taken as int) =~= s.take(taken as int + 1));
    }
}

/// Decoding fails as too big exactly when each of the first `max_bytes`
/// bytes is there and has its continuation bit set.
pub proof fn lemma_parse_varint_too_big(s: Seq<u8>, max_bytes: nat)
    ensures
        parse_varint(s, max_bytes) is TooBig <==> (s.len() >= max_bytes && forall|i: int|
            0 <= i < max_bytes ==> s[i] >= 128),
    decreases max_bytes,
{
    if max_bytes > 0 && s.len() > 0 {
        let t = s.skip(1);
        lemma_parse_varint_too_big(t, (max_bytes - 1) as nat);
        if s[0] >= 128 {
            if parse_varint(s, max_bytes) is TooBig {
                assert forall|i: int| 0 <= i < max_bytes implies s[i] >= 128 by {
                    if i > 0 {
                        assert(t[i - 1] == s[i]);
                    }
                }
            }
            if s.len() >= max_bytes && (forall|i: int| 0 <= i < max_bytes ==> s[i] >= 128) {
                assert forall|i: int| 0 <= i < max_bytes - 1 implies t[i] >= 128 by {
                    assert(t[i] == s[i + 1]);
                }
            }
        }
    }
}

/// Decoding runs short exactly when the bytes end before `max_bytes` of
/// them were seen and every byte present has its continuation bit set.
pub proof fn lemma_parse_varint_short(s: Seq<u8>, max_bytes: nat)
    ensures
        parse_varint(s, max_bytes) is Short <==> (s.len() < max_bytes && forall|i: int|
            0 <= i < s.len() ==> s[i] >= 128),
    decreases max_bytes,
{
    if max_bytes > 0 && s.len() > 0 {
        let t = s.skip(1);
        lemma_parse_varint_short(t, (max_bytes - 1) as nat);
        if s[0] >= 128 {
            if parse_varint(s, max_bytes) is Short {
                assert forall|i: int| 0 <= i < s.len() implies s[i] >= 128 by {
                    if i > 0 {
                        assert(t[i - 1] == s[i]);
                    }
                }
            }
            if s.len() < max_bytes && (forall|i: int| 0 <= i < s.len() ==> s[i] >= 128) {
                assert forall|i: int| 0 <= i < t.len() implies t[i] >= 128 by {
                    assert(t[i] == s[i + 1]);
                }
            }
        }
    }
}

proof fn lemma_lift_step(s: Seq<u8>, i: nat, max_bytes: nat, acc: nat, mult: nat)
    requires
        i < max_bytes,
        i < s.len(),
        s[i as int] >= 128,
    ensures
        lift_parse(parse_varint(s.skip(i as int), (max_bytes - i) as nat), acc, mult, i)
            == lift_parse(
            parse_varint(s.skip(i as int + 1), (max_bytes - i - 1) as nat),
            acc + mult * ((s[i as int] - 128) as nat),
            mult * 128,
            i + 1,
        ),
{
    let here = s.skip(i as int);
    assert(here[0] == s[i as int]);
    assert(here.skip(1) =~= s.skip(i as int + 1));
    let low = (s[i as int] - 128) as nat;
    match parse_varint(s.skip(i as int + 1), (max_bytes - i - 1) as nat) {
        VarIntParse::Value { value, len } => {
            assert(acc + mult * (low + 128 * value) == (acc + mult * low) + (mult * 128) * value)
                by (nonlinear_arith);
        },
        _ => {},
    }
}

/// Decodes the number at `data[start..]`, reading at most `max_bytes`
/// bytes. Returns the number, not yet cut to a width, and the bytes taken.
pub fn decode_varint_raw(data: &[u8], start: usize, max_bytes: usize) -> (r: Result<
    (u128, usize),
    ReadVarIntError,
>)
    requires
        start <= data@.len(),
        max_bytes <= VARLONG_MAX_BYTES,
    ensures
        match parse_varint(data@.skip(start as int), max_bytes as nat) {
            VarIntParse::Value { value, len } => r == Ok::<(u128, usize), ReadVarIntError>(
                (value as u128, len as usize),
            ) && value < 0x40_0000_0000_0000_0000 && start + len <= data@.len(),
            VarIntParse::TooBig => r == Err::<(u128, usize), ReadVarIntError>(
                ReadVarIntError::TooBig { max_bytes },
            ),
            VarIntParse::Short => r == Err::<(u128, usize), ReadVarIntError>(
                ReadVarIntError::IOError,
            ),
        },
{
    let ghost s = data@.skip(start as int);
    let mut acc: u128 = 0;
    let mut mult: u128 = 1;
    let mut i: usize = 0;
    assert(s.skip(0) =~= s);
    while i < max_bytes
        invariant
            i <= max_bytes <= VARLONG_MAX_BYTES,
            start + i <= data@.len(),
            s == data@.skip(start as int),
            mult == pow128(i as nat),
            acc < mult,
            mult <= 0x40_0000_0000_0000_0000,
            parse_varint(s, max_bytes as nat) == lift_parse(
                parse_varint(s.skip(i as int), (max_bytes - i) as nat),
                acc as nat,
                mult as nat,
                i as nat,
            ),
        decreases max_bytes - i,
    {
        if i >= data.len() - start {
            assert(s.skip(i as int).len() == 0);
            return Err(ReadVarIntError::IOError);
        }
        let byte = data[start + i];
        assert(s[i as int] == byte);
        assert(s.skip(i as int)[0] == byte);
        proof {
            lemma_pow128_bound(i as nat);
        }
        if byte < 128 {
            assert(0 <= mult * byte && acc + mult * byte < mult * 128) by (nonlinear_arith)
                requires
                    0 <= acc < mult,
                    0 <= byte < 128,
            ;
            let value: u128 = acc + mult * (byte as u128);
            return Ok((value, i + 1));
        }
        proof {
            lemma_lift_step(s, i as nat, max_bytes as nat, acc as nat, mult as nat);
            assert(0 <= mult * (byte - 128) && acc + mult * (byte - 128) < mult * 128)
                by (nonlinear_arith)
                requires
                    0 <= acc < mult,
                    128 <= byte < 256,
            ;
        }
        acc = acc + mult * ((byte - 128) as u128);
        mult = mult * 128;
        i = i + 1;
    }
    Err(ReadVarIntError::TooBig { max_bytes })
}

proof fn lemma_pow128_bound(i: nat)
    requires
        i < 10,
    ensures
        pow128(i) * 128 == pow128(i + 1),
        pow128(i + 1) <= 0x40_0000_0000_0000_0000,
        pow128(i) >= 1,
{
    lemma_pow128_values();
    lemma_pow128_monotone(i + 1, 10);
    lemma_pow128_monotone(0, i);
}

/// Appends the shortest encoding of `v` to `buf` and returns its length.
pub fn encode_varint(buf: &mut Vec<u8>, v: u64) -> (n: usize)
    ensures
        final(buf)@ == old(buf)@ + varint_bytes(v as nat),
        n == varint_size(v as nat),
        1 <= n <= VARLONG_MAX_BYTES,
        v < 0x1_0000_0000 ==> n <= VARINT_MAX_BYTES,
{
    let mut rest: u64 = v;
    let mut n: usize = 1;
    proof {
        lemma_varint_size_limits(v as nat);
        lemma_varint_bytes_len(v as nat);
    }
    while rest >= 128
        invariant
            buf@ + varint_bytes(rest as nat) == old(buf)@ + varint_bytes(v as nat),
            n + varint_size(rest as nat) == 1 + varint_size(v as nat),
            varint_size(v as nat) <= 10,
            n >= 1,
        decreases rest,
    {
        let ghost before = buf@;
        buf.push((rest % 128 + 128) as u8);
        proof {
            let byte = (rest % 128 + 128) as u8;
            assert(varint_bytes(rest as nat) == seq![byte] + varint_bytes((rest / 128) as nat));
            assert(before.push(byte) + varint_bytes((rest / 128) as nat) =~= before + (seq![byte]
                + varint_bytes((rest / 128) as nat)));
        }
        rest = rest / 128;
        n = n + 1;
    }
    let ghost before = buf@;
    buf.push(rest as u8);
    assert(before.push(rest as u8) =~= before + varint_bytes(rest as nat));
    n
}

/// The number of bytes that the shortest encoding of `v` takes.
pub fn varint_len(v: u64) -> (n: usize)
    ensures
        n == varint_size(v as nat),
        1 <= n <= VARLONG_MAX_BYTES,
        v < 0x1_0000_0000 ==> n <= VARINT_MAX_BYTES,
{
    let mut rest: u64 = v;
    let mut n: usize = 1;
    proof {
        lemma_varint_size_limits(v as nat);
    }
    while rest >= 128
        invariant
            n + varint_size(rest as nat) == 1 + varint_size(v as nat),
            varint_size(v as nat) <= 10,
            n >= 1,
        decreases rest,
    {
        rest = rest / 128;
        n = n + 1;
    }
    n
}

} // verus!
