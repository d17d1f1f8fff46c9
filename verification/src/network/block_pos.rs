//! Block positions packed into 64 bits: 26 bits of `x`, 26 bits of `z`
//! and 12 bits of `y`, from the most significant bit down.

use crate::pos::{wrap_i16, BlockPos};
use vstd::prelude::*;

verus! {

/// The value of the low `bits` bits of `v`, read as a two's complement
/// number of that width.
pub open spec fn sign_extend(v: int, modulus: int) -> int {
    let m = v % modulus;
    if m >= modulus / 2 {
        m - modulus
    } else {
        m
    }
}

/// The signed 26-bit `x` of a packed position.
pub open spec fn packed_x(packed: u64) -> int {
    sign_extend(packed as int / 0x40_0000_0000, 0x400_0000)
}

/// The signed 12-bit `y` of a packed position.
pub open spec fn packed_y(packed: u64) -> int {
    sign_extend(packed as int, 0x1000)
}

/// The signed 26-bit `z` of a packed position.
pub open spec fn packed_z(packed: u64) -> int {
    sign_extend(packed as int / 0x1000, 0x400_0000)
}

/// The word that packs a position: the low 26 bits of `x`, the low 26 of
/// `z` and the low 12 of `y`.
pub open spec fn pack_position(x: int, y: int, z: int) -> u64 {
    ((x % 0x400_0000) * 0x40_0000_0000 + (z % 0x400_0000) * 0x1000 + (y % 0x1000)) as u64
}

/// The block position that a packed word names; each part is cut to 16
/// bits.
pub open spec fn unpack_block_pos(packed: u64) -> BlockPos {
    BlockPos {
        x: wrap_i16(packed_x(packed)),
        y: packed_y(packed) as i16,
        z: wrap_i16(packed_z(packed)),
    }
}

/// Packing a position and taking the word apart again gives the position
/// back, for every `x` and `z` of 26 bits and every `y` of 12.
pub proof fn lemma_packed_position_round_trip(x: int, y: int, z: int)
    requires
        -0x200_0000 <= x < 0x200_0000,
        -0x200_0000 <= z < 0x200_0000,
        -0x800 <= y < 0x800,
    ensures
        packed_x(pack_position(x, y, z)) == x,
        packed_y(pack_position(x, y, z)) == y,
        packed_z(pack_position(x, y, z)) == z,
{
    let xm = x % 0x400_0000;
    let zm = z % 0x400_0000;
    let ym = y % 0x1000;
    let p = xm * 0x40_0000_0000 + zm * 0x1000 + ym;
    assert(0 <= p < 0x1_0000_0000_0000_0000);
    assert(p / 0x40_0000_0000 == xm);
    assert(p / 0x1000 == xm * 0x400_0000 + zm);
    assert((xm * 0x400_0000 + zm) % 0x400_0000 == zm);
    assert(p % 0x1000 == ym);
}

/// A block position whose height fits 12 bits comes back from its packed
/// word as it was.
pub proof fn lemma_block_pos_round_trip(p: BlockPos)
    requires
        -0x800 <= p.y < 0x800,
    ensures
        unpack_block_pos(pack_position(p.x as int, p.y as int, p.z as int)) == p,
{
    lemma_packed_position_round_trip(p.x as int, p.y as int, p.z as int);
}

/// Packs a position. A part that does not fit its field is cut to the
/// field's width.
pub fn encode_block_pos(x: i32, y: i32, z: i32) -> (packed: u64)
    ensures
        packed == pack_position(x as int, y as int, z as int),
{
    let xr: i32 = x % 0x400_0000;
    let xm: u64 = if xr < 0 {
        (xr + 0x400_0000) as u64
    } else {
        xr as u64
    };
    let zr: i32 = z % 0x400_0000;
    let zm: u64 = if zr < 0 {
        (zr + 0x400_0000) as u64
    } else {
        zr as u64
    };
    let yr: i32 = y % 0x1000;
    let ym: u64 = if yr < 0 {
        (yr + 0x1000) as u64
    } else {
        yr as u64
    };
    xm * 0x40_0000_0000 + zm * 0x1000 + ym
}

/// Takes a packed position apart, keeping the full width of each part.
pub fn decode_block_pos_wide(packed: u64) -> (r: (i32, i32, i32))
    ensures
        r.0 == packed_x(packed),
        r.1 == packed_y(packed),
        r.2 == packed_z(packed),
{
    let xm: u64 = packed / 0x40_0000_0000;
    let zm: u64 = packed / 0x1000 % 0x400_0000;
    let ym: u64 = packed % 0x1000;
    let x: i32 = if xm >= 0x200_0000 {
        xm as i32 - 0x400_0000
    } else {
        xm as i32
    };
    let z: i32 = if zm >= 0x200_0000 {
        zm as i32 - 0x400_0000
    } else {
        zm as i32
    };
    let y: i32 = if ym >= 0x800 {
        ym as i32 - 0x1000
    } else {
        ym as i32
    };
    (x, y, z)
}

/// Cuts a wide coordinate to 16 bits.
pub fn cut_i16(v: i32) -> (r: i16)
    ensures
        r == wrap_i16(v as int),
{
    let m: i32 = v % 65536;
    let m: i32 = if m < 0 {
        m + 65536
    } else {
        m
    };
    if m >= 32768 {
        (m - 65536) as i16
    } else {
        m as i16
    }
}

/// The block position that a packed word names.
pub fn decode_block_pos(packed: u64) -> (p: BlockPos)
    ensures
        p == unpack_block_pos(packed),
{
    let (x, y, z) = decode_block_pos_wide(packed);
    BlockPos { x: cut_i16(x), y: y as i16, z: cut_i16(z) }
}

} // verus!
