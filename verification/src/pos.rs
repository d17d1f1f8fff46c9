//! Block, chunk and chunk-local positions.

use crate::direction::Direction;
use vstd::prelude::*;

verus! {

/// The value of `v` folded into the range of `i16`.
pub open spec fn wrap_i16(v: int) -> i16 {
    let m = v % 65536;
    if m >= 32768 {
        (m - 65536) as i16
    } else {
        m as i16
    }
}

/// Adds a step to a coordinate, folding the sum into `i16`.
pub fn step_i16(v: i16, d: i16) -> (r: i16)
    ensures
        r == wrap_i16(v + d),
{
    let wide: i32 = v as i32 + d as i32;
    if wide > 32767 {
        (wide - 65536) as i16
    } else if wide < -32768 {
        (wide + 65536) as i16
    } else {
        wide as i16
    }
}

/// The position of one block in the world.
#[derive(Copy, Clone, Debug, PartialEq, Eq, Structural)]
pub struct BlockPos {
    pub x: i16,
    pub y: i16,
    pub z: i16,
}

/// The position of one chunk column: block coordinates divided by 16.
#[derive(Copy, Clone, Debug, PartialEq, Eq, Structural)]
pub struct ChunkPos {
    pub x: i16,
    pub z: i16,
}

/// A position inside a chunk, packed into 32 bits: `x` in bits 0 to 3,
/// `z` in bits 4 to 7 and the signed height `y` in bits 8 to 23.
#[derive(Copy, Clone, Debug, PartialEq, Eq, Structural)]
pub struct ChunkLocalPos(pub u32);

impl BlockPos {
    pub fn new(x: i16, y: i16, z: i16) -> (p: BlockPos)
        ensures
            p == (BlockPos { x, y, z }),
    {
        BlockPos { x, y, z }
    }

    pub open spec fn spec_chunk_pos(self) -> ChunkPos {
        ChunkPos { x: (self.x as int / 16) as i16, z: (self.z as int / 16) as i16 }
    }

    pub open spec fn spec_chunk_local_pos(self) -> ChunkLocalPos {
        ChunkLocalPos::spec_new((self.x as int % 16) as u8, self.y, (self.z as int % 16) as u8)
    }

    /// The position moved by a step along each axis; coordinates wrap
    /// around at the ends of the 16-bit range.
    pub open spec fn spec_offset(self, dx: int, dy: int, dz: int) -> BlockPos {
        BlockPos { x: wrap_i16(self.x + dx), y: wrap_i16(self.y + dy), z: wrap_i16(self.z + dz) }
    }

    pub open spec fn spec_offset_dir(self, direction: Direction) -> BlockPos {
        let n = direction.spec_normal();
        self.spec_offset(n.0, n.1, n.2)
    }

    /// The chunk that holds this position (floor division by 16).
    pub fn chunk_pos(self) -> (c: ChunkPos)
        ensures
            c == self.spec_chunk_pos(),
            c.x * 16 <= self.x < c.x * 16 + 16,
            c.z * 16 <= self.z < c.z * 16 + 16,
    {
        ChunkPos { x: floor_div_16(self.x), z: floor_div_16(self.z) }
    }

    /// The position inside the chunk that holds this position.
    pub fn chunk_local_pos(self) -> (l: ChunkLocalPos)
        ensures
            l == self.spec_chunk_local_pos(),
            l.spec_x() == self.x as int % 16,
            l.spec_z() == self.z as int % 16,
            l.spec_y() == self.y,
    {
        let lx = floor_mod_16(self.x);
        let lz = floor_mod_16(self.z);
        ChunkLocalPos::new(lx, self.y, lz)
    }

    pub fn offset(self, dx: i16, dy: i16, dz: i16) -> (p: BlockPos)
        ensures
            p == self.spec_offset(dx as int, dy as int, dz as int),
    {
        BlockPos { x: step_i16(self.x, dx), y: step_i16(self.y, dy), z: step_i16(self.z, dz) }
    }

    pub fn offset_dir(self, direction: Direction) -> (p: BlockPos)
        ensures
            p == self.spec_offset_dir(direction),
    {
        let n = direction.normal_i16();
        self.offset(n.0, n.1, n.2)
    }
}

/// The parts of a packed chunk-local position read back as packed.
pub proof fn lemma_local_word_parts(lx: int, lz: int, ym: int)
    requires
        0 <= lx < 16,
        0 <= lz < 16,
        0 <= ym < 65536,
    ensures
        ({
            let w = lx + lz * 16 + ym * 256;
            &&& 0 <= w < 0x100_0000
            &&& w % 16 == lx
            &&& w / 16 % 16 == lz
            &&& w / 256 == ym
            &&& w / 256 % 65536 == ym
        }),
{
    let w = lx + lz * 16 + ym * 256;
    vstd::arithmetic::div_mod::lemma_fundamental_div_mod_converse(w, 16, lz + ym * 16, lx);
    vstd::arithmetic::div_mod::lemma_fundamental_div_mod_converse(lz + ym * 16, 16, ym, lz);
    vstd::arithmetic::div_mod::lemma_div_denominator(w, 16, 16);
    assert(w / 16 == lz + ym * 16);
    assert((lz + ym * 16) / 16 == ym);
    assert(w / 256 == ym);
}

/// The parts of a block position's place in its chunk are the remainders
/// of `x` and `z` and the height `y`.
pub proof fn lemma_chunk_local_parts(p: BlockPos)
    ensures
        p.spec_chunk_local_pos().spec_x() == p.x as int % 16,
        p.spec_chunk_local_pos().spec_z() == p.z as int % 16,
        p.spec_chunk_local_pos().spec_y() == p.y,
{
    let lx = p.x as int % 16;
    let lz = p.z as int % 16;
    let ym = p.y as int % 65536;
    let w = lx + lz * 16 + ym * 256;
    assert(lx % 16 == lx && lz % 16 == lz);
    lemma_local_word_parts(lx, lz, ym);
    assert(p.spec_chunk_local_pos().0 == w);
}

/// Two positions in one chunk with the same section and the same index
/// in it are the same position.
pub proof fn lemma_same_place_same_position(a: BlockPos, b: BlockPos)
    requires
        a.spec_chunk_pos() == b.spec_chunk_pos(),
        a.spec_chunk_local_pos().spec_section() == b.spec_chunk_local_pos().spec_section(),
        a.spec_chunk_local_pos().spec_section_block_index()
            == b.spec_chunk_local_pos().spec_section_block_index(),
    ensures
        a == b,
{
    lemma_chunk_local_parts(a);
    lemma_chunk_local_parts(b);
    let ia = a.y as int % 16 * 256 + (a.z as int % 16) * 16 + a.x as int % 16;
    let ib = b.y as int % 16 * 256 + (b.z as int % 16) * 16 + b.x as int % 16;
    assert(ia == ib);
    assert(a.x as int % 16 == b.x as int % 16);
    assert(a.z as int % 16 == b.z as int % 16);
    assert(a.y as int % 16 == b.y as int % 16);
    assert(a.x as int / 16 == b.x as int / 16);
    assert(a.z as int / 16 == b.z as int / 16);
    assert(a.y as int / 16 == b.y as int / 16);
}

/// Floor division of a coordinate by 16.
pub fn floor_div_16(v: i16) -> (q: i16)
    ensures
        q == v as int / 16,
        q * 16 <= v < q * 16 + 16,
{
    if v >= 0 {
        v / 16
    } else {
        let up: i16 = (-(v + 1)) / 16;
        -up - 1
    }
}

/// The remainder of a coordinate's floor division by 16.
pub fn floor_mod_16(v: i16) -> (m: u8)
    ensures
        m == v as int % 16,
        m < 16,
{
    let q = floor_div_16(v);
    let wide: i32 = v as i32 - (q as i32) * 16;
    wide as u8
}

impl ChunkPos {
    pub fn new(x: i16, z: i16) -> (p: ChunkPos)
        ensures
            p == (ChunkPos { x, z }),
    {
        ChunkPos { x, z }
    }
}

impl ChunkLocalPos {
    /// The packed word for `x` and `z` taken modulo 16 and the height `y`.
    pub open spec fn spec_new(x: u8, y: i16, z: u8) -> ChunkLocalPos {
        ChunkLocalPos(((x as int % 16) + (z as int % 16) * 16 + (y as int % 65536) * 256) as u32)
    }

    pub open spec fn spec_x(self) -> u8 {
        (self.0 as int % 16) as u8
    }

    pub open spec fn spec_z(self) -> u8 {
        (self.0 as int / 16 % 16) as u8
    }

    pub open spec fn spec_y(self) -> i16 {
        wrap_i16(self.0 as int / 256 % 65536)
    }

    /// The vertical section that holds this position: `y` floor-divided
    /// by 16.
    pub open spec fn spec_section(self) -> int {
        self.spec_y() as int / 16
    }

    /// The index of this position inside its section's block array.
    pub open spec fn spec_section_block_index(self) -> u16 {
        (self.spec_y() as int % 16 * 256 + self.spec_z() * 16 + self.spec_x()) as u16
    }

    pub fn new(x: u8, y: i16, z: u8) -> (p: ChunkLocalPos)
        ensures
            p == ChunkLocalPos::spec_new(x, y, z),
            p.spec_x() == x % 16,
            p.spec_z() == z % 16,
            p.spec_y() == y,
    {
        let xw: u32 = (x % 16) as u32;
        let zw: u32 = (z % 16) as u32;
        let yw: u32 = if y >= 0 {
            y as u32
        } else {
            (y as i32 + 65536) as u32
        };
        proof {
            assert(yw == y as int % 65536);
            lemma_local_word_parts(xw as int, zw as int, yw as int);
        }
        ChunkLocalPos(xw + zw * 16 + yw * 256)
    }

    pub fn x(self) -> (v: u8)
        ensures
            v == self.spec_x(),
            v < 16,
    {
        (self.0 % 16) as u8
    }

    pub fn z(self) -> (v: u8)
        ensures
            v == self.spec_z(),
            v < 16,
    {
        (self.0 / 16 % 16) as u8
    }

    pub fn y(self) -> (v: i16)
        ensures
            v == self.spec_y(),
    {
        let raw: u32 = self.0 / 256 % 65536;
        if raw >= 32768 {
            (raw as i32 - 65536) as i16
        } else {
            raw as i16
        }
    }

    pub fn section(self) -> (s: i16)
        ensures
            s == self.spec_section(),
            -2048 <= s < 2048,
    {
        floor_div_16(self.y())
    }

    pub fn section_block_index(self) -> (i: u16)
        ensures
            i == self.spec_section_block_index(),
            i < 4096,
    {
        let yl: u16 = floor_mod_16(self.y()) as u16;
        yl * 256 + (self.z() as u16) * 16 + self.x() as u16
    }
}

} // verus!
