//! Chunks and their sections: block storage, non-air counts, change
//! tracking and their wire form.

use crate::network::bitbuf::{bit_at, bytes_hold_bits, value_bits, BitBuf};
use crate::network::mc_packet::MCPacketBuffer;
use crate::network::primitives::{be_bytes_u16, be_bytes_u64};
use crate::network::varint::{i32_as_u32, varint_bytes};
use crate::pos::{ChunkLocalPos, ChunkPos};
use crate::world::block::BlockState;
use vstd::prelude::*;

verus! {

/// How many blocks a section holds.
pub const SECTION_BLOCKS: usize = 4096;

/// How many bits of a section's wire form hold one block state.
pub const BITS_PER_ENTRY: u8 = 15;

/// How many bytes the packed block states of a section take.
pub const SECTION_DATA_BYTES: usize = 7680;

/// The id of the packet that reports changed blocks of one section.
pub const SECTION_BLOCKS_UPDATE: i32 = 77;

/// How many positions below `n` satisfy `f`.
pub open spec fn count_where(n: int, f: spec_fn(int) -> bool) -> int
    decreases n,
{
    if n <= 0 {
        0
    } else {
        count_where(n - 1, f) + if f(n - 1) {
            1int
        } else {
            0int
        }
    }
}

pub proof fn lemma_count_bounds(n: int, f: spec_fn(int) -> bool)
    requires
        0 <= n,
    ensures
        0 <= count_where(n, f) <= n,
        count_where(n, f) == 0 <==> forall|i: int| 0 <= i < n ==> !#[trigger] f(i),
    decreases n,
{
    if n > 0 {
        lemma_count_bounds(n - 1, f);
    }
}

/// Two predicates that agree everywhere but at `k` count the same but for
/// `k` itself.
pub proof fn lemma_count_update(n: int, f: spec_fn(int) -> bool, g: spec_fn(int) -> bool, k: int)
    requires
        0 <= k < n,
        forall|i: int| 0 <= i < n && i != k ==> #[trigger] f(i) == g(i),
    ensures
        count_where(n, g) == count_where(n, f) + (if g(k) {
            1int
        } else {
            0int
        }) - (if f(k) {
            1int
        } else {
            0int
        }),
    decreases n,
{
    if n - 1 == k {
        lemma_count_same(n - 1, f, g);
    } else {
        lemma_count_update(n - 1, f, g, k);
    }
}

pub proof fn lemma_count_same(n: int, f: spec_fn(int) -> bool, g: spec_fn(int) -> bool)
    requires
        forall|i: int| 0 <= i < n ==> #[trigger] f(i) == g(i),
    ensures
        count_where(n, g) == count_where(n, f),
    decreases n,
{
    if n > 0 {
        lemma_count_same(n - 1, f, g);
    }
}

/// The count of positions is the size of the set of positions.
pub proof fn lemma_count_is_set_len(n: int, f: spec_fn(int) -> bool)
    requires
        0 <= n,
    ensures
        Set::new(|i: int| 0 <= i < n && f(i)).finite(),
        Set::new(|i: int| 0 <= i < n && f(i)).len() == count_where(n, f),
    decreases n,
{
    let s = Set::new(|i: int| 0 <= i < n && f(i));
    if n == 0 {
        assert(s =~= Set::<int>::empty());
    } else {
        let t = Set::new(|i: int| 0 <= i < n - 1 && f(i));
        lemma_count_is_set_len(n - 1, f);
        if f(n - 1) {
            assert(s =~= t.insert(n - 1));
        } else {
            assert(s =~= t);
        }
    }
}

/// The number of blocks of `blocks` that are not air.
pub open spec fn non_air_count(blocks: Seq<BlockState>) -> int {
    count_where(blocks.len() as int, |i: int| !blocks[i].spec_is_air())
}

/// The number of positions at which `blocks` differs from `baseline`.
pub open spec fn change_count(blocks: Seq<BlockState>, baseline: Seq<BlockState>) -> int {
    count_where(blocks.len() as int, |i: int| blocks[i] != baseline[i])
}

/// The bits of a section's block states on the wire: 15 bits for each
/// block in index order, each most significant bit first.
pub open spec fn section_bits(blocks: Seq<BlockState>) -> Seq<bool> {
    Seq::new(
        (blocks.len() * 15) as nat,
        |p: int| value_bits(blocks[p / 15].0 as u64, 15)[p % 15],
    )
}

/// The bytes that hold the given bits, most significant bit first, with
/// zeros after the last bit.
pub open spec fn pack_bits(bits: Seq<bool>) -> Seq<u8> {
    choose|bytes: Seq<u8>| bytes_hold_bits(bytes, bits)
}

proof fn lemma_bits_determine_byte(a: u8, b: u8)
    by (bit_vector)
    requires
        (a >> 7u8) & 1 == (b >> 7u8) & 1,
        (a >> 6u8) & 1 == (b >> 6u8) & 1,
        (a >> 5u8) & 1 == (b >> 5u8) & 1,
        (a >> 4u8) & 1 == (b >> 4u8) & 1,
        (a >> 3u8) & 1 == (b >> 3u8) & 1,
        (a >> 2u8) & 1 == (b >> 2u8) & 1,
        (a >> 1u8) & 1 == (b >> 1u8) & 1,
        (a >> 0u8) & 1 == (b >> 0u8) & 1,
    ensures
        a == b,
{
}

proof fn lemma_bit_is_zero_or_one(a: u8, k: u8)
    by (bit_vector)
    requires
        k < 8,
    ensures
        (a >> k) & 1 == 0 || (a >> k) & 1 == 1,
{
}

proof fn lemma_same_bit(bytes: Seq<u8>, other: Seq<u8>, bits: Seq<bool>, j: int, k: u8)
    requires
        bytes_hold_bits(bytes, bits),
        bytes_hold_bits(other, bits),
        0 <= j < bytes.len(),
        k < 8,
    ensures
        (bytes[j] >> k) & 1 == (other[j] >> k) & 1,
{
    let p = j * 8 + (7 - k);
    assert(p / 8 == j && p % 8 == 7 - k);
    assert(bit_at(bytes, p) == (p < bits.len() && bits[p]));
    assert(bit_at(other, p) == (p < bits.len() && bits[p]));
    assert((7 - (7 - k) as u8) as u8 == k);
    lemma_bit_is_zero_or_one(bytes[j], k);
    lemma_bit_is_zero_or_one(other[j], k);
}

/// Bytes that hold given bits are the packing of those bits.
pub proof fn lemma_pack_bits_unique(bytes: Seq<u8>, bits: Seq<bool>)
    requires
        bytes_hold_bits(bytes, bits),
    ensures
        bytes == pack_bits(bits),
{
    let other = pack_bits(bits);
    assert(bytes_hold_bits(other, bits));
    assert forall|j: int| 0 <= j < bytes.len() implies bytes[j] == other[j] by {
        lemma_same_bit(bytes, other, bits, j, 0);
        lemma_same_bit(bytes, other, bits, j, 1);
        lemma_same_bit(bytes, other, bits, j, 2);
        lemma_same_bit(bytes, other, bits, j, 3);
        lemma_same_bit(bytes, other, bits, j, 4);
        lemma_same_bit(bytes, other, bits, j, 5);
        lemma_same_bit(bytes, other, bits, j, 6);
        lemma_same_bit(bytes, other, bits, j, 7);
        lemma_bits_determine_byte(bytes[j], other[j]);
    }
    assert(bytes =~= other);
}

/// The wire form of a section's block states: for a section of air only,
/// a zero count, zero bits per entry and the one palette entry 0; else
/// the non-air count, 15 bits per entry and the packed states.
pub open spec fn section_bytes(blocks: Seq<BlockState>) -> Seq<u8> {
    if non_air_count(blocks) == 0 {
        seq![0u8, 0u8, 0u8, 0u8]
    } else {
        be_bytes_u16(non_air_count(blocks) as u16) + seq![BITS_PER_ENTRY] + pack_bits(
            section_bits(blocks),
        )
    }
}

/// The word that names a section in an update packet: the section's
/// height in the low 20 bits, the chunk's `z` in the next 22 and its `x`
/// in the top 22.
pub open spec fn section_location(chunk_pos: ChunkPos, section_y: int) -> u64 {
    ((chunk_pos.x as int % 0x40_0000) * 0x400_0000_0000 + (chunk_pos.z as int % 0x40_0000)
        * 0x10_0000 + section_y % 0x10_0000) as u64
}

/// The entry of an update packet for the block at `index`, now in state
/// `bs`: the state above twelve bits of position, `x` highest, then `y`,
/// then `z`.
pub open spec fn change_entry(index: int, bs: BlockState) -> u64 {
    (bs.0 as int * 0x1000 + (index % 16) * 0x100 + (index / 256) * 0x10 + index / 16 % 16) as u64
}

/// The entries of an update packet for the changed blocks below `upto`,
/// in index order.
pub open spec fn change_entries(
    blocks: Seq<BlockState>,
    baseline: Seq<BlockState>,
    upto: int,
) -> Seq<u8>
    decreases upto,
{
    if upto <= 0 {
        Seq::empty()
    } else {
        change_entries(blocks, baseline, upto - 1) + if blocks[upto - 1] != baseline[upto - 1] {
            varint_bytes(change_entry(upto - 1, blocks[upto - 1]) as nat)
        } else {
            Seq::<u8>::empty()
        }
    }
}

/// The body of the packet that reports how `blocks` differs from
/// `baseline`.
pub open spec fn update_packet_bytes(
    chunk_pos: ChunkPos,
    section_y: int,
    blocks: Seq<BlockState>,
    baseline: Seq<BlockState>,
) -> Seq<u8> {
    varint_bytes(i32_as_u32(SECTION_BLOCKS_UPDATE) as nat) + be_bytes_u64(
        section_location(chunk_pos, section_y),
    ) + varint_bytes(change_count(blocks, baseline) as nat) + change_entries(
        blocks,
        baseline,
        blocks.len() as int,
    )
}

/// The entries for blocks that differ from the baseline at `index` alone:
/// none below it, the one entry from there on.
proof fn lemma_single_change_entries(
    baseline: Seq<BlockState>,
    index: int,
    s: BlockState,
    upto: int,
)
    requires
        0 <= index < baseline.len(),
        0 <= upto <= baseline.len(),
        s != baseline[index],
    ensures
        change_entries(baseline.update(index, s), baseline, upto) == (if upto <= index {
            Seq::<u8>::empty()
        } else {
            varint_bytes(change_entry(index, s) as nat)
        }),
    decreases upto,
{
    if upto > 0 {
        lemma_single_change_entries(baseline, index, s, upto - 1);
        let blocks = baseline.update(index, s);
        let before = change_entries(blocks, baseline, upto - 1);
        if upto - 1 == index {
            assert(before + varint_bytes(change_entry(index, s) as nat) =~= varint_bytes(
                change_entry(index, s) as nat,
            ));
        } else {
            assert(before + Seq::<u8>::empty() =~= before);
        }
    }
}

/// One changed block is reported as one entry that holds the block's new
/// state above its twelve bits of position.
pub proof fn lemma_single_change(
    chunk_pos: ChunkPos,
    section_y: int,
    baseline: Seq<BlockState>,
    index: int,
    s: BlockState,
)
    requires
        0 <= index < baseline.len() <= SECTION_BLOCKS,
        s != baseline[index],
    ensures
        ({
            let blocks = baseline.update(index, s);
            &&& change_count(blocks, baseline) == 1
            &&& update_packet_bytes(chunk_pos, section_y, blocks, baseline) == varint_bytes(
                i32_as_u32(SECTION_BLOCKS_UPDATE) as nat,
            ) + be_bytes_u64(section_location(chunk_pos, section_y)) + seq![1u8] + varint_bytes(
                change_entry(index, s) as nat,
            )
            &&& change_entry(index, s) / 0x1000 == s.0
            &&& change_entry(index, s) % 0x1000 == (index % 16) * 0x100 + (index / 256) * 0x10
                + index / 16 % 16
        }),
{
    let blocks = baseline.update(index, s);
    let n = baseline.len() as int;
    let same = |i: int| baseline[i] != baseline[i];
    let differs = |i: int| blocks[i] != baseline[i];
    lemma_count_bounds(n, same);
    lemma_count_update(n, same, differs, index);
    lemma_single_change_entries(baseline, index, s, n);
    assert(varint_bytes(1) =~= seq![1u8]);
}

/// A cube of 16 by 16 by 16 blocks.
pub struct ChunkSection {
    section_y: i8,
    blocks: Vec<BlockState>,
    baseline: Vec<BlockState>,
    non_air_blocks: u16,
    changed: u16,
}

impl ChunkSection {
    /// The section's height in its chunk, in sections.
    pub closed spec fn spec_section_y(&self) -> i8 {
        self.section_y
    }

    /// The section's blocks, in index order.
    pub closed spec fn spec_blocks(&self) -> Seq<BlockState> {
        self.blocks@
    }

    /// The blocks as they were when changes were last reported.
    pub closed spec fn spec_baseline(&self) -> Seq<BlockState> {
        self.baseline@
    }

    /// The indices whose block differs from what was last reported.
    pub open spec fn spec_changes(&self) -> Set<int> {
        Set::new(
            |i: int| 0 <= i < SECTION_BLOCKS && self.spec_blocks()[i] != self.spec_baseline()[i],
        )
    }

    pub closed spec fn spec_non_air_blocks(&self) -> u16 {
        self.non_air_blocks
    }

    /// The section holds 4096 blocks and its counters are right.
    pub closed spec fn wf(&self) -> bool {
        &&& self.blocks@.len() == SECTION_BLOCKS
        &&& self.baseline@.len() == SECTION_BLOCKS
        &&& self.non_air_blocks == non_air_count(self.blocks@)
        &&& self.changed == change_count(self.blocks@, self.baseline@)
    }

    /// What well-formedness means to the outside: 4096 blocks, and a
    /// non-air counter that counts the blocks that are not air.
    pub proof fn lemma_wf(&self)
        requires
            self.wf(),
        ensures
            self.spec_blocks().len() == SECTION_BLOCKS,
            self.spec_baseline().len() == SECTION_BLOCKS,
            self.spec_non_air_blocks() == non_air_count(self.spec_blocks()),
            self.spec_non_air_blocks() == Set::new(
                |i: int| 0 <= i < SECTION_BLOCKS && !self.spec_blocks()[i].spec_is_air(),
            ).len(),
    {
        let blocks = self.spec_blocks();
        lemma_count_is_set_len(SECTION_BLOCKS as int, |i: int| !blocks[i].spec_is_air());
        assert(Set::new(|i: int| 0 <= i < SECTION_BLOCKS && !blocks[i].spec_is_air())
            =~= Set::new(
            |i: int| 0 <= i < SECTION_BLOCKS && (|i: int| !blocks[i].spec_is_air())(i),
        ));
    }

    /// A section of air at the given height.
    pub fn new(section_y: i8) -> (s: ChunkSection)
        ensures
            s.wf(),
            s.spec_section_y() == section_y,
            s.spec_blocks() == Seq::new(SECTION_BLOCKS as nat, |i: int| BlockState(0)),
            s.spec_baseline() == s.spec_blocks(),
            s.spec_non_air_blocks() == 0,
    {
        let blocks = vec![BlockState(0); SECTION_BLOCKS];
        let baseline = vec![BlockState(0); SECTION_BLOCKS];
        let s = ChunkSection { section_y, blocks, baseline, non_air_blocks: 0, changed: 0 };
        proof {
            lemma_count_bounds(SECTION_BLOCKS as int, |i: int| !s.blocks@[i].spec_is_air());
            lemma_count_bounds(SECTION_BLOCKS as int, |i: int| s.blocks@[i] != s.baseline@[i]);
            assert(s.blocks@ =~= Seq::new(SECTION_BLOCKS as nat, |i: int| BlockState(0)));
            assert(s.baseline@ =~= s.blocks@);
        }
        s
    }

    /// The section's height in its chunk, in sections.
    pub fn section_y(&self) -> (y: i8)
        ensures
            y == self.spec_section_y(),
    {
        self.section_y
    }

    /// The block at an index.
    pub fn get_block_state(&self, index: u16) -> (bs: BlockState)
        requires
            self.wf(),
            index < SECTION_BLOCKS,
        ensures
            bs == self.spec_blocks()[index as int],
    {
        self.blocks[index as usize]
    }

    /// Puts a block at an index and returns the block that was there.
    pub fn set_block_state(&mut self, index: u16, blockstate: BlockState) -> (previous: BlockState)
        requires
            old(self).wf(),
            index < SECTION_BLOCKS,
        ensures
            final(self).wf(),
            previous == old(self).spec_blocks()[index as int],
            final(self).spec_blocks() == old(self).spec_blocks().update(index as int, blockstate),
            final(self).spec_baseline() == old(self).spec_baseline(),
            final(self).spec_section_y() == old(self).spec_section_y(),
            final(self).spec_non_air_blocks() == non_air_count(final(self).spec_blocks()),
    {
        let i = index as usize;
        let previous = self.blocks[i];
        let ghost before = self.blocks@;
        let ghost base = self.baseline@;
        let was_changed = previous != self.baseline[i];
        let is_changed = blockstate != self.baseline[i];
        self.blocks.set(i, blockstate);
        proof {
            let after = self.blocks@;
            lemma_count_update(
                SECTION_BLOCKS as int,
                |j: int| !before[j].spec_is_air(),
                |j: int| !after[j].spec_is_air(),
                i as int,
            );
            lemma_count_update(
                SECTION_BLOCKS as int,
                |j: int| before[j] != base[j],
                |j: int| after[j] != base[j],
                i as int,
            );
            lemma_count_bounds(SECTION_BLOCKS as int, |j: int| !after[j].spec_is_air());
            lemma_count_bounds(SECTION_BLOCKS as int, |j: int| after[j] != base[j]);
            lemma_count_bounds(SECTION_BLOCKS as int, |j: int| !before[j].spec_is_air());
            lemma_count_bounds(SECTION_BLOCKS as int, |j: int| before[j] != base[j]);
        }
        if previous.is_air() {
            if !blockstate.is_air() {
                self.non_air_blocks = self.non_air_blocks + 1;
            }
        } else {
            if blockstate.is_air() {
                self.non_air_blocks = self.non_air_blocks - 1;
            }
        }
        if was_changed {
            if !is_changed {
                self.changed = self.changed - 1;
            }
        } else {
            if is_changed {
                self.changed = self.changed + 1;
            }
        }
        previous
    }

    /// The section's 4096 blocks, in index order.
    pub fn get_data_array(&self) -> (data: &[BlockState])
        requires
            self.wf(),
        ensures
            data@ == self.spec_blocks(),
            data@.len() == SECTION_BLOCKS,
    {
        self.blocks.as_slice()
    }

    /// How many of the section's blocks are not air.
    pub fn non_air_blocks(&self) -> (n: u16)
        requires
            self.wf(),
        ensures
            n == self.spec_non_air_blocks(),
            n == non_air_count(self.spec_blocks()),
            n <= SECTION_BLOCKS,
    {
        proof {
            lemma_count_bounds(SECTION_BLOCKS as int, |i: int| !self.blocks@[i].spec_is_air());
        }
        self.non_air_blocks
    }

    /// Whether any block differs from what was last reported.
    pub fn has_changes(&self) -> (b: bool)
        requires
            self.wf(),
        ensures
            b == (self.spec_blocks() != self.spec_baseline()),
            b == !(self.spec_changes() =~= Set::<int>::empty()),
    {
        proof {
            let blocks = self.blocks@;
            let base = self.baseline@;
            lemma_count_bounds(SECTION_BLOCKS as int, |i: int| blocks[i] != base[i]);
            if self.changed == 0 {
                assert forall|i: int| 0 <= i < SECTION_BLOCKS implies blocks[i] == base[i] by {
                    let differs = |i: int| blocks[i] != base[i];
                    assert(!differs(i));
                }
                assert(blocks =~= base);
            } else {
                let i = choose|i: int| 0 <= i < SECTION_BLOCKS && blocks[i] != base[i];
                assert(self.spec_changes().contains(i));
            }
        }
        self.changed != 0
    }

    /// How many bytes the section's wire form takes.
    pub fn serialized_size(&self) -> (n: usize)
        requires
            self.wf(),
        ensures
            n == section_bytes(self.spec_blocks()).len(),
            n == (if self.spec_non_air_blocks() == 0 {
                4int
            } else {
                3 + SECTION_DATA_BYTES
            }),
    {
        proof {
            if self.non_air_blocks != 0 {
                let bits = section_bits(self.blocks@);
                lemma_pack_bits_exists(bits);
            }
        }
        2 + if self.non_air_blocks == 0 {
            1 + 1
        } else {
            1 + SECTION_DATA_BYTES
        }
    }

    /// Appends the section's wire form to a packet.
    pub fn serialize_into(&self, writer: &mut MCPacketBuffer)
        requires
            self.wf(),
        ensures
            final(writer)@ == old(writer)@ + section_bytes(self.spec_blocks()),
    {
        let non_air_blocks = self.non_air_blocks;
        if non_air_blocks == 0 {
            writer.write_be_u16(0);
            writer.write_u8(0);
            let _ = writer.write_varint_u32(0);
            assert(writer@ =~= old(writer)@ + seq![0u8, 0u8, 0u8, 0u8]);
        } else {
            writer.write_be_u16(non_air_blocks);
            writer.write_u8(BITS_PER_ENTRY);
            let mut bits = BitBuf::with_capacity(SECTION_BLOCKS * 15);
            let mut i: usize = 0;
            let ghost all = section_bits(self.blocks@);
            assert(bits.bits() =~= all.take(0));
            while i < SECTION_BLOCKS
                invariant
                    i <= SECTION_BLOCKS,
                    self.blocks@.len() == SECTION_BLOCKS,
                    bits.wf(),
                    all == section_bits(self.blocks@),
                    bits.bits() == all.take(i * 15),
                decreases SECTION_BLOCKS - i,
            {
                let ghost prev = bits.bits();
                bits.write_int_as_size(self.blocks[i].0 as u64, BITS_PER_ENTRY);
                proof {
                    let added = value_bits(self.blocks@[i as int].0 as u64, 15);
                    assert(all.take((i + 1) * 15) =~= all.take(i * 15) + added) by {
                        assert forall|p: int| i * 15 <= p < (i + 1) * 15 implies all[p] == added[p
                            - i * 15] by {
                            assert(p / 15 == i && p % 15 == p - i * 15);
                        }
                    }
                }
                i = i + 1;
            }
            assert(all.take(SECTION_BLOCKS * 15) =~= all);
            let data = bits.as_slice();
            proof {
                lemma_pack_bits_unique(data@, all);
            }
            writer.write_all(data);
            assert(writer@ =~= old(writer)@ + section_bytes(self.spec_blocks()));
        }
    }

    /// Builds the packet that reports the blocks that differ from what
    /// was last reported, if there are any, and takes the blocks as they
    /// are for reported.
    pub fn gen_blocks_update_packet_and_clear_changes(&mut self, chunk_pos: ChunkPos) -> (r: Option<
        MCPacketBuffer,
    >)
        requires
            old(self).wf(),
        ensures
            final(self).wf(),
            final(self).spec_blocks() == old(self).spec_blocks(),
            final(self).spec_baseline() == old(self).spec_blocks(),
            final(self).spec_section_y() == old(self).spec_section_y(),
            final(self).spec_non_air_blocks() == old(self).spec_non_air_blocks(),
            final(self).spec_changes() =~= Set::<int>::empty(),
            r is Some <==> old(self).spec_blocks() != old(self).spec_baseline(),
            r matches Some(pkt) ==> pkt@ == update_packet_bytes(
                chunk_pos,
                old(self).spec_section_y() as int,
                old(self).spec_blocks(),
                old(self).spec_baseline(),
            ),
    {
        if !self.has_changes() {
            assert(self.blocks@ =~= self.baseline@);
            return None;
        }
        let mut pkt = MCPacketBuffer::new(SECTION_BLOCKS_UPDATE);
        pkt.write_be_u64(encode_section_location(chunk_pos, self.section_y));
        let _ = pkt.write_varint_u32(self.changed as u32);
        let ghost head = pkt@;
        let mut i: usize = 0;
        while i < SECTION_BLOCKS
            invariant
                i <= SECTION_BLOCKS,
                self.wf(),
                *self == *old(self),
                pkt@ == head + change_entries(self.blocks@, self.baseline@, i as int),
            decreases SECTION_BLOCKS - i,
        {
            let bs = self.blocks[i];
            if bs != self.baseline[i] {
                let _ = pkt.write_varlong(encode_change_entry(i as u16, bs));
            }
            assert(pkt@ =~= head + change_entries(self.blocks@, self.baseline@, i + 1));
            i = i + 1;
        }
        self.baseline = self.blocks.clone();
        self.changed = 0;
        proof {
            let blocks = self.blocks@;
            assert(self.baseline@ =~= blocks);
            lemma_count_bounds(SECTION_BLOCKS as int, |j: int| blocks[j] != blocks[j]);
            assert(pkt@ =~= update_packet_bytes(
                chunk_pos,
                old(self).spec_section_y() as int,
                old(self).spec_blocks(),
                old(self).spec_baseline(),
            ));
        }
        Some(pkt)
    }
}

/// The bodies of a list of packets.
pub open spec fn packet_bodies(packets: Seq<MCPacketBuffer>) -> Seq<Seq<u8>> {
    Seq::new(packets.len(), |i: int| packets[i]@)
}

/// The update packets of the first `upto` sections: one for each section
/// with a changed block, in section order.
pub open spec fn sections_update_packets(
    sections: Seq<ChunkSection>,
    chunk_pos: ChunkPos,
    upto: int,
) -> Seq<Seq<u8>>
    decreases upto,
{
    if upto <= 0 {
        Seq::empty()
    } else {
        let section = sections[upto - 1];
        sections_update_packets(sections, chunk_pos, upto - 1) + if section.spec_blocks()
            != section.spec_baseline() {
            seq![
                update_packet_bytes(
                    chunk_pos,
                    section.spec_section_y() as int,
                    section.spec_blocks(),
                    section.spec_baseline(),
                ),
            ]
        } else {
            Seq::<Seq<u8>>::empty()
        }
    }
}

/// Sections without a changed block give no update packet.
pub proof fn lemma_no_change_no_packet(sections: Seq<ChunkSection>, chunk_pos: ChunkPos, upto: int)
    requires
        upto <= sections.len(),
        forall|k: int|
            0 <= k < upto ==> (#[trigger] sections[k]).spec_blocks() == sections[k].spec_baseline(),
    ensures
        sections_update_packets(sections, chunk_pos, upto) == Seq::<Seq<u8>>::empty(),
    decreases upto,
{
    if upto > 0 {
        lemma_no_change_no_packet(sections, chunk_pos, upto - 1);
        assert(sections[upto - 1].spec_blocks() == sections[upto - 1].spec_baseline());
    }
}

/// Sections of which one alone has a changed block give one update
/// packet, that section's.
pub proof fn lemma_one_section_one_packet(
    sections: Seq<ChunkSection>,
    chunk_pos: ChunkPos,
    changed: int,
    upto: int,
)
    requires
        0 <= changed < upto <= sections.len(),
        sections[changed].spec_blocks() != sections[changed].spec_baseline(),
        forall|k: int|
            0 <= k < upto && k != changed ==> (#[trigger] sections[k]).spec_blocks()
                == sections[k].spec_baseline(),
    ensures
        sections_update_packets(sections, chunk_pos, upto) == seq![
            update_packet_bytes(
                chunk_pos,
                sections[changed].spec_section_y() as int,
                sections[changed].spec_blocks(),
                sections[changed].spec_baseline(),
            ),
        ],
    decreases upto,
{
    let packet = update_packet_bytes(
        chunk_pos,
        sections[changed].spec_section_y() as int,
        sections[changed].spec_blocks(),
        sections[changed].spec_baseline(),
    );
    if upto - 1 == changed {
        lemma_no_change_no_packet(sections, chunk_pos, upto - 1);
        assert(Seq::<Seq<u8>>::empty() + seq![packet] =~= seq![packet]);
    } else {
        lemma_one_section_one_packet(sections, chunk_pos, changed, upto - 1);
        assert(sections[upto - 1].spec_blocks() == sections[upto - 1].spec_baseline());
        assert(seq![packet] + Seq::<Seq<u8>>::empty() =~= seq![packet]);
    }
}

/// A column of sections, one above the other.
pub struct Chunk {
    sections: Vec<ChunkSection>,
    bottom_section: i8,
}

impl Chunk {
    /// The chunk's sections, lowest first.
    pub closed spec fn spec_sections(&self) -> Seq<ChunkSection> {
        self.sections@
    }

    /// The height of the lowest section, in sections.
    pub closed spec fn spec_bottom_section(&self) -> i8 {
        self.bottom_section
    }

    /// Every section is well formed and sits at its height.
    pub open spec fn wf(&self) -> bool {
        &&& self.spec_bottom_section() + self.spec_sections().len() <= 128
        &&& forall|i: int|
            0 <= i < self.spec_sections().len() ==> (#[trigger] self.spec_sections()[i]).wf()
                && self.spec_sections()[i].spec_section_y() == self.spec_bottom_section() + i
    }

    /// Whether the chunk has a section at height `y`.
    pub open spec fn spec_has_section(&self, y: int) -> bool {
        self.spec_bottom_section() <= y < self.spec_bottom_section() + self.spec_sections().len()
    }

    /// The section at height `y`.
    pub open spec fn spec_section(&self, y: int) -> ChunkSection {
        self.spec_sections()[y - self.spec_bottom_section()]
    }

    /// The block at a position, if the chunk has a section there.
    pub open spec fn spec_block(&self, pos: ChunkLocalPos) -> Option<BlockState> {
        if self.spec_has_section(pos.spec_section()) {
            Some(
                self.spec_section(pos.spec_section()).spec_blocks()[pos.spec_section_block_index() as int],
            )
        } else {
            None
        }
    }

    /// The block that was last reported for a position, if the chunk has
    /// a section there.
    pub open spec fn spec_reported(&self, pos: ChunkLocalPos) -> Option<BlockState> {
        if self.spec_has_section(pos.spec_section()) {
            Some(
                self.spec_section(pos.spec_section()).spec_baseline()[pos.spec_section_block_index() as int],
            )
        } else {
            None
        }
    }

    /// Whether the chunk has the sections of `before`, each at its height
    /// and with its blocks, and holds every block as it is for reported.
    pub open spec fn reported_from(&self, before: &Chunk) -> bool {
        &&& self.spec_bottom_section() == before.spec_bottom_section()
        &&& self.spec_sections().len() == before.spec_sections().len()
        &&& forall|k: int|
            0 <= k < self.spec_sections().len() ==> {
                &&& (#[trigger] self.spec_sections()[k]).spec_section_y()
                    == before.spec_sections()[k].spec_section_y()
                &&& self.spec_sections()[k].spec_blocks() == before.spec_sections()[k].spec_blocks()
                &&& self.spec_sections()[k].spec_baseline()
                    == before.spec_sections()[k].spec_blocks()
            }
    }

    /// Whether the chunk is `before` but for one block, the one at `index`
    /// of the section at place `section`, which is `bs`: the sections
    /// keep their heights and what was reported for them.
    pub open spec fn changed_from(
        &self,
        before: &Chunk,
        section: int,
        index: int,
        bs: BlockState,
    ) -> bool {
        &&& self.spec_bottom_section() == before.spec_bottom_section()
        &&& self.spec_sections().len() == before.spec_sections().len()
        &&& forall|k: int|
            0 <= k < self.spec_sections().len() ==> {
                &&& (#[trigger] self.spec_sections()[k]).spec_section_y()
                    == before.spec_sections()[k].spec_section_y()
                &&& self.spec_sections()[k].spec_baseline()
                    == before.spec_sections()[k].spec_baseline()
                &&& self.spec_sections()[k].spec_blocks() == (if k == section {
                    before.spec_sections()[k].spec_blocks().update(index, bs)
                } else {
                    before.spec_sections()[k].spec_blocks()
                })
            }
    }

    /// Whether two positions name the same block of the chunk.
    pub open spec fn same_cell(a: ChunkLocalPos, b: ChunkLocalPos) -> bool {
        a.spec_section() == b.spec_section() && a.spec_section_block_index()
            == b.spec_section_block_index()
    }

    /// A chunk of air with sections at the heights from `bottom` to `top`.
    pub fn new(bottom: i8, top: i8) -> (c: Chunk)
        ensures
            c.wf(),
            c.spec_bottom_section() == bottom,
            c.spec_sections().len() == (if bottom <= top {
                top - bottom + 1
            } else {
                0
            }),
            forall|pos: ChunkLocalPos|
                c.spec_has_section(pos.spec_section()) ==> c.spec_block(pos) == Some(BlockState(0))
                    && c.spec_reported(pos) == Some(BlockState(0)),
    {
        let mut sections: Vec<ChunkSection> = Vec::new();
        let mut y: i16 = bottom as i16;
        while y <= top as i16
            invariant
                bottom <= y <= top + 1 || (bottom > top && y == bottom),
                sections@.len() == y - bottom,
                forall|i: int|
                    0 <= i < sections@.len() ==> (#[trigger] sections@[i]).wf()
                        && sections@[i].spec_section_y() == bottom + i && sections@[i].spec_blocks()
                        == Seq::new(SECTION_BLOCKS as nat, |k: int| BlockState(0))
                        && sections@[i].spec_baseline() == sections@[i].spec_blocks(),
            decreases top + 1 - y,
        {
            sections.push(ChunkSection::new(y as i8));
            y = y + 1;
        }
        let c = Chunk { sections, bottom_section: bottom };
        assert forall|pos: ChunkLocalPos| c.spec_has_section(pos.spec_section()) implies c.spec_block(
            pos,
        ) == Some(BlockState(0)) && c.spec_reported(pos) == Some(BlockState(0)) by {
            let i = pos.spec_section() - bottom;
            assert(c.sections@[i].wf());
        }
        c
    }

    /// The height of the lowest section, in sections.
    pub fn bottom_section(&self) -> (y: i8)
        ensures
            y == self.spec_bottom_section(),
    {
        self.bottom_section
    }

    /// How many sections the chunk has.
    pub fn section_count(&self) -> (n: usize)
        ensures
            n == self.spec_sections().len(),
    {
        self.sections.len()
    }

    /// The position of the section at height `y` among the chunk's
    /// sections.
    fn section_index(&self, y: i16) -> (r: Option<usize>)
        requires
            self.wf(),
        ensures
            r is Some <==> self.spec_has_section(y as int),
            r matches Some(i) ==> i == y - self.spec_bottom_section() && i
                < self.spec_sections().len(),
    {
        let offset: i32 = y as i32 - self.bottom_section as i32;
        if offset < 0 {
            return None;
        }
        if (offset as usize) < self.sections.len() {
            Some(offset as usize)
        } else {
            None
        }
    }

    /// The section at height `y`, if the chunk has one.
    pub fn get_section(&self, y: i16) -> (r: Result<&ChunkSection, ()>)
        requires
            self.wf(),
        ensures
            r is Ok <==> self.spec_has_section(y as int),
            r matches Ok(section) ==> *section == self.spec_section(y as int) && section.wf(),
    {
        match self.section_index(y) {
            Some(i) => Ok(&self.sections[i]),
            None => Err(()),
        }
    }

    /// The section at height `y`, to change it, if the chunk has one. The
    /// chunk stays well formed if the section does.
    pub fn get_section_mut(&mut self, y: i16) -> (r: Result<&mut ChunkSection, ()>)
        requires
            old(self).wf(),
        ensures
            r is Ok <==> old(self).spec_has_section(y as int),
            r is Err ==> *final(self) == *old(self),
            r matches Ok(section) ==> *section == old(self).spec_section(y as int) && section.wf()
                && final(self).spec_bottom_section() == old(self).spec_bottom_section()
                && final(self).spec_sections() == old(self).spec_sections().update(
                y - old(self).spec_bottom_section(),
                *final(section),
            ),
    {
        match self.section_index(y) {
            Some(i) => Ok(&mut self.sections[i]),
            None => Err(()),
        }
    }

    /// The block at a position, if the chunk has a section there.
    pub fn get_block_state(&self, pos: ChunkLocalPos) -> (r: Result<BlockState, ()>)
        requires
            self.wf(),
        ensures
            r is Ok <==> self.spec_block(pos) is Some,
            r matches Ok(bs) ==> self.spec_block(pos) == Some(bs),
    {
        match self.get_section(pos.section()) {
            Ok(section) => Ok(section.get_block_state(pos.section_block_index())),
            Err(e) => Err(e),
        }
    }

    /// Puts a block at a position and returns the block that was there,
    /// if the chunk has a section there; else changes nothing.
    pub fn set_block_state(&mut self, pos: ChunkLocalPos, bs: BlockState) -> (r: Result<
        BlockState,
        (),
    >)
        requires
            old(self).wf(),
        ensures
            final(self).wf(),
            final(self).spec_bottom_section() == old(self).spec_bottom_section(),
            final(self).spec_sections().len() == old(self).spec_sections().len(),
            r is Ok <==> old(self).spec_block(pos) is Some,
            r matches Ok(previous) ==> old(self).spec_block(pos) == Some(previous),
            r is Err ==> *final(self) == *old(self),
            r is Ok ==> final(self).changed_from(
                old(self),
                pos.spec_section() - old(self).spec_bottom_section(),
                pos.spec_section_block_index() as int,
                bs,
            ),
            forall|q: ChunkLocalPos|
                final(self).spec_block(q) == (if r is Ok && Chunk::same_cell(q, pos) {
                    Some(bs)
                } else {
                    old(self).spec_block(q)
                }),
            forall|q: ChunkLocalPos| final(self).spec_reported(q) == old(self).spec_reported(q),
    {
        let index = pos.section_block_index();
        match self.section_index(pos.section()) {
            Some(i) => {
                let section = &mut self.sections[i];
                let previous = section.set_block_state(index, bs);
                proof {
                    assert forall|k: int| 0 <= k < self.sections@.len() implies (
                    #[trigger] self.sections@[k]).wf() && self.sections@[k].spec_section_y()
                        == self.bottom_section + k by {
                        assert(old(self).sections@[k].wf());
                    }
                    assert(self.changed_from(
                        old(self),
                        pos.spec_section() - old(self).spec_bottom_section(),
                        index as int,
                        bs,
                    ));
                    assert forall|q: ChunkLocalPos|
                        self.spec_block(q) == (if Chunk::same_cell(q, pos) {
                            Some(bs)
                        } else {
                            old(self).spec_block(q)
                        }) && self.spec_reported(q) == old(self).spec_reported(q) by {
                        if self.spec_has_section(q.spec_section()) {
                            let k = q.spec_section() - self.bottom_section;
                            assert(old(self).sections@[k].wf());
                            old(self).sections@[k].lemma_wf();
                        }
                    }
                }
                Ok(previous)
            },
            None => Err(()),
        }
    }

    /// Builds the update packets of the sections with changed blocks, in
    /// section order, and takes all blocks as they are for reported.
    pub fn gen_blocks_update_packets_and_clear_changes(&mut self, chunk_pos: ChunkPos) -> (packets:
        Vec<MCPacketBuffer>)
        requires
            old(self).wf(),
        ensures
            final(self).wf(),
            final(self).spec_bottom_section() == old(self).spec_bottom_section(),
            final(self).spec_sections().len() == old(self).spec_sections().len(),
            packet_bodies(packets@) == sections_update_packets(
                old(self).spec_sections(),
                chunk_pos,
                old(self).spec_sections().len() as int,
            ),
            final(self).reported_from(old(self)),
            forall|q: ChunkLocalPos| final(self).spec_block(q) == old(self).spec_block(q),
            forall|q: ChunkLocalPos| final(self).spec_reported(q) == old(self).spec_block(q),
    {
        let mut packets: Vec<MCPacketBuffer> = Vec::new();
        let n = self.sections.len();
        let mut i: usize = 0;
        assert(packet_bodies(packets@) =~= sections_update_packets(
            old(self).spec_sections(),
            chunk_pos,
            0,
        ));
        while i < n
            invariant
                i <= n,
                n == self.sections@.len(),
                n == old(self).sections@.len(),
                old(self).wf(),
                self.bottom_section == old(self).bottom_section,
                packet_bodies(packets@) == sections_update_packets(
                    old(self).sections@,
                    chunk_pos,
                    i as int,
                ),
                forall|k: int|
                    0 <= k < n ==> (#[trigger] self.sections@[k]).wf()
                        && self.sections@[k].spec_section_y() == self.bottom_section + k
                        && self.sections@[k].spec_blocks() == old(self).sections@[k].spec_blocks(),
                forall|k: int|
                    0 <= k < i ==> (#[trigger] self.sections@[k]).spec_baseline() == old(
                        self,
                    ).sections@[k].spec_blocks(),
                forall|k: int| i <= k < n ==> #[trigger] self.sections@[k] == old(self).sections@[k],
            decreases n - i,
        {
            let ghost before = self.sections@;
            let ghost bodies = packet_bodies(packets@);
            assert(before[i as int].wf());
            let section = &mut self.sections[i];
            let found = section.gen_blocks_update_packet_and_clear_changes(chunk_pos);
            match found {
                Some(pkt) => {
                    let ghost body = pkt@;
                    packets.push(pkt);
                    assert(packet_bodies(packets@) =~= bodies + seq![body]);
                },
                None => {
                    assert(packet_bodies(packets@) =~= bodies + Seq::<Seq<u8>>::empty());
                },
            }
            assert forall|k: int| 0 <= k < n implies (#[trigger] self.sections@[k]).wf()
                && self.sections@[k].spec_section_y() == self.bottom_section + k
                && self.sections@[k].spec_blocks() == old(self).sections@[k].spec_blocks() by {
                assert(before[k].wf());
            }
            i = i + 1;
        }
        proof {
            assert forall|k: int| 0 <= k < n implies (#[trigger] self.sections@[k]).spec_section_y()
                == old(self).sections@[k].spec_section_y() by {
                assert(old(self).sections@[k].wf());
            }
            assert forall|q: ChunkLocalPos|
                final(self).spec_block(q) == old(self).spec_block(q) && final(self).spec_reported(q)
                    == old(self).spec_block(q) by {
                if self.spec_has_section(q.spec_section()) {
                    let k = q.spec_section() - self.bottom_section;
                    assert(self.sections@[k].wf());
                }
            }
        }
        packets
    }
}

/// Bits of a whole number of bytes can be packed.
proof fn lemma_pack_bits_exists(bits: Seq<bool>)
    requires
        bits.len() == SECTION_DATA_BYTES * 8,
    ensures
        pack_bits(bits).len() == SECTION_DATA_BYTES,
        bytes_hold_bits(pack_bits(bits), bits),
{
    let bytes = Seq::new(SECTION_DATA_BYTES as nat, |j: int| byte_of_bits(bits, j * 8));
    assert forall|p: int| 0 <= p < bytes.len() * 8 implies #[trigger] bit_at(bytes, p) == (p
        < bits.len() && bits[p]) by {
        let j = p / 8;
        lemma_byte_of_bits(
            bits[j * 8],
            bits[j * 8 + 1],
            bits[j * 8 + 2],
            bits[j * 8 + 3],
            bits[j * 8 + 4],
            bits[j * 8 + 5],
            bits[j * 8 + 6],
            bits[j * 8 + 7],
        );
    }
    assert(bytes_hold_bits(bytes, bits));
}

/// The byte made of the eight bits that start at position `at`.
pub open spec fn byte_of_bits(bits: Seq<bool>, at: int) -> u8 {
    compose_byte(
        bits[at],
        bits[at + 1],
        bits[at + 2],
        bits[at + 3],
        bits[at + 4],
        bits[at + 5],
        bits[at + 6],
        bits[at + 7],
    )
}

/// The byte with the given bits, most significant first.
pub open spec fn compose_byte(
    b0: bool,
    b1: bool,
    b2: bool,
    b3: bool,
    b4: bool,
    b5: bool,
    b6: bool,
    b7: bool,
) -> u8 {
    (if b0 { 0x80u8 } else { 0u8 }) | (if b1 { 0x40u8 } else { 0u8 }) | (if b2 { 0x20u8 } else { 0u8 })
        | (if b3 { 0x10u8 } else { 0u8 }) | (if b4 { 0x08u8 } else { 0u8 }) | (if b5 { 0x04u8 } else { 0u8 })
        | (if b6 { 0x02u8 } else { 0u8 }) | (if b7 { 0x01u8 } else { 0u8 })
}

proof fn lemma_byte_of_bits(
    b0: bool,
    b1: bool,
    b2: bool,
    b3: bool,
    b4: bool,
    b5: bool,
    b6: bool,
    b7: bool,
)
    by (bit_vector)
    ensures
        ({
            let v = (if b0 { 0x80u8 } else { 0u8 }) | (if b1 { 0x40u8 } else { 0u8 })
                | (if b2 { 0x20u8 } else { 0u8 }) | (if b3 { 0x10u8 } else { 0u8 })
                | (if b4 { 0x08u8 } else { 0u8 }) | (if b5 { 0x04u8 } else { 0u8 })
                | (if b6 { 0x02u8 } else { 0u8 }) | (if b7 { 0x01u8 } else { 0u8 });
            &&& ((v >> 7u8) & 1 == 1) == b0
            &&& ((v >> 6u8) & 1 == 1) == b1
            &&& ((v >> 5u8) & 1 == 1) == b2
            &&& ((v >> 4u8) & 1 == 1) == b3
            &&& ((v >> 3u8) & 1 == 1) == b4
            &&& ((v >> 2u8) & 1 == 1) == b5
            &&& ((v >> 1u8) & 1 == 1) == b6
            &&& ((v >> 0u8) & 1 == 1) == b7
        }),
{
}

/// The word that names a section in an update packet.
pub fn encode_section_location(chunk_pos: ChunkPos, section_y: i8) -> (word: u64)
    ensures
        word == section_location(chunk_pos, section_y as int),
{
    let x: u64 = if chunk_pos.x < 0 {
        (chunk_pos.x as i64 + 0x40_0000) as u64
    } else {
        chunk_pos.x as u64
    };
    let z: u64 = if chunk_pos.z < 0 {
        (chunk_pos.z as i64 + 0x40_0000) as u64
    } else {
        chunk_pos.z as u64
    };
    let y: u64 = if section_y < 0 {
        (section_y as i64 + 0x10_0000) as u64
    } else {
        section_y as u64
    };
    x * 0x400_0000_0000 + z * 0x10_0000 + y
}

/// The entry of an update packet for one changed block.
pub fn encode_change_entry(index: u16, bs: BlockState) -> (entry: u64)
    requires
        index < SECTION_BLOCKS,
    ensures
        entry == change_entry(index as int, bs),
{
    let x = (index % 16) as u64;
    let z = (index / 16 % 16) as u64;
    let y = (index / 256) as u64;
    (bs.0 as u64) * 0x1000 + x * 0x100 + y * 0x10 + z
}

} // verus!
