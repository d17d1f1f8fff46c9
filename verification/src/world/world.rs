//! The world: a grid of chunks, the game tick counter, the scheduled
//! ticks, the queue of block updates and the comparators' outputs.

use crate::direction::Direction;
use crate::pos::{BlockPos, ChunkPos};
use crate::world::block::registry::Blocks;
use crate::world::block::BlockState;
use crate::network::mc_packet::MCPacketBuffer;
use crate::network::primitives::be_bytes_u64;
use crate::network::varint::{i32_as_u32, varint_bytes};
use crate::world::chunk::{
    change_entry, packet_bodies, section_location, Chunk, SECTION_BLOCKS_UPDATE,
};
use crate::world::scheduler::{scheduled, BlockTick, BlockTickScheduler};
use crate::world::update_queue::BlockUpdateQueue;
use std::collections::BTreeMap;
use vstd::prelude::*;

verus! {

/// Something that can answer for the signal of a block in place of the
/// block itself, such as a pin of the machine that the world runs on.
pub trait RedstoneOverride {
    /// What the override answers for a block in state `blockstate` at
    /// `pos`, asked for its signal toward `direction`: a signal to use as
    /// it is, or nothing to let the block answer.
    spec fn answer(
        &self,
        pos: BlockPos,
        blockstate: BlockState,
        direction: Direction,
        strong: bool,
    ) -> Option<u8>;

    fn redstone_override(
        &self,
        pos: BlockPos,
        blockstate: BlockState,
        direction: Direction,
        strong: bool,
    ) -> (r: Option<u8>)
        ensures
            r == self.answer(pos, blockstate, direction, strong),
    ;
}

/// The override that leaves every answer to the blocks.
#[derive(Debug, Clone, Copy)]
pub struct NoOverride;

impl RedstoneOverride for NoOverride {
    open spec fn answer(
        &self,
        pos: BlockPos,
        blockstate: BlockState,
        direction: Direction,
        strong: bool,
    ) -> Option<u8> {
        None
    }

    fn redstone_override(
        &self,
        pos: BlockPos,
        blockstate: BlockState,
        direction: Direction,
        strong: bool,
    ) -> (r: Option<u8>) {
        None
    }
}

/// One sampled signal: every block in state `blockstate` emits `signal`.
#[derive(Debug, Clone, Copy)]
pub struct SampledSignal {
    pub blockstate: BlockState,
    pub signal: u8,
}

/// An override from a table of sampled signals, such as the readings of
/// the machine's inputs: a block whose state is in the table emits the
/// signal of the first entry for its state, in every direction.
#[derive(Debug)]
pub struct SampledSignals {
    pub entries: Vec<SampledSignal>,
}

/// The signal of the first of the entries from position `from` on that
/// is for a block state.
pub open spec fn first_sample(entries: Seq<SampledSignal>, blockstate: BlockState, from: int) -> Option<
    u8,
>
    decreases entries.len() - from,
{
    if from < 0 || from >= entries.len() {
        None
    } else if entries[from].blockstate == blockstate {
        Some(entries[from].signal)
    } else {
        first_sample(entries, blockstate, from + 1)
    }
}

impl RedstoneOverride for SampledSignals {
    open spec fn answer(
        &self,
        pos: BlockPos,
        blockstate: BlockState,
        direction: Direction,
        strong: bool,
    ) -> Option<u8> {
        first_sample(self.entries@, blockstate, 0)
    }

    fn redstone_override(
        &self,
        pos: BlockPos,
        blockstate: BlockState,
        direction: Direction,
        strong: bool,
    ) -> (r: Option<u8>) {
        let mut i: usize = 0;
        while i < self.entries.len()
            invariant
                i <= self.entries@.len(),
                first_sample(self.entries@, blockstate, 0) == first_sample(
                    self.entries@,
                    blockstate,
                    i as int,
                ),
            decreases self.entries@.len() - i,
        {
            if self.entries[i].blockstate == blockstate {
                return Some(self.entries[i].signal);
            }
            i = i + 1;
        }
        None
    }
}

/// The six directions in wire order.
pub open spec fn all_directions() -> Seq<Direction> {
    seq![
        Direction::DOWN,
        Direction::UP,
        Direction::NORTH,
        Direction::SOUTH,
        Direction::WEST,
        Direction::EAST,
    ]
}

/// The neighbours of `pos` in the first `upto` directions, leaving out the
/// one in direction `except`.
pub open spec fn neighbors_upto(pos: BlockPos, except: Option<Direction>, upto: int) -> Seq<
    BlockPos,
>
    decreases upto,
{
    if upto <= 0 {
        Seq::empty()
    } else {
        let d = all_directions()[upto - 1];
        neighbors_upto(pos, except, upto - 1) + if except == Some(d) {
            Seq::<BlockPos>::empty()
        } else {
            seq![pos.spec_offset_dir(d)]
        }
    }
}

/// The six neighbours of `pos`, in the order of the directions.
pub open spec fn neighbors(pos: BlockPos) -> Seq<BlockPos> {
    neighbors_upto(pos, None, 6)
}

/// The neighbours of `pos` but the one in direction `except`.
pub open spec fn neighbors_except(pos: BlockPos, except: Direction) -> Seq<BlockPos> {
    neighbors_upto(pos, Some(except), 6)
}

/// A game tick number folded into 32 bits.
pub open spec fn wrap_tick(v: int) -> u32 {
    (v % 0x1_0000_0000) as u32
}

/// What a world holds, as mathematics.
#[verifier::ext_equal]
pub struct WorldModel {
    /// The registry of blocks.
    pub registry: Blocks,
    /// What the redstone override answers.
    pub answers: spec_fn(BlockPos, BlockState, Direction, bool) -> Option<u8>,
    /// The block at each position that the world has room for.
    pub cells: Map<BlockPos, BlockState>,
    /// The block last reported to clients at each such position.
    pub reported: Map<BlockPos, BlockState>,
    /// The stored output of the comparator at a position.
    pub outputs: Map<BlockPos, u8>,
    /// The number of the current game tick.
    pub tick: u32,
    /// The scheduled ticks, in firing order.
    pub scheduled: Seq<BlockTick>,
    /// The number that the next scheduled tick gets.
    pub sequence: u64,
    /// The positions that wait for a block update, oldest first.
    pub updates: Seq<BlockPos>,
}

impl WorldModel {
    /// The block at a position, if the world has room for one there.
    pub open spec fn block(self, pos: BlockPos) -> Option<BlockState> {
        if self.cells.contains_key(pos) {
            Some(self.cells[pos])
        } else {
            None
        }
    }

    /// The world with a block put at a position; unchanged if the world
    /// has no room there.
    pub open spec fn set_block(self, pos: BlockPos, bs: BlockState) -> WorldModel {
        if self.cells.contains_key(pos) {
            WorldModel { cells: self.cells.insert(pos, bs), ..self }
        } else {
            self
        }
    }

    /// The world with positions added to the update queue.
    pub open spec fn push_updates(self, positions: Seq<BlockPos>) -> WorldModel {
        WorldModel { updates: self.updates + positions, ..self }
    }

    /// The world with one position added to the update queue.
    pub open spec fn push_update(self, pos: BlockPos) -> WorldModel {
        self.push_updates(seq![pos])
    }

    /// The world after a request to tick `pos` in `delay` game ticks.
    pub open spec fn schedule_tick(self, pos: BlockPos, delay: u8, priority: i8) -> WorldModel {
        WorldModel {
            scheduled: scheduled(
                self.scheduled,
                self.sequence,
                pos,
                wrap_tick(self.tick + delay),
                priority,
            ),
            sequence: if crate::world::scheduler::is_pending(self.scheduled, pos) {
                self.sequence
            } else {
                crate::world::scheduler::next_sequence(self.sequence)
            },
            ..self
        }
    }

    /// The stored output of the comparator at a position, 0 where none
    /// is stored.
    pub open spec fn output(self, pos: BlockPos) -> u8 {
        if self.outputs.contains_key(pos) {
            self.outputs[pos]
        } else {
            0
        }
    }

    /// The world with an output stored for a position.
    pub open spec fn set_output(self, pos: BlockPos, value: u8) -> WorldModel {
        WorldModel { outputs: self.outputs.insert(pos, value), ..self }
    }

    /// The world without a stored output for a position.
    pub open spec fn remove_output(self, pos: BlockPos) -> WorldModel {
        WorldModel { outputs: self.outputs.remove(pos), ..self }
    }
}

/// The key under which a position's comparator output is stored.
pub open spec fn position_key(pos: BlockPos) -> u64 {
    ((pos.x as int % 0x1_0000) * 0x1_0000_0000 + (pos.y as int % 0x1_0000) * 0x1_0000 + (
    pos.z as int % 0x1_0000)) as u64
}

fn key_of(pos: BlockPos) -> (key: u64)
    ensures
        key == position_key(pos),
{
    let x: u64 = if pos.x < 0 {
        (pos.x as i32 + 0x1_0000) as u64
    } else {
        pos.x as u64
    };
    let y: u64 = if pos.y < 0 {
        (pos.y as i32 + 0x1_0000) as u64
    } else {
        pos.y as u64
    };
    let z: u64 = if pos.z < 0 {
        (pos.z as i32 + 0x1_0000) as u64
    } else {
        pos.z as u64
    };
    x * 0x1_0000_0000 + y * 0x1_0000 + z
}

proof fn lemma_position_key_injective(a: BlockPos, b: BlockPos)
    requires
        position_key(a) == position_key(b),
    ensures
        a == b,
{
    let ax = a.x as int % 0x1_0000;
    let ay = a.y as int % 0x1_0000;
    let az = a.z as int % 0x1_0000;
    let bx = b.x as int % 0x1_0000;
    let by = b.y as int % 0x1_0000;
    let bz = b.z as int % 0x1_0000;
    assert(ax * 0x1_0000_0000 + ay * 0x1_0000 + az == bx * 0x1_0000_0000 + by * 0x1_0000 + bz);
    assert(az == bz);
    assert(ay == by);
    assert(ax == bx);
}

proof fn lemma_slot_injective(dx: int, dz: int, ex: int, ez: int, size_z: int)
    by (nonlinear_arith)
    requires
        0 <= dz < size_z,
        0 <= ez < size_z,
        0 <= dx,
        0 <= ex,
        dx * size_z + dz == ex * size_z + ez,
    ensures
        dx == ex,
        dz == ez,
{
}

proof fn lemma_slot_bound(dx: int, dz: int, size_x: int, size_z: int)
    by (nonlinear_arith)
    requires
        0 <= dx < size_x <= 0x4000,
        0 <= dz < size_z <= 0x4000,
    ensures
        0 <= dx * size_z + dz < size_x * size_z,
        0 <= dx * size_z <= 0x1000_0000,
        size_x * size_z <= 0x1000_0000,
{
}

/// A world of a fixed grid of chunk slots.
pub struct LocalWorld<R: RedstoneOverride> {
    blocks: Blocks,
    min_x: i16,
    min_z: i16,
    size_x: usize,
    size_z: usize,
    chunks: Vec<Option<Chunk>>,
    tick_number: u32,
    block_tick_scheduler: BlockTickScheduler,
    block_updates: BlockUpdateQueue,
    comparator_outputs: BTreeMap<u64, u8>,
    redstone_override: Option<R>,
}

impl<R: RedstoneOverride> View for LocalWorld<R> {
    type V = WorldModel;

    closed spec fn view(&self) -> WorldModel {
        WorldModel {
            registry: self.blocks,
            answers: |pos: BlockPos, bs: BlockState, direction: Direction, strong: bool|
                match self.redstone_override {
                    Some(r) => r.answer(pos, bs, direction, strong),
                    None => None,
                },
            cells: Map::new(
                |pos: BlockPos| self.spec_cell(pos) is Some,
                |pos: BlockPos| self.spec_cell(pos)->0,
            ),
            reported: Map::new(
                |pos: BlockPos| self.spec_cell(pos) is Some,
                |pos: BlockPos| self.spec_reported_cell(pos)->0,
            ),
            outputs: Map::new(
                |pos: BlockPos| self.comparator_outputs@.contains_key(position_key(pos)),
                |pos: BlockPos| self.comparator_outputs@[position_key(pos)],
            ),
            tick: self.tick_number,
            scheduled: self.block_tick_scheduler@,
            sequence: self.block_tick_scheduler.spec_sequence(),
            updates: self.block_updates@,
        }
    }
}

impl<R: RedstoneOverride> LocalWorld<R> {
    /// The chunk coordinates of the grid's corner with the least
    /// coordinates.
    pub closed spec fn spec_min_corner(&self) -> ChunkPos {
        ChunkPos { x: self.min_x, z: self.min_z }
    }

    /// How many chunk slots the grid has along `x` and along `z`.
    pub closed spec fn spec_size(&self) -> (usize, usize) {
        (self.size_x, self.size_z)
    }

    /// What answers for blocks in place of the blocks, if anything does.
    pub closed spec fn spec_override(&self) -> Option<R> {
        self.redstone_override
    }

    /// Whether the world has the grid of `before`, its corner and its
    /// size, and the override of `before`.
    pub open spec fn same_frame(&self, before: &LocalWorld<R>) -> bool {
        &&& self.spec_min_corner() == before.spec_min_corner()
        &&& self.spec_size() == before.spec_size()
        &&& self.spec_override() == before.spec_override()
    }

    /// Whether the world has the chunks of `before`, with their sections,
    /// heights and blocks, and holds every block as it is for reported.
    pub open spec fn reported_from(&self, before: &LocalWorld<R>) -> bool {
        &&& self.spec_chunks().len() == before.spec_chunks().len()
        &&& forall|i: int|
            0 <= i < self.spec_chunks().len() ==> match #[trigger] before.spec_chunks()[i] {
                Some(b) => self.spec_chunks()[i] matches Some(c) && c.reported_from(&b),
                None => self.spec_chunks()[i] is None,
            }
    }

    /// Whether the world has the chunks of `before` but for the block at
    /// `pos`, which is `bs`; what was reported is as in `before`.
    pub open spec fn block_set_from(
        &self,
        before: &LocalWorld<R>,
        pos: BlockPos,
        bs: BlockState,
    ) -> bool {
        &&& self.spec_chunks().len() == before.spec_chunks().len()
        &&& before.spec_slot(pos.spec_chunk_pos()) matches Some(i)
            && before.spec_chunks()[i] matches Some(b)
            && self.spec_chunks()[i] matches Some(c) && c.changed_from(
            &b,
            pos.spec_chunk_local_pos().spec_section() - b.spec_bottom_section(),
            pos.spec_chunk_local_pos().spec_section_block_index() as int,
            bs,
        )
        &&& forall|j: int|
            0 <= j < self.spec_chunks().len() && Some(j) != before.spec_slot(pos.spec_chunk_pos())
                ==> #[trigger] self.spec_chunks()[j] == before.spec_chunks()[j]
    }

    /// The chunk slots, `x` by `x`, each run in the order of `z`.
    pub closed spec fn spec_chunks(&self) -> Seq<Option<Chunk>> {
        self.chunks@
    }

    /// The index of the slot for a chunk position, if the grid has one.
    pub open spec fn spec_slot(&self, pos: ChunkPos) -> Option<int> {
        let dx = pos.x - self.spec_min_corner().x;
        let dz = pos.z - self.spec_min_corner().z;
        if 0 <= dx < self.spec_size().0 && 0 <= dz < self.spec_size().1 {
            Some(dx * self.spec_size().1 + dz)
        } else {
            None
        }
    }

    /// The chunk at a chunk position, if the grid has a slot for it and
    /// the slot holds one.
    pub open spec fn spec_chunk(&self, pos: ChunkPos) -> Option<Chunk> {
        match self.spec_slot(pos) {
            Some(i) => self.spec_chunks()[i],
            None => None,
        }
    }

    /// The block at a position, if a chunk with a section for it is
    /// there.
    pub open spec fn spec_cell(&self, pos: BlockPos) -> Option<BlockState> {
        match self.spec_chunk(pos.spec_chunk_pos()) {
            Some(chunk) => chunk.spec_block(pos.spec_chunk_local_pos()),
            None => None,
        }
    }

    /// The block last reported at a position.
    pub open spec fn spec_reported_cell(&self, pos: BlockPos) -> Option<BlockState> {
        match self.spec_chunk(pos.spec_chunk_pos()) {
            Some(chunk) => chunk.spec_reported(pos.spec_chunk_local_pos()),
            None => None,
        }
    }

    /// The grid has its size, the registry, every chunk and the schedule
    /// are well formed.
    pub closed spec fn wf(&self) -> bool {
        &&& self.blocks.wf()
        &&& self.chunks@.len() == self.size_x * self.size_z
        &&& self.size_x <= 0x4000
        &&& self.size_z <= 0x4000
        &&& forall|i: int|
            0 <= i < self.chunks@.len() ==> (#[trigger] self.chunks@[i] matches Some(chunk)
                ==> chunk.wf())
        &&& self.block_tick_scheduler.wf()
    }

    /// What the view holds of a well-formed world.
    pub proof fn lemma_view(&self)
        requires
            self.wf(),
        ensures
            self@.registry.wf(),
            crate::world::scheduler::valid_schedule(self@.scheduled, self@.sequence),
            forall|pos: BlockPos| self@.block(pos) == self.spec_cell(pos),
            forall|pos: BlockPos| self@.cells.contains_key(pos) == self@.reported.contains_key(pos),
            forall|pos: BlockPos|
                self@.reported.contains_key(pos) ==> #[trigger] self@.reported[pos]
                    == self.spec_reported_cell(pos)->0,
            forall|pos: BlockPos, bs: BlockState, direction: Direction, strong: bool|
                #[trigger] (self@.answers)(pos, bs, direction, strong) == (match self.spec_override() {
                    Some(r) => r.answer(pos, bs, direction, strong),
                    None => None,
                }),
    {
    }

    /// The slot of a chunk position lies in the grid and stands for that
    /// chunk position.
    pub proof fn lemma_slot(&self, pos: ChunkPos)
        requires
            self.wf(),
            self.spec_slot(pos) is Some,
        ensures
            0 <= self.spec_slot(pos)->0 < self.spec_chunks().len(),
            self.spec_slot_pos(self.spec_slot(pos)->0) == pos,
    {
        let dx = pos.x - self.min_x;
        let dz = pos.z - self.min_z;
        let i = dx * self.size_z + dz;
        lemma_slot_bound(dx, dz, self.size_x as int, self.size_z as int);
        vstd::arithmetic::div_mod::lemma_fundamental_div_mod_converse(
            i,
            self.size_z as int,
            dx,
            dz,
        );
    }

    /// After everything was reported, a block that is set to another
    /// state is reported by one packet with one entry: the block's new
    /// state above its place in its section.
    pub proof fn lemma_one_set_one_packet(
        &self,
        before: &LocalWorld<R>,
        pos: BlockPos,
        bs: BlockState,
    )
        requires
            before.wf(),
            forall|i: int, k: int|
                0 <= i < before.spec_chunks().len() ==> #[trigger] before.section_reported(i, k),
            before.spec_cell(pos) matches Some(previous) && previous != bs,
            self.same_frame(before),
            self.block_set_from(before, pos, bs),
        ensures
            self.spec_update_packets(self.spec_chunks().len() as int) == seq![
                varint_bytes(i32_as_u32(SECTION_BLOCKS_UPDATE) as nat) + be_bytes_u64(
                    section_location(
                        pos.spec_chunk_pos(),
                        pos.spec_chunk_local_pos().spec_section(),
                    ),
                ) + seq![1u8] + varint_bytes(
                    change_entry(
                        pos.spec_chunk_local_pos().spec_section_block_index() as int,
                        bs,
                    ) as nat,
                ),
            ],
    {
        let local = pos.spec_chunk_local_pos();
        let slot = before.spec_slot(pos.spec_chunk_pos())->0;
        before.lemma_slot(pos.spec_chunk_pos());
        let was = before.spec_chunks()[slot]->0;
        let now = self.spec_chunks()[slot]->0;
        assert(was.wf());
        let section = local.spec_section() - was.spec_bottom_section();
        let index = local.spec_section_block_index() as int;
        assert(was.spec_sections()[section].wf());
        was.spec_sections()[section].lemma_wf();
        assert(before.section_reported(slot, section));
        assert(self.spec_slot_pos(slot) == before.spec_slot_pos(slot));
        assert forall|i: int, k: int|
            0 <= i < self.spec_chunks().len() && !(i == slot && k == section)
                implies #[trigger] self.section_reported(i, k) by {
            assert(before.section_reported(i, k));
            if i == slot {
                if 0 <= k < now.spec_sections().len() {
                    assert(now.spec_sections()[k].spec_blocks() == was.spec_sections()[k].spec_blocks());
                }
            } else {
                assert(self.spec_chunks()[i] == before.spec_chunks()[i]);
            }
        }
        self.lemma_one_change_one_packet(
            slot,
            section,
            index,
            bs,
            self.spec_chunks().len() as int,
        );
    }

    /// Worlds with the same grid of chunks hold the same blocks, and
    /// worlds with the same stored outputs hold the same outputs.
    proof fn lemma_same_parts(&self, other: &LocalWorld<R>)
        ensures
            self.chunks@ == other.chunks@ && self.min_x == other.min_x && self.min_z == other.min_z
                && self.size_x == other.size_x && self.size_z == other.size_z ==> self@.cells
                == other@.cells && self@.reported == other@.reported,
            self.comparator_outputs@ == other.comparator_outputs@ ==> self@.outputs
                == other@.outputs,
            self.redstone_override == other.redstone_override ==> self@.answers == other@.answers,
    {
        if self.chunks@ == other.chunks@ && self.min_x == other.min_x && self.min_z == other.min_z
            && self.size_x == other.size_x && self.size_z == other.size_z {
            assert forall|pos: BlockPos|
                self.spec_cell(pos) == other.spec_cell(pos) && self.spec_reported_cell(pos)
                    == other.spec_reported_cell(pos) by {}
            assert(self@.cells =~= other@.cells);
            assert(self@.reported =~= other@.reported);
        }
        if self.comparator_outputs@ == other.comparator_outputs@ {
            assert(self@.outputs =~= other@.outputs);
        }
    }

    /// A world without chunks, at game tick 0, whose grid starts at chunk
    /// `(min_x, min_z)` and has `size_x` by `size_z` slots.
    pub fn new(blocks: Blocks, min_x: i16, min_z: i16, size_x: u8, size_z: u8) -> (w: LocalWorld<R>)
        requires
            blocks.wf(),
        ensures
            w.wf(),
            w@.registry == blocks,
            w@.cells == Map::<BlockPos, BlockState>::empty(),
            w@.reported == Map::<BlockPos, BlockState>::empty(),
            w@.outputs == Map::<BlockPos, u8>::empty(),
            w@.sequence == 0,
            w@.tick == 0,
            w@.scheduled == Seq::<BlockTick>::empty(),
            w@.updates == Seq::<BlockPos>::empty(),
            w.spec_override() is None,
            w.spec_min_corner() == (ChunkPos { x: min_x, z: min_z }),
            w.spec_size() == (size_x as usize, size_z as usize),
    {
        assert(size_x * size_z <= 0x1_0000) by (nonlinear_arith)
            requires
                0 <= size_x < 0x100,
                0 <= size_z < 0x100,
        ;
        let total: usize = size_x as usize * size_z as usize;
        let mut chunks: Vec<Option<Chunk>> = Vec::new();
        let mut i: usize = 0;
        while i < total
            invariant
                i <= total,
                chunks@.len() == i,
                forall|k: int| 0 <= k < i ==> (#[trigger] chunks@[k]) is None,
            decreases total - i,
        {
            chunks.push(None);
            i = i + 1;
        }
        let w = LocalWorld {
            blocks,
            min_x,
            min_z,
            size_x: size_x as usize,
            size_z: size_z as usize,
            chunks,
            tick_number: 0,
            block_tick_scheduler: BlockTickScheduler::new(),
            block_updates: BlockUpdateQueue::new(),
            comparator_outputs: BTreeMap::new(),
            redstone_override: None,
        };
        proof {
            assert forall|pos: BlockPos| w.spec_cell(pos) is None by {
                match w.spec_slot(pos.spec_chunk_pos()) {
                    Some(k) => {
                        lemma_slot_bound(
                            pos.spec_chunk_pos().x - min_x,
                            pos.spec_chunk_pos().z - min_z,
                            size_x as int,
                            size_z as int,
                        );
                        assert(w.chunks@[k] is None);
                    },
                    None => {},
                }
            }
            assert(w@.cells =~= Map::<BlockPos, BlockState>::empty());
            assert(w@.reported =~= Map::<BlockPos, BlockState>::empty());
            assert(w@.outputs =~= Map::<BlockPos, u8>::empty());
        }
        w
    }

    /// Installs or removes the redstone override.
    pub fn set_redstone_override(&mut self, redstone_override: Option<R>)
        requires
            old(self).wf(),
        ensures
            final(self).wf(),
            final(self).spec_min_corner() == old(self).spec_min_corner(),
            final(self).spec_size() == old(self).spec_size(),
            final(self).spec_chunks() == old(self).spec_chunks(),
            final(self).spec_override() == redstone_override,
            final(self)@.registry == old(self)@.registry,
            final(self)@.cells == old(self)@.cells,
            final(self)@.reported == old(self)@.reported,
            final(self)@.outputs == old(self)@.outputs,
            final(self)@.tick == old(self)@.tick,
            final(self)@.scheduled == old(self)@.scheduled,
            final(self)@.sequence == old(self)@.sequence,
            final(self)@.updates == old(self)@.updates,
    {
        self.redstone_override = redstone_override;
        assert(self@.cells =~= old(self)@.cells);
        assert(self@.reported =~= old(self)@.reported);
        assert(self@.outputs =~= old(self)@.outputs);
    }

    /// What answers for blocks in place of the blocks, if anything does.
    pub fn redstone_override(&self) -> (r: &Option<R>)
        ensures
            *r == self.spec_override(),
    {
        &self.redstone_override
    }

    /// The registry of blocks.
    pub fn registry(&self) -> (blocks: &Blocks)
        ensures
            *blocks == self@.registry,
    {
        &self.blocks
    }

    /// The number of the current game tick.
    pub fn tick_number(&self) -> (t: u32)
        ensures
            t == self@.tick,
    {
        self.tick_number
    }

    /// How many positions wait for a block update.
    pub fn pending_updates(&self) -> (n: usize)
        ensures
            n == self@.updates.len(),
    {
        self.block_updates.len()
    }

    /// How many scheduled ticks wait.
    pub fn pending_ticks(&self) -> (n: usize)
        ensures
            n == self@.scheduled.len(),
    {
        self.block_tick_scheduler.len()
    }

    /// The index of the slot for a chunk position.
    fn slot(&self, pos: ChunkPos) -> (r: Option<usize>)
        requires
            self.wf(),
        ensures
            r is Some <==> self.spec_slot(pos) is Some,
            r matches Some(i) ==> self.spec_slot(pos) == Some(i as int) && i < self.chunks@.len(),
    {
        let dx: i32 = pos.x as i32 - self.min_x as i32;
        let dz: i32 = pos.z as i32 - self.min_z as i32;
        if dx < 0 || dz < 0 {
            return None;
        }
        let dx = dx as usize;
        let dz = dz as usize;
        if dx >= self.size_x || dz >= self.size_z {
            return None;
        }
        proof {
            lemma_slot_bound(dx as int, dz as int, self.size_x as int, self.size_z as int);
        }
        Some(dx * self.size_z + dz)
    }

    /// Whether the grid has a chunk at a chunk position.
    pub fn has_chunk(&self, pos: ChunkPos) -> (b: bool)
        requires
            self.wf(),
        ensures
            b == self.spec_chunk(pos) is Some,
    {
        match self.slot(pos) {
            Some(i) => self.chunks[i].is_some(),
            None => false,
        }
    }

    /// The chunk at a chunk position, if the grid has a slot for it and
    /// the slot holds one.
    pub fn get_chunk(&self, pos: ChunkPos) -> (r: Result<&Chunk, ()>)
        requires
            self.wf(),
        ensures
            r is Ok <==> self.spec_chunk(pos) is Some,
            r matches Ok(chunk) ==> self.spec_chunk(pos) == Some(*chunk) && chunk.wf(),
    {
        match self.slot(pos) {
            Some(i) => match &self.chunks[i] {
                Some(chunk) => Ok(chunk),
                None => Err(()),
            },
            None => Err(()),
        }
    }

    /// Puts a chunk into the slot for a chunk position, if the grid has
    /// one; whatever the slot held is dropped.
    pub fn set_chunk(&mut self, pos: ChunkPos, chunk: Chunk) -> (r: Result<(), ()>)
        requires
            old(self).wf(),
            chunk.wf(),
        ensures
            final(self).wf(),
            final(self).same_frame(old(self)),
            r is Ok <==> old(self).spec_slot(pos) is Some,
            r is Err ==> *final(self) == *old(self),
            r is Ok ==> final(self).spec_chunk(pos) == Some(chunk),
            forall|other: ChunkPos|
                other != pos ==> final(self).spec_chunk(other) == old(self).spec_chunk(other),
            final(self)@.registry == old(self)@.registry,
            final(self)@.answers == old(self)@.answers,
            final(self)@.outputs == old(self)@.outputs,
            final(self)@.tick == old(self)@.tick,
            final(self)@.scheduled == old(self)@.scheduled,
            final(self)@.updates == old(self)@.updates,
    {
        match self.slot(pos) {
            Some(i) => {
                self.chunks.set(i, Some(chunk));
                proof {
                    assert forall|other: ChunkPos| other != pos implies self.spec_chunk(other)
                        == old(self).spec_chunk(other) by {
                        match self.spec_slot(other) {
                            Some(k) => {
                                lemma_slot_bound(
                                    other.x - self.min_x,
                                    other.z - self.min_z,
                                    self.size_x as int,
                                    self.size_z as int,
                                );
                                if k == i as int {
                                    lemma_slot_injective(
                                        other.x - self.min_x,
                                        other.z - self.min_z,
                                        pos.x - self.min_x,
                                        pos.z - self.min_z,
                                        self.size_z as int,
                                    );
                                }
                            },
                            None => {},
                        }
                    }
                }
                Ok(())
            },
            None => Err(()),
        }
    }

    /// The block at a position, if a chunk with a section for it is
    /// there.
    pub fn get_block_state(&self, pos: BlockPos) -> (r: Result<BlockState, ()>)
        requires
            self.wf(),
        ensures
            r is Ok <==> self@.block(pos) is Some,
            r matches Ok(bs) ==> self@.block(pos) == Some(bs),
    {
        match self.get_chunk(pos.chunk_pos()) {
            Ok(chunk) => chunk.get_block_state(pos.chunk_local_pos()),
            Err(e) => Err(e),
        }
    }

    /// Puts a block at a position and returns the block that was there,
    /// if a chunk with a section for it is there; else changes nothing.
    pub fn set_block_state(&mut self, pos: BlockPos, state: BlockState) -> (r: Result<
        BlockState,
        (),
    >)
        requires
            old(self).wf(),
        ensures
            final(self).wf(),
            final(self).same_frame(old(self)),
            final(self)@ == old(self)@.set_block(pos, state),
            r is Ok <==> old(self)@.block(pos) is Some,
            r matches Ok(previous) ==> old(self)@.block(pos) == Some(previous),
            r is Ok ==> final(self).block_set_from(old(self), pos, state),
            r is Err ==> final(self).spec_chunks() == old(self).spec_chunks(),
    {
        let local = pos.chunk_local_pos();
        let i = match self.slot(pos.chunk_pos()) {
            Some(i) => i,
            None => {
                return Err(());
            },
        };
        let result = match &mut self.chunks[i] {
            Some(chunk) => chunk.set_block_state(local, state),
            None => Err(()),
        };
        proof {
            assert forall|q: BlockPos|
                self.spec_cell(q) == (if result is Ok && q == pos {
                    Some(state)
                } else {
                    old(self).spec_cell(q)
                }) && self.spec_reported_cell(q) == old(self).spec_reported_cell(q) by {
                match self.spec_slot(q.spec_chunk_pos()) {
                    Some(k) => {
                        lemma_slot_bound(
                            q.spec_chunk_pos().x - self.min_x,
                            q.spec_chunk_pos().z - self.min_z,
                            self.size_x as int,
                            self.size_z as int,
                        );
                        if k == i as int {
                            lemma_slot_injective(
                                q.spec_chunk_pos().x - self.min_x,
                                q.spec_chunk_pos().z - self.min_z,
                                pos.spec_chunk_pos().x - self.min_x,
                                pos.spec_chunk_pos().z - self.min_z,
                                self.size_z as int,
                            );
                            lemma_same_cell(q, pos);
                        }
                    },
                    None => {},
                }
            }
            assert(self@.cells =~= old(self)@.set_block(pos, state).cells);
            assert(self@.reported =~= old(self)@.reported);
            assert(self@ =~= old(self)@.set_block(pos, state));
        }
        result
    }

    /// Adds a position to the queue of block updates.
    pub fn update_block(&mut self, pos: BlockPos)
        requires
            old(self).wf(),
        ensures
            final(self).wf(),
            final(self).same_frame(old(self)),
            final(self)@ == old(self)@.push_update(pos),
    {
        self.block_updates.push(pos);
        proof {
            self.lemma_same_parts(&*old(self));
            assert(self@.updates =~= old(self)@.push_update(pos).updates);
        }
    }

    /// Queues updates for the neighbours of a position, but for the one
    /// in direction `except` if there is one.
    fn update_neighbors_but(&mut self, pos: BlockPos, except: Option<Direction>)
        requires
            old(self).wf(),
        ensures
            final(self).wf(),
            final(self).same_frame(old(self)),
            final(self)@ == old(self)@.push_updates(neighbors_upto(pos, except, 6)),
    {
        let mut i: u8 = 0;
        assert(self@.updates =~= old(self)@.push_updates(neighbors_upto(pos, except, 0)).updates);
        while i < 6
            invariant
                i <= 6,
                self.wf(),
                self.same_frame(old(self)),
                self@ == old(self)@.push_updates(neighbors_upto(pos, except, i as int)),
            decreases 6 - i,
        {
            let direction = match Direction::from_index(i) {
                Some(d) => d,
                None => Direction::EAST,
            };
            assert(direction == all_directions()[i as int]);
            let skip = match except {
                Some(e) => e == direction,
                None => false,
            };
            let ghost before = *self;
            if !skip {
                self.block_updates.push(pos.offset_dir(direction));
            }
            proof {
                self.lemma_same_parts(&before);
                assert(self@.updates =~= old(self)@.push_updates(
                    neighbors_upto(pos, except, i + 1),
                ).updates);
            }
            i = i + 1;
        }
    }

    /// Queues updates for the six neighbours of a position.
    pub fn update_neighbors(&mut self, pos: BlockPos)
        requires
            old(self).wf(),
        ensures
            final(self).wf(),
            final(self).same_frame(old(self)),
            final(self)@ == old(self)@.push_updates(neighbors(pos)),
    {
        self.update_neighbors_but(pos, None)
    }

    /// Queues updates for the neighbours of a position but the one in
    /// direction `except`.
    pub fn update_neighbors_except_for_direction(&mut self, pos: BlockPos, except: Direction)
        requires
            old(self).wf(),
        ensures
            final(self).wf(),
            final(self).same_frame(old(self)),
            final(self)@ == old(self)@.push_updates(neighbors_except(pos, except)),
    {
        self.update_neighbors_but(pos, Some(except))
    }

    /// Schedules a tick for the block at `pos` in `delay` game ticks,
    /// unless one waits for `pos` already.
    pub fn schedule_tick(&mut self, pos: BlockPos, delay: u8, priority: i8)
        requires
            old(self).wf(),
        ensures
            final(self).wf(),
            final(self).same_frame(old(self)),
            final(self)@ == old(self)@.schedule_tick(pos, delay, priority),
    {
        let at = self.tick_number.wrapping_add(delay as u32);
        self.block_tick_scheduler.schedule(pos, at, priority);
        proof {
            self.lemma_same_parts(&*old(self));
        }
    }

    /// Builds the update packets of all chunks, slot by slot, and takes
    /// all blocks as they are for reported.
    pub fn gen_blocks_update_packets_and_clear_changes(&mut self) -> (packets: Vec<
        MCPacketBuffer,
    >)
        requires
            old(self).wf(),
        ensures
            final(self).wf(),
            final(self).same_frame(old(self)),
            packet_bodies(packets@) == old(self).spec_update_packets(
                old(self).spec_chunks().len() as int,
            ),
            final(self)@ == (WorldModel { reported: old(self)@.cells, ..old(self)@ }),
            final(self).reported_from(old(self)),
            forall|i: int, k: int|
                0 <= i < final(self).spec_chunks().len() ==> #[trigger] final(self).section_reported(
                    i,
                    k,
                ),
    {
        let mut packets: Vec<MCPacketBuffer> = Vec::new();
        let n = self.chunks.len();
        assert(packet_bodies(packets@) =~= old(self).spec_update_packets(0));
        if self.size_z == 0 {
            proof {
                assert(n == 0) by (nonlinear_arith)
                    requires
                        n == self.size_x * self.size_z,
                        self.size_z == 0,
                ;
                assert(self@.reported =~= old(self)@.cells);
                assert(self@ =~= (WorldModel { reported: old(self)@.cells, ..old(self)@ }));
            }
            return packets;
        }
        assert(n <= 0x1000_0000) by (nonlinear_arith)
            requires
                n == self.size_x * self.size_z,
                self.size_x <= 0x4000,
                self.size_z <= 0x4000,
        ;
        let mut i: usize = 0;
        while i < n
            invariant
                i <= n,
                n <= 0x1000_0000,
                n == self.chunks@.len(),
                self.wf(),
                self.size_z > 0,
                self.min_x == old(self).min_x,
                self.min_z == old(self).min_z,
                self.size_x == old(self).size_x,
                self.size_z == old(self).size_z,
                self.blocks == old(self).blocks,
                self.tick_number == old(self).tick_number,
                self.block_tick_scheduler == old(self).block_tick_scheduler,
                self.block_updates == old(self).block_updates,
                self.comparator_outputs == old(self).comparator_outputs,
                self.redstone_override == old(self).redstone_override,
                old(self).chunks@.len() == n,
                packet_bodies(packets@) == old(self).spec_update_packets(i as int),
                forall|k: int| i <= k < n ==> #[trigger] self.chunks@[k] == old(self).chunks@[k],
                forall|k: int|
                    0 <= k < i ==> (#[trigger] self.chunks@[k] is Some) == (old(
                        self,
                    ).chunks@[k] is Some),
                forall|k: int|
                    0 <= k < i && old(self).chunks@[k] is Some ==> (
                    #[trigger] self.chunks@[k]->0).reported_from(&old(self).chunks@[k]->0),
                forall|k: int, q: crate::pos::ChunkLocalPos|
                    0 <= k < i && old(self).chunks@[k] is Some ==> (
                    #[trigger] self.chunks@[k]->0.spec_block(q)) == old(self).chunks@[k]->0.spec_block(
                        q,
                    ) && self.chunks@[k]->0.spec_reported(q) == old(self).chunks@[k]->0.spec_block(
                        q,
                    ),
            decreases n - i,
        {
            let ghost bodies = packet_bodies(packets@);
            let x = crate::network::block_pos::cut_i16(self.min_x as i32 + (i / self.size_z) as i32);
            let z = crate::network::block_pos::cut_i16(self.min_z as i32 + (i % self.size_z) as i32);
            let pos = ChunkPos { x, z };
            assert(pos == old(self).spec_slot_pos(i as int));
            let ghost before = self.chunks@;
            match &mut self.chunks[i] {
                Some(chunk) => {
                    let mut found = chunk.gen_blocks_update_packets_and_clear_changes(pos);
                    let ghost added = packet_bodies(found@);
                    packets.append(&mut found);
                    assert(packet_bodies(packets@) =~= bodies + added);
                },
                None => {
                    assert(packet_bodies(packets@) =~= bodies + Seq::<Seq<u8>>::empty());
                },
            }
            i = i + 1;
        }
        proof {
            assert forall|q: BlockPos|
                self.spec_cell(q) == old(self).spec_cell(q) && self.spec_reported_cell(q) == old(
                    self,
                ).spec_cell(q) by {
                match self.spec_slot(q.spec_chunk_pos()) {
                    Some(k) => {
                        lemma_slot_bound(
                            q.spec_chunk_pos().x - self.min_x,
                            q.spec_chunk_pos().z - self.min_z,
                            self.size_x as int,
                            self.size_z as int,
                        );
                        assert(self.chunks@[k] is Some == old(self).chunks@[k] is Some);
                        if old(self).chunks@[k] is Some {
                            assert(self.chunks@[k]->0.spec_block(q.spec_chunk_local_pos()) == old(
                                self,
                            ).chunks@[k]->0.spec_block(q.spec_chunk_local_pos()));
                        }
                    },
                    None => {},
                }
            }
            assert(self@.cells =~= old(self)@.cells);
            assert(self@.reported =~= old(self)@.cells);
            assert(self@.outputs =~= old(self)@.outputs);
            assert(self@ =~= (WorldModel { reported: old(self)@.cells, ..old(self)@ }));
        }
        packets
    }

    /// Takes the first scheduled tick if it is due at game tick `current`.
    pub fn pop_scheduled(&mut self, current: u32) -> (r: Option<BlockTick>)
        requires
            old(self).wf(),
        ensures
            final(self).wf(),
            final(self).same_frame(old(self)),
            r == (if old(self)@.scheduled.len() > 0 && old(self)@.scheduled[0].tick <= current {
                Some(old(self)@.scheduled[0])
            } else {
                None
            }),
            r is Some ==> final(self)@ == (WorldModel {
                scheduled: old(self)@.scheduled.skip(1),
                ..old(self)@
            }),
            r is None ==> final(self)@ == old(self)@,
    {
        let r = self.block_tick_scheduler.pop_at_or_before(current);
        proof {
            self.lemma_same_parts(&*old(self));
        }
        r
    }

    /// Takes the oldest queued update.
    pub fn pop_update(&mut self) -> (r: Option<BlockPos>)
        requires
            old(self).wf(),
        ensures
            final(self).wf(),
            final(self).same_frame(old(self)),
            r == (if old(self)@.updates.len() > 0 {
                Some(old(self)@.updates[0])
            } else {
                None
            }),
            r is Some ==> final(self)@ == (WorldModel {
                updates: old(self)@.updates.skip(1),
                ..old(self)@
            }),
            r is None ==> final(self)@ == old(self)@,
    {
        let r = self.block_updates.pop();
        proof {
            self.lemma_same_parts(&*old(self));
        }
        r
    }

    /// Moves on to the next game tick.
    pub fn advance_tick(&mut self)
        requires
            old(self).wf(),
        ensures
            final(self).wf(),
            final(self).same_frame(old(self)),
            final(self)@ == (WorldModel { tick: wrap_tick(old(self)@.tick + 1), ..old(self)@ }),
    {
        self.tick_number = self.tick_number.wrapping_add(1);
        proof {
            self.lemma_same_parts(&*old(self));
        }
    }

    /// The stored output of the comparator at a position, 0 where none
    /// is stored.
    pub fn comparator_output(&self, pos: BlockPos) -> (v: u8)
        ensures
            v == self@.output(pos),
    {
        let key = key_of(pos);
        match self.comparator_outputs.get(&key) {
            Some(v) => *v,
            None => 0,
        }
    }

    /// Stores the output of the comparator at a position and returns what
    /// was stored before.
    pub fn store_comparator_output(&mut self, pos: BlockPos, value: u8) -> (previous: Option<u8>)
        requires
            old(self).wf(),
        ensures
            final(self).wf(),
            final(self).same_frame(old(self)),
            final(self)@ == old(self)@.set_output(pos, value),
            previous == (if old(self)@.outputs.contains_key(pos) {
                Some(old(self)@.outputs[pos])
            } else {
                None
            }),
    {
        let key = key_of(pos);
        let previous = self.comparator_outputs.insert(key, value);
        proof {
            assert forall|q: BlockPos| q != pos implies position_key(q) != key by {
                if position_key(q) == key {
                    lemma_position_key_injective(q, pos);
                }
            }
            assert(self@.outputs =~= old(self)@.outputs.insert(pos, value));
            assert(self@ =~= old(self)@.set_output(pos, value));
        }
        previous
    }

    /// Forgets the stored output of the comparator at a position.
    pub fn clear_comparator_output(&mut self, pos: BlockPos)
        requires
            old(self).wf(),
        ensures
            final(self).wf(),
            final(self).same_frame(old(self)),
            final(self)@ == old(self)@.remove_output(pos),
    {
        let key = key_of(pos);
        let _ = self.comparator_outputs.remove(&key);
        proof {
            assert forall|q: BlockPos| q != pos implies position_key(q) != key by {
                if position_key(q) == key {
                    lemma_position_key_injective(q, pos);
                }
            }
            assert(self@.outputs =~= old(self)@.outputs.remove(pos));
            assert(self@ =~= old(self)@.remove_output(pos));
        }
    }
}

/// Two positions of one chunk that name the same block of it are the
/// same position.
proof fn lemma_same_cell(a: BlockPos, b: BlockPos)
    requires
        a.spec_chunk_pos() == b.spec_chunk_pos(),
    ensures
        Chunk::same_cell(a.spec_chunk_local_pos(), b.spec_chunk_local_pos()) <==> a == b,
{
    if Chunk::same_cell(a.spec_chunk_local_pos(), b.spec_chunk_local_pos()) {
        crate::pos::lemma_same_place_same_position(a, b);
    }
}

} // verus!
