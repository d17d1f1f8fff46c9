//! The registry that says which block owns each block state.

use crate::resloc::ResLoc;
use crate::world::block::blocks::lever::LeverBlock;
use crate::world::block::blocks::redstone_block::RedstoneBlock;
use crate::world::block::blocks::redstone_comparator::RedstoneComparatorBlock;
use crate::world::block::blocks::redstone_lamp::RedstoneLampBlock;
use crate::world::block::blocks::redstone_repeater::RedstoneRepeaterBlock;
use crate::world::block::blocks::redstone_torch::RedstoneTorchBlock;
use crate::world::block::blocks::redstone_wire::RedstoneWireBlock;
use crate::world::block::{BlockState, StateId};
use vstd::prelude::*;

verus! {

/// Which behaviour a block has.
#[derive(Debug, Eq, PartialEq, Copy, Clone, Structural)]
pub enum BlockKind {
    /// No behaviour of its own.
    Generic,
    Lever,
    RedstoneRepeater,
    RedstoneComparator,
    RedstoneWire,
    RedstoneBlock,
    RedstoneTorch,
    RedstoneWallTorch,
    RedstoneLamp,
}

impl BlockKind {
    /// The first state and the number of states that a block of this kind
    /// must have; any for a generic block.
    pub open spec fn spec_range(self) -> Option<(u16, u16)> {
        match self {
            BlockKind::Generic => None,
            BlockKind::Lever => Some((LeverBlock::ID_BASE, LeverBlock::TOTAL_STATES)),
            BlockKind::RedstoneRepeater => Some(
                (RedstoneRepeaterBlock::ID_BASE, RedstoneRepeaterBlock::TOTAL_STATES),
            ),
            BlockKind::RedstoneComparator => Some(
                (RedstoneComparatorBlock::ID_BASE, RedstoneComparatorBlock::TOTAL_STATES),
            ),
            BlockKind::RedstoneWire => Some(
                (RedstoneWireBlock::ID_BASE, RedstoneWireBlock::TOTAL_STATES),
            ),
            BlockKind::RedstoneBlock => Some((RedstoneBlock::ID_BASE, RedstoneBlock::TOTAL_STATES)),
            BlockKind::RedstoneTorch => Some(
                (RedstoneTorchBlock::FLOOR_ID_BASE, RedstoneTorchBlock::FLOOR_TOTAL_STATES),
            ),
            BlockKind::RedstoneWallTorch => Some(
                (RedstoneTorchBlock::WALL_ID_BASE, RedstoneTorchBlock::WALL_TOTAL_STATES),
            ),
            BlockKind::RedstoneLamp => Some(
                (RedstoneLampBlock::ID_BASE, RedstoneLampBlock::TOTAL_STATES),
            ),
        }
    }

    pub fn range(self) -> (r: Option<(u16, u16)>)
        ensures
            r == self.spec_range(),
    {
        match self {
            BlockKind::Generic => None,
            BlockKind::Lever => Some((LeverBlock::ID_BASE, LeverBlock::TOTAL_STATES)),
            BlockKind::RedstoneRepeater => Some(
                (RedstoneRepeaterBlock::ID_BASE, RedstoneRepeaterBlock::TOTAL_STATES),
            ),
            BlockKind::RedstoneComparator => Some(
                (RedstoneComparatorBlock::ID_BASE, RedstoneComparatorBlock::TOTAL_STATES),
            ),
            BlockKind::RedstoneWire => Some(
                (RedstoneWireBlock::ID_BASE, RedstoneWireBlock::TOTAL_STATES),
            ),
            BlockKind::RedstoneBlock => Some((RedstoneBlock::ID_BASE, RedstoneBlock::TOTAL_STATES)),
            BlockKind::RedstoneTorch => Some(
                (RedstoneTorchBlock::FLOOR_ID_BASE, RedstoneTorchBlock::FLOOR_TOTAL_STATES),
            ),
            BlockKind::RedstoneWallTorch => Some(
                (RedstoneTorchBlock::WALL_ID_BASE, RedstoneTorchBlock::WALL_TOTAL_STATES),
            ),
            BlockKind::RedstoneLamp => Some(
                (RedstoneLampBlock::ID_BASE, RedstoneLampBlock::TOTAL_STATES),
            ),
        }
    }
}

/// The names of the blocks that the registry knows by name.
pub struct BlockResLocs;

impl BlockResLocs {
    pub const LEVER: &'static str = "lever";

    pub const REPEATER: &'static str = "repeater";

    pub const COMPARATOR: &'static str = "comparator";

    pub const REDSTONE_WIRE: &'static str = "redstone_wire";

    pub const REDSTONE_BLOCK: &'static str = "redstone_block";

    pub const REDSTONE_TORCH: &'static str = "redstone_torch";

    pub const REDSTONE_WALL_TORCH: &'static str = "redstone_wall_torch";

    pub const REDSTONE_LAMP: &'static str = "redstone_lamp";

    pub const IRON_BLOCK: &'static str = "iron_block";

    pub const WHITE_WOOL: &'static str = "white_wool";

    pub const RED_WOOL: &'static str = "red_wool";

    pub const ORANGE_WOOL: &'static str = "orange_wool";

    pub const YELLOW_WOOL: &'static str = "yellow_wool";

    pub const GREEN_WOOL: &'static str = "green_wool";

    pub const BLUE_WOOL: &'static str = "blue_wool";

    pub const BLACK_WOOL: &'static str = "black_wool";

    pub const MAGENTA_WOOL: &'static str = "magenta_wool";

    /// The resource location of the game's block with a name.
    pub fn resloc(path: &str) -> (r: ResLoc)
        ensures
            r.namespace@ == crate::MINECRAFT@,
            r.path@ == path@,
    {
        ResLoc::new(crate::MINECRAFT, path)
    }
}

/// A block without behaviour of its own.
#[derive(Debug)]
pub struct GenericBlock {
    pub resloc: ResLoc,
    pub id_base: u16,
    pub num_states: u16,
    pub default_state: StateId,
}

/// What the registry knows of one block: its name, the range of states
/// that it owns, the offset of its default state in that range, whether
/// it conducts redstone power, and its behaviour.
#[derive(Debug)]
pub struct Block {
    pub resloc: ResLoc,
    pub id_base: u16,
    pub total_states: u16,
    pub default_state: StateId,
    pub is_redstone_conductor: bool,
    pub kind: BlockKind,
}

impl GenericBlock {
    pub open spec fn spec_default_state(&self) -> BlockState {
        BlockState((self.id_base + self.default_state.0) as u16)
    }

    /// The state that the block has when nothing else is known.
    pub fn default_state(&self) -> (bs: BlockState)
        requires
            self.id_base + self.default_state.0 <= u16::MAX,
        ensures
            bs == self.spec_default_state(),
    {
        BlockState(self.id_base + self.default_state.0)
    }

    /// The registry's record of this block: without behaviour, and
    /// conducting as given.
    pub fn into_block(self, is_redstone_conductor: bool) -> (b: Block)
        ensures
            b.resloc == self.resloc,
            b.id_base == self.id_base,
            b.total_states == self.num_states,
            b.default_state == self.default_state,
            b.is_redstone_conductor == is_redstone_conductor,
            b.kind == BlockKind::Generic,
    {
        Block {
            resloc: self.resloc,
            id_base: self.id_base,
            total_states: self.num_states,
            default_state: self.default_state,
            is_redstone_conductor,
            kind: BlockKind::Generic,
        }
    }
}

impl Block {
    /// The block owns at least one state, its states and its default
    /// state fit the id space, and a block with behaviour sits where that
    /// behaviour expects it and does not conduct redstone power.
    pub open spec fn wf(&self) -> bool {
        &&& self.total_states > 0
        &&& self.id_base + self.total_states <= 0x1_0000
        &&& self.default_state.0 < self.total_states
        &&& self.kind.spec_range() matches Some(range) ==> range == (
            self.id_base,
            self.total_states,
        ) && !self.is_redstone_conductor
    }

    /// Whether the block owns a state.
    pub open spec fn spec_owns(&self, bs: BlockState) -> bool {
        self.id_base <= bs.0 < self.id_base + self.total_states
    }

    pub open spec fn spec_default_state(&self) -> BlockState {
        BlockState((self.id_base + self.default_state.0) as u16)
    }

    pub fn owns(&self, bs: BlockState) -> (b: bool)
        ensures
            b == self.spec_owns(bs),
    {
        bs.in_range(self.id_base, self.total_states)
    }

    /// The state that the block has when nothing else is known.
    pub fn default_state(&self) -> (bs: BlockState)
        requires
            self.wf(),
        ensures
            bs == self.spec_default_state(),
            self.spec_owns(bs),
    {
        BlockState(self.id_base + self.default_state.0)
    }
}

/// The registry: every block, in the order of the states they own.
pub struct Blocks {
    entries: Vec<Block>,
}

/// Whether the block at position `i + 1` starts where the block at
/// position `i` ends.
pub open spec fn follows(entries: Seq<Block>, i: int) -> bool {
    entries[i].id_base + entries[i].total_states == entries[i + 1].id_base
}

/// Whether blocks, taken in order, own the states from 0 up without gap
/// or overlap.
pub open spec fn contiguous(entries: Seq<Block>) -> bool {
    &&& entries.len() > 0
    &&& entries[0].id_base == 0
    &&& forall|i: int| 0 <= i < entries.len() ==> (#[trigger] entries[i]).wf()
    &&& forall|i: int| 0 <= i < entries.len() - 1 ==> #[trigger] follows(entries, i)
}

/// Whether the block at position `i` has the greatest first state that is
/// not above `bs`.
pub open spec fn answers(entries: Seq<Block>, bs: BlockState, i: int) -> bool {
    &&& 0 <= i < entries.len()
    &&& entries[i].id_base <= bs.0
    &&& i + 1 < entries.len() ==> bs.0 < entries[i + 1].id_base
}

/// In a contiguous registry the blocks stand in the order of their first
/// states.
pub proof fn lemma_contiguous_sorted(entries: Seq<Block>, i: int, j: int)
    requires
        contiguous(entries),
        0 <= i <= j < entries.len(),
    ensures
        entries[i].id_base <= entries[j].id_base,
        i < j ==> entries[i].id_base + entries[i].total_states <= entries[j].id_base,
    decreases j - i,
{
    if i < j {
        lemma_contiguous_sorted(entries, i, j - 1);
        assert(entries[j - 1].wf());
        assert(follows(entries, j - 1));
    }
}

impl View for Blocks {
    type V = Seq<Block>;

    closed spec fn view(&self) -> Seq<Block> {
        self.entries@
    }
}

impl Blocks {
    /// The registry is contiguous.
    pub open spec fn wf(&self) -> bool {
        contiguous(self@)
    }

    /// The greatest state that any block owns.
    pub open spec fn spec_max_state(&self) -> int {
        self@.last().id_base + self@.last().total_states - 1
    }

    /// The position of the block with the greatest first state that is
    /// not above `bs`.
    pub open spec fn spec_index_of(&self, bs: BlockState) -> int {
        choose|i: int| #[trigger] answers(self@, bs, i)
    }

    /// The block that answers for a state.
    pub open spec fn spec_get_block(&self, bs: BlockState) -> Block {
        self@[self.spec_index_of(bs)]
    }

    /// The behaviour that applies to a state: that of the block that owns
    /// it, and none for a state that no block owns.
    pub open spec fn spec_kind_of(&self, bs: BlockState) -> BlockKind {
        let block = self.spec_get_block(bs);
        if block.spec_owns(bs) {
            block.kind
        } else {
            BlockKind::Generic
        }
    }

    /// Whether a state conducts redstone power.
    pub open spec fn spec_is_redstone_conductor(&self, bs: BlockState) -> bool {
        self.spec_get_block(bs).is_redstone_conductor
    }

    /// A registry from blocks that stand in the order of their states, if
    /// they own the states from 0 up without gap or overlap.
    pub fn from_sorted(entries: Vec<Block>) -> (r: Option<Blocks>)
        ensures
            r is Some <==> contiguous(entries@),
            r matches Some(blocks) ==> blocks@ == entries@ && blocks.wf(),
    {
        let n = entries.len();
        if n == 0 {
            return None;
        }
        if entries[0].id_base != 0 {
            return None;
        }
        let mut i: usize = 0;
        while i < n
            invariant
                i <= n,
                n == entries@.len(),
                n > 0,
                entries@[0].id_base == 0,
                forall|k: int| 0 <= k < i ==> (#[trigger] entries@[k]).wf(),
                forall|k: int| 0 <= k < i && k < n - 1 ==> #[trigger] follows(entries@, k),
            decreases n - i,
        {
            let block = &entries[i];
            let fits = block.total_states > 0 && block.total_states as u32 + block.id_base as u32
                <= 0x1_0000 && block.default_state.0 < block.total_states;
            let placed = match block.kind.range() {
                Some((base, total)) => base == block.id_base && total == block.total_states
                    && !block.is_redstone_conductor,
                None => true,
            };
            if !(fits && placed) {
                assert(!entries@[i as int].wf());
                return None;
            }
            if i + 1 < n {
                if block.id_base as u32 + block.total_states as u32 != entries[i + 1].id_base as u32 {
                    assert(!follows(entries@, i as int));
                    return None;
                }
            }
            i = i + 1;
        }
        Some(Blocks { entries })
    }

    /// How many blocks the registry holds.
    pub fn len(&self) -> (n: usize)
        ensures
            n == self@.len(),
    {
        self.entries.len()
    }

    /// The greatest state that any block owns.
    pub fn max_state(&self) -> (m: u16)
        requires
            self.wf(),
        ensures
            m == self.spec_max_state(),
    {
        let last = &self.entries[self.entries.len() - 1];
        assert(last.wf());
        ((last.id_base as u32 + last.total_states as u32) - 1) as u16
    }

    /// Finds the position of the block that answers for a state, by
    /// bisection on the blocks' first states.
    pub fn index_of(&self, bs: BlockState) -> (i: usize)
        requires
            self.wf(),
        ensures
            i == self.spec_index_of(bs),
            i < self@.len(),
            self@[i as int].id_base <= bs.0,
            i + 1 < self@.len() ==> bs.0 < self@[i + 1].id_base,
            bs.0 <= self.spec_max_state() ==> self@[i as int].spec_owns(bs),
    {
        let mut lo: usize = 0;
        let mut hi: usize = self.entries.len();
        while hi - lo > 1
            invariant
                self.wf(),
                0 <= lo < hi <= self@.len(),
                self@[lo as int].id_base <= bs.0,
                hi < self@.len() ==> bs.0 < self@[hi as int].id_base,
            decreases hi - lo,
        {
            let mid = lo + (hi - lo) / 2;
            if self.entries[mid].id_base <= bs.0 {
                lo = mid;
            } else {
                hi = mid;
            }
        }
        proof {
            let found = lo as int;
            let other = self.spec_index_of(bs);
            assert(answers(self@, bs, found));
            assert(answers(self@, bs, other));
            if other < found {
                lemma_contiguous_sorted(self@, other + 1, found);
            }
            if found < other {
                lemma_contiguous_sorted(self@, found + 1, other);
            }
            if bs.0 <= self.spec_max_state() {
                if found + 1 < self@.len() {
                    assert(follows(self@, found));
                }
            }
        }
        lo
    }

    /// The block that answers for a state: the one that owns it, for
    /// every state up to the greatest.
    pub fn get_block(&self, bs: BlockState) -> (block: &Block)
        requires
            self.wf(),
        ensures
            *block == self.spec_get_block(bs),
            block.wf(),
            block.id_base <= bs.0,
            bs.0 <= self.spec_max_state() ==> block.spec_owns(bs),
    {
        let i = self.index_of(bs);
        &self.entries[i]
    }

    /// The behaviour that applies to a state.
    pub fn kind_of(&self, bs: BlockState) -> (kind: BlockKind)
        requires
            self.wf(),
        ensures
            kind == self.spec_kind_of(bs),
            kind.spec_range() matches Some(range) ==> bs.spec_in_range(range.0, range.1),
    {
        let block = self.get_block(bs);
        if block.owns(bs) {
            block.kind
        } else {
            BlockKind::Generic
        }
    }

    /// Whether a state conducts redstone power.
    pub fn is_redstone_conductor(&self, bs: BlockState) -> (b: bool)
        requires
            self.wf(),
        ensures
            b == self.spec_is_redstone_conductor(bs),
    {
        self.get_block(bs).is_redstone_conductor
    }
}

/// Every state up to the greatest is owned by the block that the lookup
/// finds for it, and by no other block of the registry.
pub proof fn lemma_state_ownership(blocks: &Blocks, bs: BlockState)
    requires
        blocks.wf(),
        bs.0 <= blocks.spec_max_state(),
    ensures
        blocks.spec_get_block(bs).spec_owns(bs),
        forall|j: int|
            0 <= j < blocks@.len() && (#[trigger] blocks@[j]).spec_owns(bs) ==> j
                == blocks.spec_index_of(bs),
{
    let n = blocks@.len() as int;
    let witness = lemma_owner_exists(blocks@, bs, n - 1);
    let i = blocks.spec_index_of(bs);
    assert(answers(blocks@, bs, witness));
    assert(answers(blocks@, bs, i));
    if i + 1 < n {
        assert(follows(blocks@, i));
    }
    assert forall|j: int| 0 <= j < n && (#[trigger] blocks@[j]).spec_owns(bs) implies j == i by {
        if j < i {
            lemma_contiguous_sorted(blocks@, j, i);
        }
        if i < j {
            lemma_contiguous_sorted(blocks@, i, j);
        }
    }
}

/// Only blocks without behaviour conduct: a state that has a behaviour
/// does not conduct redstone power.
pub proof fn lemma_behaviour_does_not_conduct(blocks: &Blocks, bs: BlockState)
    requires
        blocks.wf(),
        blocks.spec_kind_of(bs) != BlockKind::Generic,
    ensures
        !blocks.spec_is_redstone_conductor(bs),
{
    let n = blocks@.len() as int;
    let last = blocks@[n - 1];
    assert(last.wf());
    if bs.0 < last.id_base + last.total_states {
        let witness = lemma_owner_exists(blocks@, bs, n - 1);
        assert(answers(blocks@, bs, witness));
    } else {
        assert(answers(blocks@, bs, n - 1));
    }
    let i = blocks.spec_index_of(bs);
    assert(answers(blocks@, bs, i));
    assert(blocks@[i].wf());
}

/// Some block at or below position `upto` answers for a state that lies
/// below the end of the block at `upto`.
proof fn lemma_owner_exists(entries: Seq<Block>, bs: BlockState, upto: int) -> (i: int)
    requires
        contiguous(entries),
        0 <= upto < entries.len(),
        bs.0 < entries[upto].id_base + entries[upto].total_states,
    ensures
        0 <= i <= upto,
        entries[i].id_base <= bs.0,
        i + 1 < entries.len() ==> bs.0 < entries[i + 1].id_base,
    decreases upto,
{
    if entries[upto].id_base <= bs.0 {
        if upto + 1 < entries.len() {
            assert(follows(entries, upto));
        }
        upto
    } else {
        assert(upto > 0);
        assert(follows(entries, upto - 1));
        lemma_owner_exists(entries, bs, upto - 1)
    }
}

} // verus!
