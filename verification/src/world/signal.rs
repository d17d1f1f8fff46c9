//! Redstone signals: what a block emits toward a neighbour, and what
//! arrives at a position.

use crate::direction::Direction;
use crate::pos::BlockPos;
use crate::world::block::blocks::lever::{LeverBlock, LeverState};
use crate::world::block::blocks::redstone_block::RedstoneBlock;
use crate::world::block::blocks::redstone_comparator::RedstoneComparatorBlock;
use crate::world::block::blocks::redstone_repeater::RedstoneRepeaterBlock;
use crate::world::block::blocks::redstone_torch::RedstoneTorchBlock;
use crate::world::block::blocks::redstone_wire::RedstoneWireBlock;
use crate::world::block::registry::{lemma_behaviour_does_not_conduct, BlockKind};
use crate::world::block::BlockState;
use crate::world::world::{all_directions, LocalWorld, RedstoneOverride, WorldModel};
use vstd::prelude::*;

verus! {

/// The greater of two signals.
pub open spec fn max_signal(a: u8, b: u8) -> u8 {
    if a >= b {
        a
    } else {
        b
    }
}

impl WorldModel {
    /// The signal that a block in state `bs` at `pos` emits of itself in
    /// a direction.
    pub open spec fn block_signal(self, pos: BlockPos, bs: BlockState, direction: Direction) -> u8 {
        match self.registry.spec_kind_of(bs) {
            BlockKind::Generic => 0,
            BlockKind::Lever => LeverBlock::spec_signal(bs),
            BlockKind::RedstoneRepeater => RedstoneRepeaterBlock::spec_signal(bs, direction),
            BlockKind::RedstoneComparator => RedstoneComparatorBlock::spec_signal(
                bs,
                direction,
                self.output(pos),
            ),
            BlockKind::RedstoneWire => RedstoneWireBlock::spec_signal(bs, direction),
            BlockKind::RedstoneBlock => 15,
            BlockKind::RedstoneTorch => RedstoneTorchBlock::spec_signal(bs, direction),
            BlockKind::RedstoneWallTorch => RedstoneTorchBlock::spec_signal(bs, direction),
            BlockKind::RedstoneLamp => 0,
        }
    }

    /// The strong signal that a block in state `bs` at `pos` emits of
    /// itself in a direction.
    pub open spec fn block_strong_signal(
        self,
        pos: BlockPos,
        bs: BlockState,
        direction: Direction,
    ) -> u8 {
        match self.registry.spec_kind_of(bs) {
            BlockKind::Lever => LeverBlock::spec_strong_signal(bs, direction),
            BlockKind::RedstoneRepeater => RedstoneRepeaterBlock::spec_signal(bs, direction),
            BlockKind::RedstoneComparator => RedstoneComparatorBlock::spec_signal(
                bs,
                direction,
                self.output(pos),
            ),
            BlockKind::RedstoneTorch => RedstoneTorchBlock::spec_strong_signal(bs, direction),
            BlockKind::RedstoneWallTorch => RedstoneTorchBlock::spec_strong_signal(bs, direction),
            _ => 0,
        }
    }

    /// What the neighbour of `pos` in direction `d` emits of itself
    /// toward `pos`: its strong signal if `strong`, else its signal;
    /// nothing where the world has no block.
    pub open spec fn neighbor_signal(self, pos: BlockPos, d: Direction, strong: bool) -> u8 {
        let at = pos.spec_offset_dir(d);
        match self.block(at) {
            Some(bs) => if strong {
                self.block_strong_signal(at, bs, d.spec_opposite())
            } else {
                self.block_signal(at, bs, d.spec_opposite())
            },
            None => 0,
        }
    }

    /// The signal that a conductor at `pos` passes on, starting from
    /// `acc`: the greatest of `acc` and what the neighbours in the
    /// directions from position `from` on emit toward `pos`, the neighbour
    /// in direction `toward` left out. The search ends at the first 15.
    pub open spec fn conducted(
        self,
        pos: BlockPos,
        toward: Direction,
        strong: bool,
        acc: u8,
        from: int,
    ) -> u8
        decreases 6 - from,
    {
        if from < 0 || from >= 6 {
            acc
        } else {
            let d = all_directions()[from];
            if d == toward {
                self.conducted(pos, toward, strong, acc, from + 1)
            } else {
                let next = max_signal(acc, self.neighbor_signal(pos, d, strong));
                if next == 15 {
                    15
                } else {
                    self.conducted(pos, toward, strong, next, from + 1)
                }
            }
        }
    }

    /// The signal that the block at `pos` emits toward its neighbour in
    /// a direction: what the override answers if it answers; else the
    /// block's own signal, and for a conductor below full power the
    /// greatest of that and its other neighbours' signals toward it.
    pub open spec fn signal(self, pos: BlockPos, direction: Direction) -> u8 {
        match self.block(pos) {
            None => 0,
            Some(bs) => match (self.answers)(pos, bs, direction, false) {
                Some(s) => s,
                None => {
                    let own = self.block_signal(pos, bs, direction);
                    if own == 15 || !self.registry.spec_is_redstone_conductor(bs) {
                        own
                    } else {
                        self.conducted(pos, direction, false, own, 0)
                    }
                },
            },
        }
    }

    /// The strong signal that the block at `pos` emits toward its
    /// neighbour in a direction: what the override answers if it answers;
    /// else nothing for a block that does not conduct, and for a
    /// conductor the greatest strong signal of its other neighbours
    /// toward it.
    pub open spec fn strong_signal(self, pos: BlockPos, direction: Direction) -> u8 {
        match self.block(pos) {
            None => 0,
            Some(bs) => match (self.answers)(pos, bs, direction, false) {
                Some(s) => s,
                None => if !self.registry.spec_is_redstone_conductor(bs) {
                    0
                } else {
                    self.conducted(pos, direction, true, 0, 0)
                },
            },
        }
    }

    /// The greatest signal that the neighbours of `pos` in the first
    /// `upto` directions emit toward `pos`.
    pub open spec fn signal_to_upto(self, pos: BlockPos, upto: int) -> u8
        decreases upto,
    {
        if upto <= 0 {
            0
        } else {
            let d = all_directions()[upto - 1];
            max_signal(
                self.signal_to_upto(pos, upto - 1),
                self.signal(pos.spec_offset_dir(d), d.spec_opposite()),
            )
        }
    }

    /// The signal that arrives at `pos`: the greatest signal that any of
    /// its six neighbours emits toward it.
    pub open spec fn signal_to(self, pos: BlockPos) -> u8 {
        self.signal_to_upto(pos, 6)
    }
}

impl<R: RedstoneOverride> LocalWorld<R> {
    /// The behaviour that applies to a block state.
    pub fn kind_of(&self, bs: BlockState) -> (kind: BlockKind)
        requires
            self.wf(),
        ensures
            kind == self@.registry.spec_kind_of(bs),
            kind.spec_range() matches Some(range) ==> bs.spec_in_range(range.0, range.1),
    {
        proof {
            self.lemma_view();
        }
        self.registry().kind_of(bs)
    }

    /// Whether a block state conducts redstone power.
    pub fn is_redstone_conductor(&self, bs: BlockState) -> (b: bool)
        requires
            self.wf(),
        ensures
            b == self@.registry.spec_is_redstone_conductor(bs),
    {
        proof {
            self.lemma_view();
        }
        self.registry().is_redstone_conductor(bs)
    }

    /// Whether a block state draws a wire beside it toward itself, the
    /// wire lying in direction `direction` of the block.
    pub fn is_attract_redstone_wire_connection(
        &self,
        bs: BlockState,
        direction: crate::direction::HorizontalDirection,
    ) -> (b: bool)
        requires
            self.wf(),
        ensures
            b == self@.attracts_wire(bs, direction),
    {
        match self.kind_of(bs) {
            BlockKind::RedstoneRepeater => RedstoneRepeaterBlock::is_attract_redstone_wire_connection(
                bs,
                direction,
            ),
            BlockKind::RedstoneComparator => true,
            BlockKind::RedstoneTorch => true,
            BlockKind::RedstoneWallTorch => true,
            BlockKind::RedstoneWire => true,
            _ => false,
        }
    }

    /// The signal that a block in state `bs` at `pos` emits of itself in
    /// a direction.
    pub fn block_signal(&self, pos: BlockPos, bs: BlockState, direction: Direction) -> (s: u8)
        requires
            self.wf(),
        ensures
            s == self@.block_signal(pos, bs, direction),
    {
        match self.kind_of(bs) {
            BlockKind::Generic => 0,
            BlockKind::Lever => LeverBlock::get_signal(bs, direction),
            BlockKind::RedstoneRepeater => RedstoneRepeaterBlock::get_signal(bs, direction),
            BlockKind::RedstoneComparator => RedstoneComparatorBlock::get_signal(
                bs,
                direction,
                self.comparator_output(pos),
            ),
            BlockKind::RedstoneWire => RedstoneWireBlock::get_signal(bs, direction),
            BlockKind::RedstoneBlock => RedstoneBlock::get_signal(bs, direction),
            BlockKind::RedstoneTorch => RedstoneTorchBlock::get_signal(bs, direction),
            BlockKind::RedstoneWallTorch => RedstoneTorchBlock::get_signal(bs, direction),
            BlockKind::RedstoneLamp => 0,
        }
    }

    /// The strong signal that a block in state `bs` at `pos` emits of
    /// itself in a direction.
    pub fn block_strong_signal(&self, pos: BlockPos, bs: BlockState, direction: Direction) -> (s:
        u8)
        requires
            self.wf(),
        ensures
            s == self@.block_strong_signal(pos, bs, direction),
    {
        match self.kind_of(bs) {
            BlockKind::Lever => LeverBlock::get_strong_signal(bs, direction),
            BlockKind::RedstoneRepeater => RedstoneRepeaterBlock::get_strong_signal(bs, direction),
            BlockKind::RedstoneComparator => RedstoneComparatorBlock::get_signal(
                bs,
                direction,
                self.comparator_output(pos),
            ),
            BlockKind::RedstoneTorch => RedstoneTorchBlock::get_strong_signal(bs, direction),
            BlockKind::RedstoneWallTorch => RedstoneTorchBlock::get_strong_signal(bs, direction),
            _ => 0,
        }
    }

    /// What the neighbour of `pos` in direction `d` emits of itself
    /// toward `pos`.
    fn neighbor_signal(&self, pos: BlockPos, d: Direction, strong: bool) -> (s: u8)
        requires
            self.wf(),
        ensures
            s == self@.neighbor_signal(pos, d, strong),
    {
        let at = pos.offset_dir(d);
        match self.get_block_state(at) {
            Ok(bs) => if strong {
                self.block_strong_signal(at, bs, d.opposite())
            } else {
                self.block_signal(at, bs, d.opposite())
            },
            Err(_) => 0,
        }
    }

    /// The signal that a conductor at `pos` passes on, starting from
    /// `start`.
    fn conducted(&self, pos: BlockPos, toward: Direction, strong: bool, start: u8) -> (s: u8)
        requires
            self.wf(),
        ensures
            s == self@.conducted(pos, toward, strong, start, 0),
    {
        let mut signal = start;
        let mut i: u8 = 0;
        while i < 6
            invariant
                i <= 6,
                self.wf(),
                self@.conducted(pos, toward, strong, start, 0) == self@.conducted(
                    pos,
                    toward,
                    strong,
                    signal,
                    i as int,
                ),
            decreases 6 - i,
        {
            let d = match Direction::from_index(i) {
                Some(d) => d,
                None => Direction::EAST,
            };
            assert(d == all_directions()[i as int]);
            if d != toward {
                let neighbor = self.neighbor_signal(pos, d, strong);
                if neighbor > signal {
                    signal = neighbor;
                }
                if signal == 15 {
                    return signal;
                }
            }
            i = i + 1;
        }
        signal
    }

    /// What the redstone override answers, if one is installed.
    fn get_redstone_override(
        &self,
        pos: BlockPos,
        blockstate: BlockState,
        direction: Direction,
        strong: bool,
    ) -> (r: Option<u8>)
        requires
            self.wf(),
        ensures
            r == (self@.answers)(pos, blockstate, direction, strong),
    {
        proof {
            self.lemma_view();
        }
        match self.redstone_override() {
            Some(rso) => rso.redstone_override(pos, blockstate, direction, strong),
            None => None,
        }
    }

    /// The signal that the block at `pos` emits toward its neighbour in
    /// a direction.
    pub fn get_signal(&self, pos: BlockPos, direction: Direction) -> (s: u8)
        requires
            self.wf(),
        ensures
            s == self@.signal(pos, direction),
    {
        match self.get_block_state(pos) {
            Ok(blockstate) => {
                if let Some(signal) = self.get_redstone_override(pos, blockstate, direction, false) {
                    return signal;
                }
                let signal = self.block_signal(pos, blockstate, direction);
                if signal == 15 {
                    return signal;
                }
                if !self.is_redstone_conductor(blockstate) {
                    return signal;
                }
                self.conducted(pos, direction, false, signal)
            },
            Err(_) => 0,
        }
    }

    /// The strong signal that the block at `pos` emits toward its
    /// neighbour in a direction.
    pub fn get_strong_signal(&self, pos: BlockPos, direction: Direction) -> (s: u8)
        requires
            self.wf(),
        ensures
            s == self@.strong_signal(pos, direction),
    {
        match self.get_block_state(pos) {
            Ok(blockstate) => {
                if let Some(signal) = self.get_redstone_override(pos, blockstate, direction, false) {
                    return signal;
                }
                if !self.is_redstone_conductor(blockstate) {
                    return 0;
                }
                self.conducted(pos, direction, true, 0)
            },
            Err(_) => 0,
        }
    }

    /// The signal that arrives at `pos`.
    pub fn get_signal_to(&self, pos: BlockPos) -> (s: u8)
        requires
            self.wf(),
        ensures
            s == self@.signal_to(pos),
    {
        let mut signal: u8 = 0;
        let mut i: u8 = 0;
        while i < 6
            invariant
                i <= 6,
                self.wf(),
                signal == self@.signal_to_upto(pos, i as int),
            decreases 6 - i,
        {
            let d = match Direction::from_index(i) {
                Some(d) => d,
                None => Direction::EAST,
            };
            assert(d == all_directions()[i as int]);
            let from = self.get_signal(pos.offset_dir(d), d.opposite());
            if from > signal {
                signal = from;
            }
            i = i + 1;
        }
        signal
    }
}

/// A lever emits full power in every direction while it is powered and
/// none while it is not, whenever the override leaves the answer to the
/// block.
pub proof fn lemma_lever_signal(m: WorldModel, pos: BlockPos, bs: BlockState, direction: Direction)
    requires
        m.registry.wf(),
        m.block(pos) == Some(bs),
        m.registry.spec_kind_of(bs) == BlockKind::Lever,
        (m.answers)(pos, bs, direction, false) is None,
    ensures
        m.signal(pos, direction) == (if LeverState::spec_from(bs).spec_powered() {
            15u8
        } else {
            0u8
        }),
{
    lemma_behaviour_does_not_conduct(&m.registry, bs);
}

} // verus!
