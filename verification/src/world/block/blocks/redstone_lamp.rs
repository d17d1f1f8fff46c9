//! The redstone lamp: lit while it receives a signal, dark a little after
//! the signal ends.

use crate::world::block::{
    property_with_digit, BlockState, BoolProperty, Property, SimpleBlockState, StateId,
};
use crate::pos::BlockPos;
use crate::world::world::{neighbors, LocalWorld, RedstoneOverride, WorldModel};
use vstd::prelude::*;

verus! {

/// The redstone lamp block.
#[derive(Debug, Clone, Copy)]
pub struct RedstoneLampBlock;

/// A lamp's state: `lit` is its only property.
#[derive(Debug, Copy, Clone, Eq, PartialEq, Structural)]
pub struct RedstoneLampState(pub StateId);

impl SimpleBlockState for RedstoneLampState {
    open spec fn id(self) -> StateId {
        self.0
    }

    fn from_state_id(id: StateId) -> (s: Self) {
        RedstoneLampState(id)
    }

    fn state_id(self) -> (id: StateId) {
        self.0
    }

    fn set_state_id(&mut self, id: StateId) {
        self.0 = id;
    }
}

impl Property<2, 1> for RedstoneLampState {

}

impl BoolProperty<1> for RedstoneLampState {

}

impl RedstoneLampState {
    pub open spec fn wf(self) -> bool {
        self.0.0 < RedstoneLampBlock::TOTAL_STATES
    }

    pub open spec fn spec_lit(self) -> bool {
        self.0.0 % 2 == 0
    }

    pub open spec fn spec_set_lit(self, lit: bool) -> RedstoneLampState {
        RedstoneLampState(
            StateId(property_with_digit(self.0.0 as int, 2, 1, if lit { 0 } else { 1 }) as u16),
        )
    }

    pub open spec fn spec_block_state(self) -> BlockState {
        BlockState((RedstoneLampBlock::ID_BASE + self.0.0) as u16)
    }

    pub open spec fn spec_from(bs: BlockState) -> RedstoneLampState {
        RedstoneLampState(StateId((bs.0 - RedstoneLampBlock::ID_BASE) as u16))
    }

    pub fn lit(self) -> (v: bool)
        ensures
            v == self.spec_lit(),
    {
        self.get()
    }

    pub fn set_lit(&mut self, lit: bool)
        requires
            old(self).wf(),
        ensures
            *final(self) == old(self).spec_set_lit(lit),
            final(self).wf(),
            final(self).spec_lit() == lit,
    {
        self.set(lit)
    }

    pub fn block_state(self) -> (bs: BlockState)
        requires
            self.wf(),
        ensures
            bs == self.spec_block_state(),
            RedstoneLampBlock::spec_is_redstone_lamp(bs),
            RedstoneLampState::spec_from(bs) == self,
    {
        BlockState(RedstoneLampBlock::ID_BASE + self.0.0)
    }

    pub fn from(bs: BlockState) -> (s: RedstoneLampState)
        requires
            RedstoneLampBlock::spec_is_redstone_lamp(bs),
        ensures
            s == RedstoneLampState::spec_from(bs),
            s.wf(),
            s.spec_block_state() == bs,
    {
        RedstoneLampState(StateId(bs.0 - RedstoneLampBlock::ID_BASE))
    }
}

impl RedstoneLampBlock {
    /// The first of the lamp's states.
    pub const ID_BASE: u16 = 8201;

    /// How many states the lamp has.
    pub const TOTAL_STATES: u16 = 2;

    /// The offset of the dark state.
    pub const DEFAULT_STATE: u16 = 1;

    /// How many ticks a lamp stays lit after its signal ends.
    pub const OFF_DELAY: u8 = 4;

    pub open spec fn spec_is_redstone_lamp(bs: BlockState) -> bool {
        bs.spec_in_range(RedstoneLampBlock::ID_BASE, RedstoneLampBlock::TOTAL_STATES)
    }

    pub fn is_redstone_lamp(bs: BlockState) -> (b: bool)
        ensures
            b == RedstoneLampBlock::spec_is_redstone_lamp(bs),
    {
        bs.in_range(RedstoneLampBlock::ID_BASE, RedstoneLampBlock::TOTAL_STATES)
    }

    pub open spec fn spec_default_state() -> BlockState {
        BlockState((RedstoneLampBlock::ID_BASE + RedstoneLampBlock::DEFAULT_STATE) as u16)
    }

    pub fn default_state() -> (bs: BlockState)
        ensures
            bs == RedstoneLampBlock::spec_default_state(),
            RedstoneLampBlock::spec_is_redstone_lamp(bs),
            !RedstoneLampState::spec_from(bs).spec_lit(),
    {
        BlockState(RedstoneLampBlock::ID_BASE + RedstoneLampBlock::DEFAULT_STATE)
    }

    /// The lamp state `bs` with `lit` set as given.
    pub open spec fn spec_with_lit(bs: BlockState, lit: bool) -> BlockState {
        RedstoneLampState::spec_from(bs).spec_set_lit(lit).spec_block_state()
    }

    pub fn with_lit(bs: BlockState, lit: bool) -> (next: BlockState)
        requires
            RedstoneLampBlock::spec_is_redstone_lamp(bs),
        ensures
            next == RedstoneLampBlock::spec_with_lit(bs, lit),
            RedstoneLampBlock::spec_is_redstone_lamp(next),
            RedstoneLampState::spec_from(next).spec_lit() == lit,
    {
        let mut state = RedstoneLampState::from(bs);
        state.set_lit(lit);
        state.block_state()
    }
}

impl WorldModel {
    /// The world after the scheduled tick of the lamp in state `bs` at
    /// `pos`: a lit lamp at which no signal arrives goes dark and queues
    /// updates for its neighbours.
    pub open spec fn lamp_ticked(self, pos: BlockPos, bs: BlockState) -> WorldModel {
        if RedstoneLampState::spec_from(bs).spec_lit() && self.signal_to(pos) == 0 && self.block(
            pos,
        ) is Some {
            self.set_block(pos, RedstoneLampBlock::spec_with_lit(bs, false)).push_updates(
                neighbors(pos),
            )
        } else {
            self
        }
    }

    /// The world after the update of the lamp in state `bs` at `pos`: a
    /// dark lamp at which a signal arrives lights up at once and queues
    /// updates for its neighbours; a lit lamp without signal schedules
    /// the tick at which it goes dark.
    pub open spec fn lamp_updated(self, pos: BlockPos, bs: BlockState) -> WorldModel {
        let has_signal = self.signal_to(pos) != 0;
        if !RedstoneLampState::spec_from(bs).spec_lit() {
            if has_signal && self.block(pos) is Some {
                self.set_block(pos, RedstoneLampBlock::spec_with_lit(bs, true)).push_updates(
                    neighbors(pos),
                )
            } else {
                self
            }
        } else if !has_signal {
            self.schedule_tick(pos, RedstoneLampBlock::OFF_DELAY, 0)
        } else {
            self
        }
    }
}

impl RedstoneLampBlock {
    /// The scheduled tick of the lamp in state `blockstate` at `pos`.
    pub fn tick<R: RedstoneOverride>(
        world: &mut LocalWorld<R>,
        pos: BlockPos,
        blockstate: BlockState,
    )
        requires
            old(world).wf(),
            RedstoneLampBlock::spec_is_redstone_lamp(blockstate),
        ensures
            final(world).wf(),
            final(world).same_frame(old(world)),
            final(world)@ == old(world)@.lamp_ticked(pos, blockstate),
    {
        let state = RedstoneLampState::from(blockstate);
        if state.lit() && world.get_signal_to(pos) == 0 {
            let next = RedstoneLampBlock::with_lit(blockstate, false);
            if let Ok(_) = world.set_block_state(pos, next) {
                world.update_neighbors(pos);
            }
        }
    }

    /// The update of the lamp in state `blockstate` at `pos`.
    pub fn update<R: RedstoneOverride>(
        world: &mut LocalWorld<R>,
        pos: BlockPos,
        blockstate: BlockState,
    )
        requires
            old(world).wf(),
            RedstoneLampBlock::spec_is_redstone_lamp(blockstate),
        ensures
            final(world).wf(),
            final(world).same_frame(old(world)),
            final(world)@ == old(world)@.lamp_updated(pos, blockstate),
    {
        let state = RedstoneLampState::from(blockstate);
        let has_signal = world.get_signal_to(pos) != 0;
        if !state.lit() {
            if has_signal {
                let next = RedstoneLampBlock::with_lit(blockstate, true);
                if let Ok(_) = world.set_block_state(pos, next) {
                    world.update_neighbors(pos);
                }
            }
        } else {
            if !has_signal {
                world.schedule_tick(pos, RedstoneLampBlock::OFF_DELAY, 0);
            }
        }
    }
}

} // verus!
