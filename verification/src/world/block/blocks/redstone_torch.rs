//! The redstone torch, standing on a floor or hanging on a wall: lit
//! unless the block that carries it is powered.

use crate::direction::{Direction, HorizontalDirection};
use crate::world::block::{
    property_with_digit, BlockState, BoolProperty, EnumProperty, Property, SimpleBlockState,
    StateId,
};
use crate::pos::BlockPos;
use crate::world::world::{neighbors, neighbors_except, LocalWorld, RedstoneOverride, WorldModel};
use crate::world::block::blocks::redstone_wire::SHAPE_UPDATE_DEPTH;
use vstd::prelude::*;

verus! {

/// Which of the two torch blocks a torch is.
#[derive(Debug, Eq, PartialEq, Copy, Clone, Structural)]
pub enum RedstoneTorchType {
    Floor,
    Wall,
}

/// One of the two torch blocks.
#[derive(Debug, Clone, Copy)]
pub struct RedstoneTorchBlock {
    pub torch_type: RedstoneTorchType,
}

/// A torch of either kind: the direction of the block that carries it,
/// never up, and whether it is lit.
#[derive(Debug, Copy, Clone, Eq, PartialEq, Structural)]
pub struct RedstoneTorchState {
    pub facing: Direction,
    pub lit: bool,
}

/// A floor torch's state: `lit` is its only property.
#[derive(Debug, Copy, Clone, Eq, PartialEq, Structural)]
pub struct RedstoneFloorTorchState(pub StateId);

/// A wall torch's state: `lit` in digit 1 and `facing`, the direction
/// away from the wall, in digit 2 of its 8 states.
#[derive(Debug, Copy, Clone, Eq, PartialEq, Structural)]
pub struct RedstoneWallTorchState(pub StateId);

impl SimpleBlockState for RedstoneFloorTorchState {
    open spec fn id(self) -> StateId {
        self.0
    }

    fn from_state_id(id: StateId) -> (s: Self) {
        RedstoneFloorTorchState(id)
    }

    fn state_id(self) -> (id: StateId) {
        self.0
    }

    fn set_state_id(&mut self, id: StateId) {
        self.0 = id;
    }
}

impl Property<2, 1> for RedstoneFloorTorchState {

}

impl BoolProperty<1> for RedstoneFloorTorchState {

}

impl SimpleBlockState for RedstoneWallTorchState {
    open spec fn id(self) -> StateId {
        self.0
    }

    fn from_state_id(id: StateId) -> (s: Self) {
        RedstoneWallTorchState(id)
    }

    fn state_id(self) -> (id: StateId) {
        self.0
    }

    fn set_state_id(&mut self, id: StateId) {
        self.0 = id;
    }
}

impl Property<2, 1> for RedstoneWallTorchState {

}

impl BoolProperty<1> for RedstoneWallTorchState {

}

impl Property<4, 2> for RedstoneWallTorchState {

}

impl EnumProperty<HorizontalDirection, 4, 2> for RedstoneWallTorchState {

}

impl RedstoneTorchState {
    /// A torch is never carried by the block above it.
    pub open spec fn wf(self) -> bool {
        self.facing != Direction::UP
    }

    /// The global state of a torch: a floor torch when it is carried from
    /// below, else a wall torch that faces away from its wall.
    pub open spec fn spec_block_state(self) -> BlockState {
        match self.facing.spec_horizontal() {
            None => BlockState(
                (RedstoneTorchBlock::FLOOR_ID_BASE + (if self.lit {
                    0int
                } else {
                    1int
                })) as u16,
            ),
            Some(h) => BlockState(
                (RedstoneTorchBlock::WALL_ID_BASE + h.spec_opposite().spec_index() * 2 + (
                if self.lit {
                    0int
                } else {
                    1int
                })) as u16,
            ),
        }
    }

    /// The torch that a global state stands for.
    pub open spec fn spec_from(bs: BlockState) -> RedstoneTorchState {
        if bs.0 < RedstoneTorchBlock::WALL_ID_BASE {
            RedstoneTorchState {
                facing: Direction::DOWN,
                lit: (bs.0 - RedstoneTorchBlock::FLOOR_ID_BASE) % 2 == 0,
            }
        } else {
            let id = bs.0 - RedstoneTorchBlock::WALL_ID_BASE;
            RedstoneTorchState {
                facing: HorizontalDirection::spec_from_index(
                    (id / 2 % 4) as u8,
                ).spec_direction().spec_opposite(),
                lit: id % 2 == 0,
            }
        }
    }

    pub fn block_state(&self) -> (bs: BlockState)
        requires
            self.wf(),
        ensures
            bs == self.spec_block_state(),
            RedstoneTorchBlock::spec_is_redstone_torch(bs),
            RedstoneTorchState::spec_from(bs) == *self,
    {
        match self.facing.horizontal() {
            None => {
                let mut state = RedstoneFloorTorchState(StateId(0));
                <RedstoneFloorTorchState as BoolProperty<1>>::set(&mut state, self.lit);
                BlockState(RedstoneTorchBlock::FLOOR_ID_BASE + state.0.0)
            },
            Some(h) => {
                let mut state = RedstoneWallTorchState(StateId(0));
                <RedstoneWallTorchState as BoolProperty<1>>::set(&mut state, self.lit);
                <RedstoneWallTorchState as EnumProperty<HorizontalDirection, 4, 2>>::set(
                    &mut state,
                    h.opposite(),
                );
                BlockState(RedstoneTorchBlock::WALL_ID_BASE + state.0.0)
            },
        }
    }

    pub fn from(bs: BlockState) -> (s: RedstoneTorchState)
        requires
            RedstoneTorchBlock::spec_is_redstone_torch(bs),
        ensures
            s == RedstoneTorchState::spec_from(bs),
            s.wf(),
            s.spec_block_state() == bs,
    {
        if bs.0 < RedstoneTorchBlock::WALL_ID_BASE {
            let state = RedstoneFloorTorchState(StateId(bs.0 - RedstoneTorchBlock::FLOOR_ID_BASE));
            RedstoneTorchState {
                facing: Direction::DOWN,
                lit: <RedstoneFloorTorchState as BoolProperty<1>>::get(state),
            }
        } else {
            let state = RedstoneWallTorchState(StateId(bs.0 - RedstoneTorchBlock::WALL_ID_BASE));
            let away = <RedstoneWallTorchState as EnumProperty<HorizontalDirection, 4, 2>>::get(
                state,
            );
            RedstoneTorchState {
                facing: away.direction().opposite(),
                lit: <RedstoneWallTorchState as BoolProperty<1>>::get(state),
            }
        }
    }
}

impl RedstoneTorchBlock {
    /// The first of the floor torch's two states.
    pub const FLOOR_ID_BASE: u16 = 5916;

    /// The first of the wall torch's eight states.
    pub const WALL_ID_BASE: u16 = 5918;

    /// How many states the floor torch has.
    pub const FLOOR_TOTAL_STATES: u16 = 2;

    /// How many states the wall torch has.
    pub const WALL_TOTAL_STATES: u16 = 8;

    /// How many ticks pass between a change of input and the torch's
    /// answer.
    pub const DELAY: u8 = 2;

    pub open spec fn spec_is_redstone_torch(bs: BlockState) -> bool {
        bs.spec_in_range(RedstoneTorchBlock::FLOOR_ID_BASE, 10)
    }

    pub fn is_redstone_torch(bs: BlockState) -> (b: bool)
        ensures
            b == RedstoneTorchBlock::spec_is_redstone_torch(bs),
    {
        bs.in_range(
            RedstoneTorchBlock::FLOOR_ID_BASE,
            RedstoneTorchBlock::FLOOR_TOTAL_STATES + RedstoneTorchBlock::WALL_TOTAL_STATES,
        )
    }

    /// The first state of this torch block: lit, and for a wall torch
    /// facing north.
    pub fn default_state(&self) -> (bs: BlockState)
        ensures
            bs == (match self.torch_type {
                RedstoneTorchType::Floor => BlockState(RedstoneTorchBlock::FLOOR_ID_BASE),
                RedstoneTorchType::Wall => BlockState(RedstoneTorchBlock::WALL_ID_BASE),
            }),
            RedstoneTorchBlock::spec_is_redstone_torch(bs),
    {
        match self.torch_type {
            RedstoneTorchType::Floor => BlockState(RedstoneTorchBlock::FLOOR_ID_BASE),
            RedstoneTorchType::Wall => BlockState(RedstoneTorchBlock::WALL_ID_BASE),
        }
    }

    /// The state of a torch placed against the face `face` of a block: a
    /// lit torch carried by that block, or from below for the top and
    /// bottom faces.
    pub open spec fn spec_state_for_placement(face: Direction) -> BlockState {
        RedstoneTorchState {
            facing: match face {
                Direction::DOWN => Direction::DOWN,
                Direction::UP => Direction::DOWN,
                side => side.spec_opposite(),
            },
            lit: true,
        }.spec_block_state()
    }

    pub fn get_state_for_placement(face: Direction) -> (bs: BlockState)
        ensures
            bs == RedstoneTorchBlock::spec_state_for_placement(face),
            RedstoneTorchBlock::spec_is_redstone_torch(bs),
    {
        let block_face = match face {
            Direction::DOWN => Direction::DOWN,
            Direction::UP => Direction::DOWN,
            side => side.opposite(),
        };
        RedstoneTorchState { facing: block_face, lit: true }.block_state()
    }

    /// The torch state `bs` with `lit` set as given.
    pub open spec fn spec_with_lit(bs: BlockState, lit: bool) -> BlockState {
        RedstoneTorchState { facing: RedstoneTorchState::spec_from(bs).facing, lit }.spec_block_state()
    }

    pub fn with_lit(bs: BlockState, lit: bool) -> (next: BlockState)
        requires
            RedstoneTorchBlock::spec_is_redstone_torch(bs),
        ensures
            next == RedstoneTorchBlock::spec_with_lit(bs, lit),
            RedstoneTorchBlock::spec_is_redstone_torch(next),
            RedstoneTorchState::spec_from(next).lit == lit,
            RedstoneTorchState::spec_from(next).facing == RedstoneTorchState::spec_from(bs).facing,
    {
        let state = RedstoneTorchState::from(bs);
        RedstoneTorchState { facing: state.facing, lit }.block_state()
    }

    /// The signal of a torch: 15 in every direction but that of the block
    /// that carries it, while it is lit.
    pub open spec fn spec_signal(bs: BlockState, direction: Direction) -> u8 {
        let state = RedstoneTorchState::spec_from(bs);
        if state.lit && state.facing != direction {
            15
        } else {
            0
        }
    }

    pub fn get_signal(bs: BlockState, direction: Direction) -> (s: u8)
        requires
            RedstoneTorchBlock::spec_is_redstone_torch(bs),
        ensures
            s == RedstoneTorchBlock::spec_signal(bs, direction),
    {
        let state = RedstoneTorchState::from(bs);
        if state.lit && state.facing != direction {
            15
        } else {
            0
        }
    }

    /// The strong signal of a torch: 15 upward while it is lit.
    pub open spec fn spec_strong_signal(bs: BlockState, direction: Direction) -> u8 {
        if direction == Direction::UP && RedstoneTorchState::spec_from(bs).lit {
            15
        } else {
            0
        }
    }

    pub fn get_strong_signal(bs: BlockState, direction: Direction) -> (s: u8)
        requires
            RedstoneTorchBlock::spec_is_redstone_torch(bs),
        ensures
            s == RedstoneTorchBlock::spec_strong_signal(bs, direction),
    {
        if direction == Direction::UP && RedstoneTorchState::from(bs).lit {
            15
        } else {
            0
        }
    }
}

impl WorldModel {
    /// Whether the torch in state `bs` at `pos` should be lit: no signal
    /// comes from the block that carries it.
    pub open spec fn torch_should_output(self, pos: BlockPos, bs: BlockState) -> bool {
        let facing = RedstoneTorchState::spec_from(bs).facing;
        self.signal(pos.spec_offset_dir(facing), facing.spec_opposite()) == 0
    }

    /// The world with updates queued for what a torch at `pos` reaches:
    /// its neighbours and, but for the torch itself, the neighbours of the
    /// block above it.
    pub open spec fn torch_neighbors_updated(self, pos: BlockPos) -> WorldModel {
        self.push_updates(neighbors(pos)).push_updates(
            neighbors_except(pos.spec_offset_dir(Direction::UP), Direction::DOWN),
        )
    }

    /// The world after the scheduled tick of the torch in state `bs` at
    /// `pos`: the torch is lit as it should be, and if that changed it,
    /// updates are queued for what it reaches.
    pub open spec fn torch_ticked(self, pos: BlockPos, bs: BlockState) -> WorldModel {
        let next = RedstoneTorchBlock::spec_with_lit(bs, self.torch_should_output(pos, bs));
        if next != bs && self.block(pos) is Some {
            self.set_block(pos, next).torch_neighbors_updated(pos)
        } else {
            self
        }
    }

    /// The world after the update of the torch in state `bs` at `pos`: if
    /// it is not lit as it should be, a tick is scheduled.
    pub open spec fn torch_updated(self, pos: BlockPos, bs: BlockState) -> WorldModel {
        if RedstoneTorchState::spec_from(bs).lit != self.torch_should_output(pos, bs) {
            self.schedule_tick(pos, RedstoneTorchBlock::DELAY, 0)
        } else {
            self
        }
    }

    /// The world after a torch was put at `pos`: its neighbours look at
    /// their shapes, and updates are queued for the torch and for what it
    /// reaches.
    pub open spec fn torch_placed(self, pos: BlockPos) -> WorldModel {
        self.neighbors_shape_updated(pos, SHAPE_UPDATE_DEPTH as nat, 6).push_update(
            pos,
        ).torch_neighbors_updated(pos)
    }

    /// The world after a torch was taken from `pos`: its neighbours look
    /// at their shapes, and updates are queued for what it reached.
    pub open spec fn torch_destroyed(self, pos: BlockPos) -> WorldModel {
        self.neighbors_shape_updated(pos, SHAPE_UPDATE_DEPTH as nat, 6).torch_neighbors_updated(pos)
    }
}

impl RedstoneTorchBlock {
    /// Queues updates for what a torch at `pos` reaches.
    pub fn update_neighbors<R: RedstoneOverride>(world: &mut LocalWorld<R>, pos: BlockPos)
        requires
            old(world).wf(),
        ensures
            final(world).wf(),
            final(world).same_frame(old(world)),
            final(world)@ == old(world)@.torch_neighbors_updated(pos),
    {
        world.update_neighbors(pos);
        world.update_neighbors_except_for_direction(pos.offset_dir(Direction::UP), Direction::DOWN);
    }

    /// Whether the torch in state `blockstate` at `pos` should be lit.
    pub fn should_output<R: RedstoneOverride>(
        world: &LocalWorld<R>,
        pos: BlockPos,
        blockstate: BlockState,
    ) -> (b: bool)
        requires
            world.wf(),
            RedstoneTorchBlock::spec_is_redstone_torch(blockstate),
        ensures
            b == world@.torch_should_output(pos, blockstate),
    {
        let state = RedstoneTorchState::from(blockstate);
        let input = world.get_signal(pos.offset_dir(state.facing), state.facing.opposite());
        input == 0
    }

    /// What happens when a torch was put at `pos`.
    pub fn on_placed<R: RedstoneOverride>(world: &mut LocalWorld<R>, pos: BlockPos)
        requires
            old(world).wf(),
        ensures
            final(world).wf(),
            final(world).same_frame(old(world)),
            final(world)@ == old(world)@.torch_placed(pos),
    {
        world.update_neighbors_shape(pos);
        world.update_block(pos);
        RedstoneTorchBlock::update_neighbors(world, pos);
    }

    /// What happens when a torch was taken from `pos`.
    pub fn on_destroyed<R: RedstoneOverride>(world: &mut LocalWorld<R>, pos: BlockPos)
        requires
            old(world).wf(),
        ensures
            final(world).wf(),
            final(world).same_frame(old(world)),
            final(world)@ == old(world)@.torch_destroyed(pos),
    {
        world.update_neighbors_shape(pos);
        RedstoneTorchBlock::update_neighbors(world, pos);
    }

    /// The scheduled tick of the torch in state `blockstate` at `pos`.
    pub fn tick<R: RedstoneOverride>(
        world: &mut LocalWorld<R>,
        pos: BlockPos,
        blockstate: BlockState,
    )
        requires
            old(world).wf(),
            RedstoneTorchBlock::spec_is_redstone_torch(blockstate),
        ensures
            final(world).wf(),
            final(world).same_frame(old(world)),
            final(world)@ == old(world)@.torch_ticked(pos, blockstate),
    {
        let lit = RedstoneTorchBlock::should_output(world, pos, blockstate);
        let new_blockstate = RedstoneTorchBlock::with_lit(blockstate, lit);
        if new_blockstate != blockstate {
            if let Ok(_) = world.set_block_state(pos, new_blockstate) {
                RedstoneTorchBlock::update_neighbors(world, pos);
            }
        }
    }

    /// The update of the torch in state `blockstate` at `pos`.
    pub fn update<R: RedstoneOverride>(
        world: &mut LocalWorld<R>,
        pos: BlockPos,
        blockstate: BlockState,
    )
        requires
            old(world).wf(),
            RedstoneTorchBlock::spec_is_redstone_torch(blockstate),
        ensures
            final(world).wf(),
            final(world).same_frame(old(world)),
            final(world)@ == old(world)@.torch_updated(pos, blockstate),
    {
        let state = RedstoneTorchState::from(blockstate);
        if state.lit != RedstoneTorchBlock::should_output(world, pos, blockstate) {
            world.schedule_tick(pos, RedstoneTorchBlock::DELAY, 0);
        }
    }
}

} // verus!
