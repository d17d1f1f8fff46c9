//! The lever: a switch that powers its surroundings while it is on.

use crate::direction::{Direction, HorizontalDirection};
use crate::world::block::blocks::AttachFace;
use crate::world::block::{
    property_with_digit, BlockState, BoolProperty, EnumProperty, IndexedEnum, Property,
    SimpleBlockState, StateId,
};
use crate::pos::BlockPos;
use crate::world::world::{neighbors, neighbors_except, LocalWorld, RedstoneOverride, WorldModel};
use vstd::prelude::*;

verus! {

/// The lever block.
#[derive(Debug, Clone, Copy)]
pub struct LeverBlock;

/// A lever's state: `powered` in digit 1, `facing` in digit 2 and `face`
/// in digit 8 of its 24 states.
#[derive(Debug, Copy, Clone, Eq, PartialEq, Structural)]
pub struct LeverState(pub StateId);

impl SimpleBlockState for LeverState {
    open spec fn id(self) -> StateId {
        self.0
    }

    fn from_state_id(id: StateId) -> (s: Self) {
        LeverState(id)
    }

    fn state_id(self) -> (id: StateId) {
        self.0
    }

    fn set_state_id(&mut self, id: StateId) {
        self.0 = id;
    }
}

impl Property<2, 1> for LeverState {

}

impl BoolProperty<1> for LeverState {

}

impl Property<4, 2> for LeverState {

}

impl EnumProperty<HorizontalDirection, 4, 2> for LeverState {

}

impl Property<3, 8> for LeverState {

}

impl EnumProperty<AttachFace, 3, 8> for LeverState {

}

impl LeverState {
    pub open spec fn wf(self) -> bool {
        self.0.0 < LeverBlock::TOTAL_STATES
    }

    pub open spec fn spec_powered(self) -> bool {
        self.0.0 % 2 == 0
    }

    pub open spec fn spec_facing(self) -> HorizontalDirection {
        HorizontalDirection::spec_from_index((self.0.0 / 2 % 4) as u8)
    }

    pub open spec fn spec_face(self) -> AttachFace {
        AttachFace::spec_of_index((self.0.0 / 8 % 3) as u8)
    }

    pub open spec fn spec_set_powered(self, powered: bool) -> LeverState {
        LeverState(
            StateId(
                property_with_digit(self.0.0 as int, 2, 1, if powered { 0 } else { 1 }) as u16,
            ),
        )
    }

    pub open spec fn spec_set_facing(self, value: HorizontalDirection) -> LeverState {
        LeverState(
            StateId(property_with_digit(self.0.0 as int, 4, 2, value.spec_index() as int) as u16),
        )
    }

    pub open spec fn spec_set_face(self, value: AttachFace) -> LeverState {
        LeverState(
            StateId(
                property_with_digit(self.0.0 as int, 3, 8, value.spec_to_index() as int) as u16,
            ),
        )
    }

    pub open spec fn spec_block_state(self) -> BlockState {
        BlockState((LeverBlock::ID_BASE + self.0.0) as u16)
    }

    pub open spec fn spec_from(bs: BlockState) -> LeverState {
        LeverState(StateId((bs.0 - LeverBlock::ID_BASE) as u16))
    }

    pub fn powered(self) -> (v: bool)
        ensures
            v == self.spec_powered(),
    {
        <Self as BoolProperty<1>>::get(self)
    }

    pub fn set_powered(&mut self, powered: bool)
        requires
            old(self).wf(),
        ensures
            *final(self) == old(self).spec_set_powered(powered),
            final(self).wf(),
            final(self).spec_powered() == powered,
            final(self).spec_facing() == old(self).spec_facing(),
            final(self).spec_face() == old(self).spec_face(),
    {
        <Self as BoolProperty<1>>::set(self, powered);
    }

    pub fn facing(self) -> (v: HorizontalDirection)
        ensures
            v == self.spec_facing(),
    {
        <Self as EnumProperty<HorizontalDirection, 4, 2>>::get(self)
    }

    pub fn set_facing(&mut self, value: HorizontalDirection)
        requires
            old(self).wf(),
        ensures
            *final(self) == old(self).spec_set_facing(value),
            final(self).wf(),
            final(self).spec_powered() == old(self).spec_powered(),
            final(self).spec_facing() == value,
            final(self).spec_face() == old(self).spec_face(),
    {
        <Self as EnumProperty<HorizontalDirection, 4, 2>>::set(self, value)
    }

    pub fn face(self) -> (v: AttachFace)
        ensures
            v == self.spec_face(),
    {
        <Self as EnumProperty<AttachFace, 3, 8>>::get(self)
    }

    pub fn set_face(&mut self, value: AttachFace)
        requires
            old(self).wf(),
        ensures
            *final(self) == old(self).spec_set_face(value),
            final(self).wf(),
            final(self).spec_powered() == old(self).spec_powered(),
            final(self).spec_facing() == old(self).spec_facing(),
            final(self).spec_face() == value,
    {
        <Self as EnumProperty<AttachFace, 3, 8>>::set(self, value)
    }

    /// The global state that this lever state stands for.
    pub fn block_state(self) -> (bs: BlockState)
        requires
            self.wf(),
        ensures
            bs == self.spec_block_state(),
            LeverBlock::spec_is_lever(bs),
            LeverState::spec_from(bs) == self,
    {
        BlockState(LeverBlock::ID_BASE + self.0.0)
    }

    /// The lever state that a global state stands for.
    pub fn from(bs: BlockState) -> (s: LeverState)
        requires
            LeverBlock::spec_is_lever(bs),
        ensures
            s == LeverState::spec_from(bs),
            s.wf(),
            s.spec_block_state() == bs,
    {
        LeverState(StateId(bs.0 - LeverBlock::ID_BASE))
    }
}

impl LeverBlock {
    /// The first of the lever's states.
    pub const ID_BASE: u16 = 5802;

    /// How many states the lever has.
    pub const TOTAL_STATES: u16 = 24;

    /// The offset of the state that a lever has unless placement says
    /// otherwise: on a wall, facing north, off.
    pub const DEFAULT_STATE: u16 = 9;

    pub open spec fn spec_is_lever(bs: BlockState) -> bool {
        bs.spec_in_range(LeverBlock::ID_BASE, LeverBlock::TOTAL_STATES)
    }

    pub fn is_lever(bs: BlockState) -> (b: bool)
        ensures
            b == LeverBlock::spec_is_lever(bs),
    {
        bs.in_range(LeverBlock::ID_BASE, LeverBlock::TOTAL_STATES)
    }

    pub open spec fn spec_default_state() -> BlockState {
        BlockState((LeverBlock::ID_BASE + LeverBlock::DEFAULT_STATE) as u16)
    }

    pub fn default_state() -> (bs: BlockState)
        ensures
            bs == LeverBlock::spec_default_state(),
            LeverBlock::spec_is_lever(bs),
    {
        BlockState(LeverBlock::ID_BASE + LeverBlock::DEFAULT_STATE)
    }

    /// The direction from the lever to the block that carries it.
    pub open spec fn spec_facing_direction(state: LeverState) -> Direction {
        match state.spec_face() {
            AttachFace::FLOOR => Direction::DOWN,
            AttachFace::WALL => state.spec_facing().spec_direction().spec_opposite(),
            AttachFace::CEILING => Direction::UP,
        }
    }

    pub fn facing_direction(state: LeverState) -> (d: Direction)
        ensures
            d == LeverBlock::spec_facing_direction(state),
    {
        match state.face() {
            AttachFace::FLOOR => Direction::DOWN,
            AttachFace::WALL => match state.facing() {
                HorizontalDirection::NORTH => Direction::SOUTH,
                HorizontalDirection::SOUTH => Direction::NORTH,
                HorizontalDirection::WEST => Direction::EAST,
                HorizontalDirection::EAST => Direction::WEST,
            },
            AttachFace::CEILING => Direction::UP,
        }
    }

    /// The state of a lever placed against the face `face` of a block: on
    /// the floor for the top face, on the ceiling for the bottom face, on
    /// the wall and facing away from it for a side face.
    pub open spec fn spec_state_for_placement(face: Direction) -> BlockState {
        LeverState::spec_from(LeverBlock::spec_default_state()).spec_set_facing(
            match face.spec_horizontal() {
                Some(h) => h,
                None => HorizontalDirection::NORTH,
            },
        ).spec_set_face(
            match face {
                Direction::DOWN => AttachFace::CEILING,
                Direction::UP => AttachFace::FLOOR,
                _ => AttachFace::WALL,
            },
        ).spec_block_state()
    }

    pub fn get_state_for_placement(face: Direction) -> (bs: BlockState)
        ensures
            bs == LeverBlock::spec_state_for_placement(face),
            LeverBlock::spec_is_lever(bs),
            !LeverState::spec_from(bs).spec_powered(),
            LeverState::spec_from(bs).spec_face() == (match face {
                Direction::DOWN => AttachFace::CEILING,
                Direction::UP => AttachFace::FLOOR,
                _ => AttachFace::WALL,
            }),
            face.spec_horizontal() matches Some(h) ==> LeverState::spec_from(bs).spec_facing()
                == h,
            face.spec_horizontal() is None ==> LeverState::spec_from(bs).spec_facing()
                == HorizontalDirection::NORTH,
    {
        let mut state = LeverState::from(LeverBlock::default_state());
        state.set_facing(
            match face {
                Direction::NORTH => HorizontalDirection::NORTH,
                Direction::SOUTH => HorizontalDirection::SOUTH,
                Direction::WEST => HorizontalDirection::WEST,
                Direction::EAST => HorizontalDirection::EAST,
                _ => HorizontalDirection::NORTH,
            },
        );
        state.set_face(
            match face {
                Direction::DOWN => AttachFace::CEILING,
                Direction::UP => AttachFace::FLOOR,
                _ => AttachFace::WALL,
            },
        );
        state.block_state()
    }

    /// The state after the lever is flipped.
    pub open spec fn spec_toggled(bs: BlockState) -> BlockState {
        let state = LeverState::spec_from(bs);
        state.spec_set_powered(!state.spec_powered()).spec_block_state()
    }

    pub fn toggled(bs: BlockState) -> (next: BlockState)
        requires
            LeverBlock::spec_is_lever(bs),
        ensures
            next == LeverBlock::spec_toggled(bs),
            LeverBlock::spec_is_lever(next),
            LeverState::spec_from(next).spec_powered() == !LeverState::spec_from(bs).spec_powered(),
            LeverState::spec_from(next).spec_facing() == LeverState::spec_from(bs).spec_facing(),
            LeverState::spec_from(next).spec_face() == LeverState::spec_from(bs).spec_face(),
    {
        let mut state = LeverState::from(bs);
        state.set_powered(!state.powered());
        state.block_state()
    }

    /// The signal of a lever: 15 in every direction while it is on.
    pub open spec fn spec_signal(bs: BlockState) -> u8 {
        if LeverState::spec_from(bs).spec_powered() {
            15
        } else {
            0
        }
    }

    pub fn get_signal(bs: BlockState, direction: Direction) -> (s: u8)
        requires
            LeverBlock::spec_is_lever(bs),
        ensures
            s == LeverBlock::spec_signal(bs),
    {
        if LeverState::from(bs).powered() {
            15
        } else {
            0
        }
    }

    /// The strong signal of a lever: 15 toward the block that carries it
    /// while it is on.
    pub open spec fn spec_strong_signal(bs: BlockState, direction: Direction) -> u8 {
        let state = LeverState::spec_from(bs);
        if state.spec_powered() && direction == LeverBlock::spec_facing_direction(state) {
            15
        } else {
            0
        }
    }

    pub fn get_strong_signal(bs: BlockState, direction: Direction) -> (s: u8)
        requires
            LeverBlock::spec_is_lever(bs),
        ensures
            s == LeverBlock::spec_strong_signal(bs, direction),
    {
        let state = LeverState::from(bs);
        if state.powered() && direction == LeverBlock::facing_direction(state) {
            15
        } else {
            0
        }
    }
}

impl WorldModel {
    /// The world after a player's click on the lever in state `bs` at
    /// `pos`: the lever is flipped, and updates are queued for its
    /// neighbours and for the other neighbours of the block that carries
    /// it.
    pub open spec fn lever_used(self, pos: BlockPos, bs: BlockState) -> WorldModel {
        let next = LeverBlock::spec_toggled(bs);
        let direction = LeverBlock::spec_facing_direction(LeverState::spec_from(next));
        self.set_block(pos, next).push_updates(neighbors(pos)).push_updates(
            neighbors_except(pos.spec_offset_dir(direction), direction.spec_opposite()),
        )
    }
}

impl LeverBlock {
    /// What happens when a player clicks on the lever in state
    /// `blockstate` at `pos` with an empty hand.
    pub fn on_use_without_item<R: RedstoneOverride>(
        world: &mut LocalWorld<R>,
        pos: BlockPos,
        blockstate: BlockState,
    )
        requires
            old(world).wf(),
            LeverBlock::spec_is_lever(blockstate),
        ensures
            final(world).wf(),
            final(world).same_frame(old(world)),
            final(world)@ == old(world)@.lever_used(pos, blockstate),
    {
        let next = LeverBlock::toggled(blockstate);
        let _ = world.set_block_state(pos, next);
        world.update_neighbors(pos);
        let direction = LeverBlock::facing_direction(LeverState::from(next));
        world.update_neighbors_except_for_direction(
            pos.offset_dir(direction),
            direction.opposite(),
        );
    }
}

} // verus!
