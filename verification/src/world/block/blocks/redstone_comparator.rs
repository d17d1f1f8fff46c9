//! The comparator: compares or subtracts the signal behind it and the
//! signals at its sides.

use crate::direction::{Direction, HorizontalDirection};
use crate::world::block::{
    property_with_digit, BlockState, BoolProperty, EnumProperty, IndexedEnum, Property,
    SimpleBlockState, StateId,
};
use crate::pos::BlockPos;
use crate::world::block::blocks::redstone_block::RedstoneBlock;
use crate::world::block::blocks::redstone_repeater::RedstoneRepeaterBlock;
use crate::world::block::blocks::redstone_wire::RedstoneWireBlock;
use crate::world::signal::max_signal;
use crate::world::world::{neighbors, neighbors_except, LocalWorld, RedstoneOverride, WorldModel};
use vstd::prelude::*;

verus! {

/// The comparator block.
#[derive(Debug, Clone, Copy)]
pub struct RedstoneComparatorBlock;

/// What a comparator does with its side input.
#[derive(Debug, Eq, PartialEq, Copy, Clone, Hash, Structural)]
pub enum Mode {
    COMPARE,
    SUBTRACT,
}

impl IndexedEnum for Mode {
    open spec fn spec_variant_count() -> u8 {
        2
    }

    open spec fn spec_to_index(self) -> u8 {
        match self {
            Mode::COMPARE => 0,
            Mode::SUBTRACT => 1,
        }
    }

    open spec fn spec_of_index(index: u8) -> Self {
        if index == 0 {
            Mode::COMPARE
        } else {
            Mode::SUBTRACT
        }
    }

    fn variant_count() -> (n: u8) {
        2
    }

    fn to_index(self) -> (index: u8) {
        match self {
            Mode::COMPARE => 0,
            Mode::SUBTRACT => 1,
        }
    }

    fn of_index(index: u8) -> (v: Self) {
        match index {
            0 => Mode::COMPARE,
            _ => Mode::SUBTRACT,
        }
    }
}

/// A comparator's state: `powered` in digit 1, `mode` in digit 2 and
/// `facing` in digit 4 of its 16 states.
#[derive(Debug, Copy, Clone, Eq, PartialEq, Structural)]
pub struct RedstoneComparatorState(pub StateId);

impl SimpleBlockState for RedstoneComparatorState {
    open spec fn id(self) -> StateId {
        self.0
    }

    fn from_state_id(id: StateId) -> (s: Self) {
        RedstoneComparatorState(id)
    }

    fn state_id(self) -> (id: StateId) {
        self.0
    }

    fn set_state_id(&mut self, id: StateId) {
        self.0 = id;
    }
}

impl Property<2, 1> for RedstoneComparatorState {

}

impl BoolProperty<1> for RedstoneComparatorState {

}

impl Property<2, 2> for RedstoneComparatorState {

}

impl EnumProperty<Mode, 2, 2> for RedstoneComparatorState {

}

impl Property<4, 4> for RedstoneComparatorState {

}

impl EnumProperty<HorizontalDirection, 4, 4> for RedstoneComparatorState {

}

impl RedstoneComparatorState {
    pub open spec fn wf(self) -> bool {
        self.0.0 < RedstoneComparatorBlock::TOTAL_STATES
    }

    pub open spec fn spec_powered(self) -> bool {
        self.0.0 % 2 == 0
    }

    pub open spec fn spec_mode(self) -> Mode {
        Mode::spec_of_index((self.0.0 / 2 % 2) as u8)
    }

    pub open spec fn spec_facing(self) -> HorizontalDirection {
        HorizontalDirection::spec_from_index((self.0.0 / 4 % 4) as u8)
    }

    pub open spec fn spec_set_powered(self, value: bool) -> RedstoneComparatorState {
        RedstoneComparatorState(
            StateId(property_with_digit(self.0.0 as int, 2, 1, if value { 0 } else { 1 }) as u16),
        )
    }

    pub open spec fn spec_set_mode(self, value: Mode) -> RedstoneComparatorState {
        RedstoneComparatorState(
            StateId(
                property_with_digit(self.0.0 as int, 2, 2, value.spec_to_index() as int) as u16,
            ),
        )
    }

    pub open spec fn spec_set_facing(self, value: HorizontalDirection) -> RedstoneComparatorState {
        RedstoneComparatorState(
            StateId(property_with_digit(self.0.0 as int, 4, 4, value.spec_index() as int) as u16),
        )
    }

    pub open spec fn spec_block_state(self) -> BlockState {
        BlockState((RedstoneComparatorBlock::ID_BASE + self.0.0) as u16)
    }

    pub open spec fn spec_from(bs: BlockState) -> RedstoneComparatorState {
        RedstoneComparatorState(StateId((bs.0 - RedstoneComparatorBlock::ID_BASE) as u16))
    }

    pub fn powered(self) -> (v: bool)
        ensures
            v == self.spec_powered(),
    {
        <Self as BoolProperty<1>>::get(self)
    }

    pub fn set_powered(&mut self, value: bool)
        requires
            old(self).wf(),
        ensures
            *final(self) == old(self).spec_set_powered(value),
            final(self).wf(),
            final(self).spec_powered() == value,
            final(self).spec_mode() == old(self).spec_mode(),
            final(self).spec_facing() == old(self).spec_facing(),
    {
        <Self as BoolProperty<1>>::set(self, value);
    }

    pub fn mode(self) -> (v: Mode)
        ensures
            v == self.spec_mode(),
    {
        <Self as EnumProperty<Mode, 2, 2>>::get(self)
    }

    pub fn set_mode(&mut self, value: Mode)
        requires
            old(self).wf(),
        ensures
            *final(self) == old(self).spec_set_mode(value),
            final(self).wf(),
            final(self).spec_powered() == old(self).spec_powered(),
            final(self).spec_mode() == value,
            final(self).spec_facing() == old(self).spec_facing(),
    {
        <Self as EnumProperty<Mode, 2, 2>>::set(self, value);
    }

    pub fn facing(self) -> (v: HorizontalDirection)
        ensures
            v == self.spec_facing(),
    {
        <Self as EnumProperty<HorizontalDirection, 4, 4>>::get(self)
    }

    pub fn set_facing(&mut self, value: HorizontalDirection)
        requires
            old(self).wf(),
        ensures
            *final(self) == old(self).spec_set_facing(value),
            final(self).wf(),
            final(self).spec_powered() == old(self).spec_powered(),
            final(self).spec_mode() == old(self).spec_mode(),
            final(self).spec_facing() == value,
    {
        <Self as EnumProperty<HorizontalDirection, 4, 4>>::set(self, value);
    }

    pub fn block_state(self) -> (bs: BlockState)
        requires
            self.wf(),
        ensures
            bs == self.spec_block_state(),
            RedstoneComparatorBlock::spec_is_redstone_comparator(bs),
            RedstoneComparatorState::spec_from(bs) == self,
    {
        BlockState(RedstoneComparatorBlock::ID_BASE + self.0.0)
    }

    pub fn from(bs: BlockState) -> (s: RedstoneComparatorState)
        requires
            RedstoneComparatorBlock::spec_is_redstone_comparator(bs),
        ensures
            s == RedstoneComparatorState::spec_from(bs),
            s.wf(),
            s.spec_block_state() == bs,
    {
        RedstoneComparatorState(StateId(bs.0 - RedstoneComparatorBlock::ID_BASE))
    }
}

impl RedstoneComparatorBlock {
    /// The first of the comparator's states.
    pub const ID_BASE: u16 = 9984;

    /// How many states the comparator has.
    pub const TOTAL_STATES: u16 = 16;

    /// The offset of the state that a comparator has unless placement
    /// says otherwise: facing north, comparing, off.
    pub const DEFAULT_STATE: u16 = 1;

    /// How many ticks pass between a change of input and the new output.
    pub const DELAY: u8 = 2;

    pub open spec fn spec_is_redstone_comparator(bs: BlockState) -> bool {
        bs.spec_in_range(RedstoneComparatorBlock::ID_BASE, RedstoneComparatorBlock::TOTAL_STATES)
    }

    pub fn is_redstone_comparator(blockstate: BlockState) -> (b: bool)
        ensures
            b == RedstoneComparatorBlock::spec_is_redstone_comparator(blockstate),
    {
        blockstate.in_range(
            RedstoneComparatorBlock::ID_BASE,
            RedstoneComparatorBlock::TOTAL_STATES,
        )
    }

    pub open spec fn spec_default_state() -> BlockState {
        BlockState(
            (RedstoneComparatorBlock::ID_BASE + RedstoneComparatorBlock::DEFAULT_STATE) as u16,
        )
    }

    pub fn default_state() -> (bs: BlockState)
        ensures
            bs == RedstoneComparatorBlock::spec_default_state(),
            RedstoneComparatorBlock::spec_is_redstone_comparator(bs),
    {
        BlockState(RedstoneComparatorBlock::ID_BASE + RedstoneComparatorBlock::DEFAULT_STATE)
    }

    /// The state of a comparator placed by a player whose cursor leans
    /// toward `toward`: its back faces that way.
    pub open spec fn spec_state_for_placement(toward: HorizontalDirection) -> BlockState {
        RedstoneComparatorState::spec_from(
            RedstoneComparatorBlock::spec_default_state(),
        ).spec_set_facing(toward.spec_opposite()).spec_block_state()
    }

    pub fn get_state_for_placement(toward: HorizontalDirection) -> (bs: BlockState)
        ensures
            bs == RedstoneComparatorBlock::spec_state_for_placement(toward),
            RedstoneComparatorBlock::spec_is_redstone_comparator(bs),
            RedstoneComparatorState::spec_from(bs).spec_facing() == toward.spec_opposite(),
            RedstoneComparatorState::spec_from(bs).spec_mode() == Mode::COMPARE,
            !RedstoneComparatorState::spec_from(bs).spec_powered(),
    {
        let mut state = RedstoneComparatorState::from(RedstoneComparatorBlock::default_state());
        state.set_facing(toward.opposite());
        state.block_state()
    }

    /// The state after a player's click: the other mode.
    pub open spec fn spec_toggled(bs: BlockState) -> BlockState {
        let state = RedstoneComparatorState::spec_from(bs);
        state.spec_set_mode(
            if state.spec_mode() == Mode::COMPARE {
                Mode::SUBTRACT
            } else {
                Mode::COMPARE
            },
        ).spec_block_state()
    }

    pub fn toggled(bs: BlockState) -> (next: BlockState)
        requires
            RedstoneComparatorBlock::spec_is_redstone_comparator(bs),
        ensures
            next == RedstoneComparatorBlock::spec_toggled(bs),
            RedstoneComparatorBlock::spec_is_redstone_comparator(next),
            RedstoneComparatorState::spec_from(next).spec_mode() != RedstoneComparatorState::spec_from(
                bs,
            ).spec_mode(),
            RedstoneComparatorState::spec_from(next).spec_facing()
                == RedstoneComparatorState::spec_from(bs).spec_facing(),
            RedstoneComparatorState::spec_from(next).spec_powered()
                == RedstoneComparatorState::spec_from(bs).spec_powered(),
    {
        let mut state = RedstoneComparatorState::from(bs);
        let mode = state.mode();
        state.set_mode(
            match mode {
                Mode::COMPARE => Mode::SUBTRACT,
                Mode::SUBTRACT => Mode::COMPARE,
            },
        );
        state.block_state()
    }

    /// The comparator state `bs` with `powered` set as given.
    pub open spec fn spec_with_powered(bs: BlockState, powered: bool) -> BlockState {
        RedstoneComparatorState::spec_from(bs).spec_set_powered(powered).spec_block_state()
    }

    pub fn with_powered(bs: BlockState, powered: bool) -> (next: BlockState)
        requires
            RedstoneComparatorBlock::spec_is_redstone_comparator(bs),
        ensures
            next == RedstoneComparatorBlock::spec_with_powered(bs, powered),
            RedstoneComparatorBlock::spec_is_redstone_comparator(next),
            RedstoneComparatorState::spec_from(next).spec_powered() == powered,
            RedstoneComparatorState::spec_from(next).spec_mode()
                == RedstoneComparatorState::spec_from(bs).spec_mode(),
            RedstoneComparatorState::spec_from(next).spec_facing()
                == RedstoneComparatorState::spec_from(bs).spec_facing(),
    {
        let mut state = RedstoneComparatorState::from(bs);
        state.set_powered(powered);
        state.block_state()
    }

    /// What a comparator puts out: when comparing, its input if that is
    /// at least the side input and nothing otherwise; when subtracting,
    /// the input less the side input, and nothing below zero.
    pub open spec fn spec_output(mode: Mode, input: u8, side_input: u8) -> u8 {
        match mode {
            Mode::COMPARE => if input >= side_input {
                input
            } else {
                0
            },
            Mode::SUBTRACT => if input >= side_input {
                (input - side_input) as u8
            } else {
                0
            },
        }
    }

    pub fn output(mode: Mode, input: u8, side_input: u8) -> (out: u8)
        ensures
            out == RedstoneComparatorBlock::spec_output(mode, input, side_input),
            out <= input,
    {
        match mode {
            Mode::COMPARE => if input >= side_input {
                input
            } else {
                0
            },
            Mode::SUBTRACT => input.saturating_sub(side_input),
        }
    }

    /// The signal of a comparator: its stored output, out of its front.
    pub open spec fn spec_signal(bs: BlockState, direction: Direction, stored: u8) -> u8 {
        let state = RedstoneComparatorState::spec_from(bs);
        if state.spec_facing().spec_direction().spec_opposite() == direction {
            stored
        } else {
            0
        }
    }

    pub fn get_signal(bs: BlockState, direction: Direction, stored: u8) -> (s: u8)
        requires
            RedstoneComparatorBlock::spec_is_redstone_comparator(bs),
        ensures
            s == RedstoneComparatorBlock::spec_signal(bs, direction, stored),
    {
        let state = RedstoneComparatorState::from(bs);
        if state.facing().direction().opposite() == direction {
            stored
        } else {
            0
        }
    }
}

impl WorldModel {
    /// The signal that arrives at a comparator at `pos` from its
    /// neighbour in a direction.
    pub open spec fn comparator_input(self, pos: BlockPos, direction: HorizontalDirection) -> u8 {
        let d = direction.spec_direction();
        self.signal(pos.spec_offset_dir(d), d.spec_opposite())
    }

    /// The signal that arrives at the side of a comparator at `pos` from
    /// its neighbour in a direction: that of a wire, a comparator, a
    /// repeater or a block of redstone, and nothing from any other block.
    pub open spec fn comparator_side_input(self, pos: BlockPos, direction: HorizontalDirection) -> u8 {
        let d = direction.spec_direction();
        let at = pos.spec_offset_dir(d);
        match self.block(at) {
            Some(bs) => if RedstoneWireBlock::spec_is_redstone_wire(bs) {
                RedstoneWireBlock::spec_signal(bs, d.spec_opposite())
            } else if RedstoneComparatorBlock::spec_is_redstone_comparator(bs) {
                RedstoneComparatorBlock::spec_signal(bs, d.spec_opposite(), self.output(at))
            } else if RedstoneRepeaterBlock::spec_is_redstone_repeater(bs) {
                RedstoneRepeaterBlock::spec_signal(bs, d.spec_opposite())
            } else if RedstoneBlock::spec_is_redstone_block(bs) {
                15
            } else {
                0
            },
            None => 0,
        }
    }

    /// What the comparator in state `bs` at `pos` should put out.
    pub open spec fn comparator_output(self, pos: BlockPos, bs: BlockState) -> u8 {
        let state = RedstoneComparatorState::spec_from(bs);
        RedstoneComparatorBlock::spec_output(
            state.spec_mode(),
            self.comparator_input(pos, state.spec_facing()),
            max_signal(
                self.comparator_side_input(pos, state.spec_facing().spec_cw()),
                self.comparator_side_input(pos, state.spec_facing().spec_ccw()),
            ),
        )
    }

    /// The world after the scheduled tick of the comparator in state `bs`
    /// at `pos`: it is powered if it puts anything out, its output is
    /// stored, and if the output changed, updates are queued for its
    /// neighbours and for the other neighbours of the block in front of
    /// it.
    pub open spec fn comparator_ticked(self, pos: BlockPos, bs: BlockState) -> WorldModel {
        let output = self.comparator_output(pos, bs);
        let next = RedstoneComparatorBlock::spec_with_powered(bs, output > 0);
        let stored = self.set_block(pos, next).set_output(pos, output);
        if self.outputs.contains_key(pos) && self.outputs[pos] == output {
            stored
        } else {
            let front = RedstoneComparatorState::spec_from(
                bs,
            ).spec_facing().spec_direction().spec_opposite();
            stored.push_updates(neighbors(pos)).push_updates(
                neighbors_except(pos.spec_offset_dir(front), front.spec_opposite()),
            )
        }
    }

    /// The world after the update of the comparator in state `bs` at
    /// `pos`: if what it should put out is not what is stored, a tick is
    /// scheduled.
    pub open spec fn comparator_updated(self, pos: BlockPos, bs: BlockState) -> WorldModel {
        if self.comparator_output(pos, bs) != self.output(pos) {
            self.schedule_tick(pos, RedstoneComparatorBlock::DELAY, 0)
        } else {
            self
        }
    }

    /// The world after a player's click on the comparator in state `bs`
    /// at `pos`: it takes the other mode, a tick is scheduled and updates
    /// are queued for its neighbours.
    pub open spec fn comparator_used(self, pos: BlockPos, bs: BlockState) -> WorldModel {
        if self.block(pos) is Some {
            self.set_block(pos, RedstoneComparatorBlock::spec_toggled(bs)).schedule_tick(
                pos,
                RedstoneComparatorBlock::DELAY,
                0,
            ).push_updates(neighbors(pos))
        } else {
            self
        }
    }
}

impl RedstoneComparatorBlock {
    /// The signal that arrives at a comparator at `pos` from its
    /// neighbour in a direction.
    pub fn get_input<R: RedstoneOverride>(
        world: &LocalWorld<R>,
        pos: BlockPos,
        direction: HorizontalDirection,
    ) -> (s: u8)
        requires
            world.wf(),
        ensures
            s == world@.comparator_input(pos, direction),
    {
        let d = direction.direction();
        world.get_signal(pos.offset_dir(d), d.opposite())
    }

    /// The signal that arrives at the side of a comparator at `pos` from
    /// its neighbour in a direction.
    pub fn get_side_input<R: RedstoneOverride>(
        world: &LocalWorld<R>,
        pos: BlockPos,
        direction: HorizontalDirection,
    ) -> (s: u8)
        requires
            world.wf(),
        ensures
            s == world@.comparator_side_input(pos, direction),
    {
        let d = direction.direction();
        let at = pos.offset_dir(d);
        match world.get_block_state(at) {
            Ok(blockstate) => if RedstoneWireBlock::is_redstone_wire(blockstate) {
                RedstoneWireBlock::get_signal(blockstate, d.opposite())
            } else if RedstoneComparatorBlock::is_redstone_comparator(blockstate) {
                RedstoneComparatorBlock::get_signal(
                    blockstate,
                    d.opposite(),
                    world.comparator_output(at),
                )
            } else if RedstoneRepeaterBlock::is_redstone_repeater(blockstate) {
                RedstoneRepeaterBlock::get_signal(blockstate, d.opposite())
            } else if RedstoneBlock::is_redstone_block(blockstate) {
                15
            } else {
                0
            },
            Err(_) => 0,
        }
    }

    /// What the comparator in state `blockstate` at `pos` should put out.
    pub fn calculate_output<R: RedstoneOverride>(
        world: &LocalWorld<R>,
        pos: BlockPos,
        blockstate: BlockState,
    ) -> (out: u8)
        requires
            world.wf(),
            RedstoneComparatorBlock::spec_is_redstone_comparator(blockstate),
        ensures
            out == world@.comparator_output(pos, blockstate),
    {
        let state = RedstoneComparatorState::from(blockstate);
        let input = RedstoneComparatorBlock::get_input(world, pos, state.facing());
        let left = RedstoneComparatorBlock::get_side_input(world, pos, state.facing().cw());
        let right = RedstoneComparatorBlock::get_side_input(world, pos, state.facing().ccw());
        let side_input = if left >= right {
            left
        } else {
            right
        };
        RedstoneComparatorBlock::output(state.mode(), input, side_input)
    }

    /// What happens when a comparator was taken from `pos`: its stored
    /// output is forgotten.
    pub fn on_destroyed<R: RedstoneOverride>(world: &mut LocalWorld<R>, pos: BlockPos)
        requires
            old(world).wf(),
        ensures
            final(world).wf(),
            final(world).same_frame(old(world)),
            final(world)@ == old(world)@.remove_output(pos),
    {
        world.clear_comparator_output(pos);
    }

    /// What happens when a player clicks on the comparator with an empty
    /// hand.
    pub fn on_use_without_item<R: RedstoneOverride>(
        world: &mut LocalWorld<R>,
        pos: BlockPos,
        blockstate: BlockState,
    )
        requires
            old(world).wf(),
            RedstoneComparatorBlock::spec_is_redstone_comparator(blockstate),
        ensures
            final(world).wf(),
            final(world).same_frame(old(world)),
            final(world)@ == old(world)@.comparator_used(pos, blockstate),
    {
        let next = RedstoneComparatorBlock::toggled(blockstate);
        if let Ok(_) = world.set_block_state(pos, next) {
            world.schedule_tick(pos, RedstoneComparatorBlock::DELAY, 0);
            world.update_neighbors(pos);
        }
    }

    /// The scheduled tick of the comparator in state `blockstate` at
    /// `pos`.
    pub fn tick<R: RedstoneOverride>(
        world: &mut LocalWorld<R>,
        pos: BlockPos,
        blockstate: BlockState,
    )
        requires
            old(world).wf(),
            RedstoneComparatorBlock::spec_is_redstone_comparator(blockstate),
        ensures
            final(world).wf(),
            final(world).same_frame(old(world)),
            final(world)@ == old(world)@.comparator_ticked(pos, blockstate),
    {
        let state = RedstoneComparatorState::from(blockstate);
        let output = RedstoneComparatorBlock::calculate_output(world, pos, blockstate);
        let next = RedstoneComparatorBlock::with_powered(blockstate, output > 0);
        let _ = world.set_block_state(pos, next);
        let old_output = world.store_comparator_output(pos, output);
        let same = match old_output {
            Some(v) => v == output,
            None => false,
        };
        if !same {
            world.update_neighbors(pos);
            let front = state.facing().direction().opposite();
            world.update_neighbors_except_for_direction(pos.offset_dir(front), front.opposite());
        }
    }

    /// The update of the comparator in state `blockstate` at `pos`.
    pub fn update<R: RedstoneOverride>(
        world: &mut LocalWorld<R>,
        pos: BlockPos,
        blockstate: BlockState,
    )
        requires
            old(world).wf(),
            RedstoneComparatorBlock::spec_is_redstone_comparator(blockstate),
        ensures
            final(world).wf(),
            final(world).same_frame(old(world)),
            final(world)@ == old(world)@.comparator_updated(pos, blockstate),
    {
        if RedstoneComparatorBlock::calculate_output(world, pos, blockstate)
            != world.comparator_output(pos) {
            world.schedule_tick(pos, RedstoneComparatorBlock::DELAY, 0);
        }
    }
}

} // verus!
