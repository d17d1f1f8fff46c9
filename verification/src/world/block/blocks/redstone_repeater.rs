//! The repeater: passes a signal on from back to front after a delay.

use crate::direction::{Direction, HorizontalDirection};
use crate::world::block::{
    property_with_digit, BlockState, BoolProperty, EnumProperty, IntProperty, Property,
    SimpleBlockState, StateId,
};
use crate::pos::BlockPos;
use crate::world::scheduler::{is_pending, lemma_scheduled_tick, valid_schedule};
use crate::world::tick::lemma_scheduled_tick_waits;
use crate::world::world::{
    neighbors, neighbors_except, wrap_tick, LocalWorld, RedstoneOverride, WorldModel,
};
use vstd::prelude::*;

verus! {

/// The repeater block.
#[derive(Debug, Clone, Copy)]
pub struct RedstoneRepeaterBlock;

/// A repeater's state: `powered` in digit 1, `locked` in digit 2, `facing`
/// in digit 4 and `delay`, from 1 to 4, in digit 16 of its 64 states.
#[derive(Debug, Copy, Clone, Eq, PartialEq, Structural)]
pub struct RedstoneRepeaterState(pub StateId);

impl SimpleBlockState for RedstoneRepeaterState {
    open spec fn id(self) -> StateId {
        self.0
    }

    fn from_state_id(id: StateId) -> (s: Self) {
        RedstoneRepeaterState(id)
    }

    fn state_id(self) -> (id: StateId) {
        self.0
    }

    fn set_state_id(&mut self, id: StateId) {
        self.0 = id;
    }
}

impl Property<2, 1> for RedstoneRepeaterState {

}

impl BoolProperty<1> for RedstoneRepeaterState {

}

impl Property<2, 2> for RedstoneRepeaterState {

}

impl BoolProperty<2> for RedstoneRepeaterState {

}

impl Property<4, 4> for RedstoneRepeaterState {

}

impl EnumProperty<HorizontalDirection, 4, 4> for RedstoneRepeaterState {

}

impl Property<4, 16> for RedstoneRepeaterState {

}

impl IntProperty<1, 4, 16> for RedstoneRepeaterState {

}

impl RedstoneRepeaterState {
    pub open spec fn wf(self) -> bool {
        self.0.0 < RedstoneRepeaterBlock::TOTAL_STATES
    }

    pub open spec fn spec_powered(self) -> bool {
        self.0.0 % 2 == 0
    }

    pub open spec fn spec_locked(self) -> bool {
        self.0.0 / 2 % 2 == 0
    }

    pub open spec fn spec_facing(self) -> HorizontalDirection {
        HorizontalDirection::spec_from_index((self.0.0 / 4 % 4) as u8)
    }

    pub open spec fn spec_delay(self) -> i8 {
        (self.0.0 / 16 % 4 + 1) as i8
    }

    pub open spec fn spec_set_powered(self, value: bool) -> RedstoneRepeaterState {
        RedstoneRepeaterState(
            StateId(property_with_digit(self.0.0 as int, 2, 1, if value { 0 } else { 1 }) as u16),
        )
    }

    pub open spec fn spec_set_locked(self, value: bool) -> RedstoneRepeaterState {
        RedstoneRepeaterState(
            StateId(property_with_digit(self.0.0 as int, 2, 2, if value { 0 } else { 1 }) as u16),
        )
    }

    pub open spec fn spec_set_facing(self, value: HorizontalDirection) -> RedstoneRepeaterState {
        RedstoneRepeaterState(
            StateId(property_with_digit(self.0.0 as int, 4, 4, value.spec_index() as int) as u16),
        )
    }

    pub open spec fn spec_set_delay(self, value: i8) -> RedstoneRepeaterState {
        RedstoneRepeaterState(
            StateId(property_with_digit(self.0.0 as int, 4, 16, value - 1) as u16),
        )
    }

    pub open spec fn spec_block_state(self) -> BlockState {
        BlockState((RedstoneRepeaterBlock::ID_BASE + self.0.0) as u16)
    }

    pub open spec fn spec_from(bs: BlockState) -> RedstoneRepeaterState {
        RedstoneRepeaterState(StateId((bs.0 - RedstoneRepeaterBlock::ID_BASE) as u16))
    }

    pub fn powered(self) -> (v: bool)
        ensures
            v == self.spec_powered(),
    {
        <Self as BoolProperty<1>>::get(self)
    }

    pub fn set_powered(&mut self, value: bool)
        requires
            old(self).wf(),
        ensures
            *final(self) == old(self).spec_set_powered(value),
            final(self).wf(),
            final(self).spec_powered() == value,
            final(self).spec_locked() == old(self).spec_locked(),
            final(self).spec_facing() == old(self).spec_facing(),
            final(self).spec_delay() == old(self).spec_delay(),
    {
        <Self as BoolProperty<1>>::set(self, value);
    }

    pub fn locked(self) -> (v: bool)
        ensures
            v == self.spec_locked(),
    {
        <Self as BoolProperty<2>>::get(self)
    }

    pub fn set_locked(&mut self, value: bool)
        requires
            old(self).wf(),
        ensures
            *final(self) == old(self).spec_set_locked(value),
            final(self).wf(),
            final(self).spec_powered() == old(self).spec_powered(),
            final(self).spec_locked() == value,
            final(self).spec_facing() == old(self).spec_facing(),
            final(self).spec_delay() == old(self).spec_delay(),
    {
        <Self as BoolProperty<2>>::set(self, value);
    }

    pub fn facing(self) -> (v: HorizontalDirection)
        ensures
            v == self.spec_facing(),
    {
        <Self as EnumProperty<HorizontalDirection, 4, 4>>::get(self)
    }

    pub fn set_facing(&mut self, value: HorizontalDirection)
        requires
            old(self).wf(),
        ensures
            *final(self) == old(self).spec_set_facing(value),
            final(self).wf(),
            final(self).spec_powered() == old(self).spec_powered(),
            final(self).spec_locked() == old(self).spec_locked(),
            final(self).spec_facing() == value,
            final(self).spec_delay() == old(self).spec_delay(),
    {
        <Self as EnumProperty<HorizontalDirection, 4, 4>>::set(self, value)
    }

    pub fn delay(self) -> (v: i8)
        ensures
            v == self.spec_delay(),
            1 <= v <= 4,
    {
        <Self as IntProperty<1, 4, 16>>::get(self)
    }

    pub fn set_delay(&mut self, value: i8)
        requires
            old(self).wf(),
            1 <= value <= 4,
        ensures
            *final(self) == old(self).spec_set_delay(value),
            final(self).wf(),
            final(self).spec_powered() == old(self).spec_powered(),
            final(self).spec_locked() == old(self).spec_locked(),
            final(self).spec_facing() == old(self).spec_facing(),
            final(self).spec_delay() == value,
    {
        <Self as IntProperty<1, 4, 16>>::set(self, value)
    }

    pub fn block_state(self) -> (bs: BlockState)
        requires
            self.wf(),
        ensures
            bs == self.spec_block_state(),
            RedstoneRepeaterBlock::spec_is_redstone_repeater(bs),
            RedstoneRepeaterState::spec_from(bs) == self,
    {
        BlockState(RedstoneRepeaterBlock::ID_BASE + self.0.0)
    }

    pub fn from(bs: BlockState) -> (s: RedstoneRepeaterState)
        requires
            RedstoneRepeaterBlock::spec_is_redstone_repeater(bs),
        ensures
            s == RedstoneRepeaterState::spec_from(bs),
            s.wf(),
            s.spec_block_state() == bs,
    {
        RedstoneRepeaterState(StateId(bs.0 - RedstoneRepeaterBlock::ID_BASE))
    }
}

impl RedstoneRepeaterBlock {
    /// The first of the repeater's states.
    pub const ID_BASE: u16 = 6060;

    /// How many states the repeater has.
    pub const TOTAL_STATES: u16 = 64;

    /// The offset of the state that a repeater has unless placement says
    /// otherwise: delay 1, facing north, unlocked, off.
    pub const DEFAULT_STATE: u16 = 3;

    pub open spec fn spec_is_redstone_repeater(bs: BlockState) -> bool {
        bs.spec_in_range(RedstoneRepeaterBlock::ID_BASE, RedstoneRepeaterBlock::TOTAL_STATES)
    }

    pub fn is_redstone_repeater(bs: BlockState) -> (b: bool)
        ensures
            b == RedstoneRepeaterBlock::spec_is_redstone_repeater(bs),
    {
        bs.in_range(RedstoneRepeaterBlock::ID_BASE, RedstoneRepeaterBlock::TOTAL_STATES)
    }

    pub open spec fn spec_default_state() -> BlockState {
        BlockState((RedstoneRepeaterBlock::ID_BASE + RedstoneRepeaterBlock::DEFAULT_STATE) as u16)
    }

    pub fn default_state() -> (bs: BlockState)
        ensures
            bs == RedstoneRepeaterBlock::spec_default_state(),
            RedstoneRepeaterBlock::spec_is_redstone_repeater(bs),
    {
        BlockState(RedstoneRepeaterBlock::ID_BASE + RedstoneRepeaterBlock::DEFAULT_STATE)
    }

    /// A wire beside a repeater joins it at its back and at its front only.
    pub open spec fn spec_attracts_wire(bs: BlockState, direction: HorizontalDirection) -> bool {
        let facing = RedstoneRepeaterState::spec_from(bs).spec_facing();
        facing == direction || facing.spec_opposite() == direction
    }

    pub fn is_attract_redstone_wire_connection(
        bs: BlockState,
        direction: HorizontalDirection,
    ) -> (b: bool)
        requires
            RedstoneRepeaterBlock::spec_is_redstone_repeater(bs),
        ensures
            b == RedstoneRepeaterBlock::spec_attracts_wire(bs, direction),
    {
        let facing = RedstoneRepeaterState::from(bs).facing();
        facing == direction || facing.opposite() == direction
    }

    /// The state of a repeater placed by a player whose cursor leans
    /// toward `toward`: its back faces that way.
    pub open spec fn spec_state_for_placement(toward: HorizontalDirection) -> BlockState {
        RedstoneRepeaterState::spec_from(
            RedstoneRepeaterBlock::spec_default_state(),
        ).spec_set_facing(toward.spec_opposite()).spec_block_state()
    }

    pub fn get_state_for_placement(toward: HorizontalDirection) -> (bs: BlockState)
        ensures
            bs == RedstoneRepeaterBlock::spec_state_for_placement(toward),
            RedstoneRepeaterBlock::spec_is_redstone_repeater(bs),
            RedstoneRepeaterState::spec_from(bs).spec_facing() == toward.spec_opposite(),
            !RedstoneRepeaterState::spec_from(bs).spec_powered(),
            RedstoneRepeaterState::spec_from(bs).spec_delay() == 1,
    {
        let mut state = RedstoneRepeaterState::from(RedstoneRepeaterBlock::default_state());
        state.set_facing(toward.opposite());
        state.block_state()
    }

    /// The state after a player's click: the delay goes one step up, and
    /// from 4 back to 1.
    pub open spec fn spec_cycled(bs: BlockState) -> BlockState {
        let state = RedstoneRepeaterState::spec_from(bs);
        state.spec_set_delay(
            if state.spec_delay() == 4 {
                1i8
            } else {
                (state.spec_delay() + 1) as i8
            },
        ).spec_block_state()
    }

    pub fn cycled(bs: BlockState) -> (next: BlockState)
        requires
            RedstoneRepeaterBlock::spec_is_redstone_repeater(bs),
        ensures
            next == RedstoneRepeaterBlock::spec_cycled(bs),
            RedstoneRepeaterBlock::spec_is_redstone_repeater(next),
            RedstoneRepeaterState::spec_from(next).spec_delay() == (if RedstoneRepeaterState::spec_from(
                bs,
            ).spec_delay() == 4 {
                1
            } else {
                RedstoneRepeaterState::spec_from(bs).spec_delay() + 1
            }),
    {
        let mut state = RedstoneRepeaterState::from(bs);
        let delay = state.delay();
        state.set_delay(
            if delay == 4 {
                1
            } else {
                delay + 1
            },
        );
        state.block_state()
    }

    /// The delay of a repeater in game ticks: twice its `delay`.
    pub open spec fn spec_delay_ticks(bs: BlockState) -> u8 {
        (RedstoneRepeaterState::spec_from(bs).spec_delay() * 2) as u8
    }

    pub fn delay_ticks(bs: BlockState) -> (d: u8)
        requires
            RedstoneRepeaterBlock::spec_is_redstone_repeater(bs),
        ensures
            d == RedstoneRepeaterBlock::spec_delay_ticks(bs),
            2 <= d <= 8,
    {
        (RedstoneRepeaterState::from(bs).delay() * 2) as u8
    }

    /// The state after a scheduled tick: an unpowered repeater with input
    /// turns on, a powered one without input turns off.
    pub open spec fn spec_ticked(bs: BlockState, has_input: bool) -> BlockState {
        let state = RedstoneRepeaterState::spec_from(bs);
        if !state.spec_powered() && has_input {
            state.spec_set_powered(true).spec_block_state()
        } else if state.spec_powered() && !has_input {
            state.spec_set_powered(false).spec_block_state()
        } else {
            bs
        }
    }

    pub fn ticked(bs: BlockState, has_input: bool) -> (next: BlockState)
        requires
            RedstoneRepeaterBlock::spec_is_redstone_repeater(bs),
        ensures
            next == RedstoneRepeaterBlock::spec_ticked(bs, has_input),
            RedstoneRepeaterBlock::spec_is_redstone_repeater(next),
            RedstoneRepeaterState::spec_from(next).spec_powered() == has_input,
            RedstoneRepeaterState::spec_from(next).spec_facing() == RedstoneRepeaterState::spec_from(
                bs,
            ).spec_facing(),
            RedstoneRepeaterState::spec_from(next).spec_delay() == RedstoneRepeaterState::spec_from(
                bs,
            ).spec_delay(),
            (next != bs) == (RedstoneRepeaterState::spec_from(bs).spec_powered() != has_input),
    {
        let mut state = RedstoneRepeaterState::from(bs);
        if !state.powered() && has_input {
            state.set_powered(true);
            state.block_state()
        } else if state.powered() && !has_input {
            state.set_powered(false);
            state.block_state()
        } else {
            bs
        }
    }

    /// The signal of a repeater: 15 out of its front while it is on.
    pub open spec fn spec_signal(bs: BlockState, direction: Direction) -> u8 {
        let state = RedstoneRepeaterState::spec_from(bs);
        if state.spec_powered() && state.spec_facing().spec_direction().spec_opposite()
            == direction {
            15
        } else {
            0
        }
    }

    pub fn get_signal(bs: BlockState, direction: Direction) -> (s: u8)
        requires
            RedstoneRepeaterBlock::spec_is_redstone_repeater(bs),
        ensures
            s == RedstoneRepeaterBlock::spec_signal(bs, direction),
    {
        let state = RedstoneRepeaterState::from(bs);
        if state.powered() && state.facing().direction().opposite() == direction {
            15
        } else {
            0
        }
    }

    /// A repeater's strong signal is its signal.
    pub fn get_strong_signal(bs: BlockState, direction: Direction) -> (s: u8)
        requires
            RedstoneRepeaterBlock::spec_is_redstone_repeater(bs),
        ensures
            s == RedstoneRepeaterBlock::spec_signal(bs, direction),
    {
        RedstoneRepeaterBlock::get_signal(bs, direction)
    }
}

impl WorldModel {
    /// The signal that arrives at the back of the repeater in state `bs`
    /// at `pos`.
    pub open spec fn repeater_input(self, pos: BlockPos, bs: BlockState) -> u8 {
        let back = RedstoneRepeaterState::spec_from(bs).spec_facing().spec_direction();
        self.signal(pos.spec_offset_dir(back), back.spec_opposite())
    }

    /// The world after the scheduled tick of the repeater in state `bs`
    /// at `pos`: a repeater that is off and has input turns on and
    /// schedules the tick at which it looks again; one that is on and has
    /// no input turns off. A repeater that changed queues updates for its
    /// neighbours and for the other neighbours of the block in front of
    /// it.
    pub open spec fn repeater_ticked(self, pos: BlockPos, bs: BlockState) -> WorldModel {
        let has_input = self.repeater_input(pos, bs) > 0;
        let state = RedstoneRepeaterState::spec_from(bs);
        let next = RedstoneRepeaterBlock::spec_ticked(bs, has_input);
        let scheduled = if !state.spec_powered() && has_input {
            self.schedule_tick(pos, RedstoneRepeaterBlock::spec_delay_ticks(bs), 0)
        } else {
            self
        };
        if next != bs && self.block(pos) is Some {
            let front = state.spec_facing().spec_direction().spec_opposite();
            scheduled.set_block(pos, next).push_updates(neighbors(pos)).push_updates(
                neighbors_except(pos.spec_offset_dir(front), front.spec_opposite()),
            )
        } else {
            scheduled
        }
    }

    /// The world after the update of the repeater in state `bs` at
    /// `pos`: if its input and its state disagree, a tick is scheduled
    /// after the repeater's delay.
    pub open spec fn repeater_updated(self, pos: BlockPos, bs: BlockState) -> WorldModel {
        let has_input = self.repeater_input(pos, bs) > 0;
        if has_input != RedstoneRepeaterState::spec_from(bs).spec_powered() {
            self.schedule_tick(pos, RedstoneRepeaterBlock::spec_delay_ticks(bs), 0)
        } else {
            self
        }
    }

    /// The world after a player's click on the repeater in state `bs` at
    /// `pos`: its delay goes one step further and an update is queued for
    /// it.
    pub open spec fn repeater_used(self, pos: BlockPos, bs: BlockState) -> WorldModel {
        if self.block(pos) is Some {
            self.set_block(pos, RedstoneRepeaterBlock::spec_cycled(bs)).push_update(pos)
        } else {
            self
        }
    }
}

/// The delay of a repeater: an update at which its input and its state
/// disagree leaves every block as it is and has one tick wait for the
/// repeater, due twice its `delay` game ticks later, if none waited for
/// it before.
pub proof fn lemma_repeater_update_waits(m: WorldModel, pos: BlockPos, bs: BlockState)
    requires
        valid_schedule(m.scheduled, m.sequence),
        !is_pending(m.scheduled, pos),
        (m.repeater_input(pos, bs) > 0) != RedstoneRepeaterState::spec_from(bs).spec_powered(),
    ensures
        ({
            let after = m.repeater_updated(pos, bs);
            &&& after.cells == m.cells
            &&& after.tick == m.tick
            &&& is_pending(after.scheduled, pos)
            &&& forall|j: int|
                0 <= j < after.scheduled.len() && (#[trigger] after.scheduled[j]).pos == pos
                    ==> after.scheduled[j].priority == 0 && after.scheduled[j].tick == wrap_tick(
                    m.tick + 2 * RedstoneRepeaterState::spec_from(bs).spec_delay(),
                )
        }),
{
    let delay = RedstoneRepeaterBlock::spec_delay_ticks(bs);
    lemma_scheduled_tick(m.scheduled, m.sequence, pos, wrap_tick(m.tick + delay), 0);
}

/// The delay of a repeater in a world in which nothing else is scheduled
/// and no update waits: after the update at which its input and its state
/// disagree, every block is as it was for as long as `n` game ticks do
/// not reach the tick that was scheduled, and that tick, the repeater's,
/// is due twice the repeater's `delay` after the update.
pub proof fn lemma_repeater_delay(m: WorldModel, pos: BlockPos, bs: BlockState, n: nat)
    requires
        RedstoneRepeaterBlock::spec_is_redstone_repeater(bs),
        m.scheduled.len() == 0,
        m.updates.len() == 0,
        (m.repeater_input(pos, bs) > 0) != RedstoneRepeaterState::spec_from(bs).spec_powered(),
        n <= 2 * RedstoneRepeaterState::spec_from(bs).spec_delay(),
        m.tick + 2 * RedstoneRepeaterState::spec_from(bs).spec_delay() <= u32::MAX,
    ensures
        ({
            let later = m.repeater_updated(pos, bs).ticked_times(n);
            &&& later.cells == m.cells
            &&& later.tick == m.tick + n
            &&& later.scheduled.len() == 1
            &&& later.scheduled[0].pos == pos
            &&& later.scheduled[0].tick == m.tick + 2 * RedstoneRepeaterState::spec_from(
                bs,
            ).spec_delay()
        }),
{
    let after = m.repeater_updated(pos, bs);
    lemma_repeater_update_waits(m, pos, bs);
    assert(after.scheduled.len() == 1);
    assert(after.scheduled[0].pos == pos);
    assert(after.updates == m.updates);
    lemma_scheduled_tick_waits(after, n);
}

/// After its scheduled tick a repeater is on exactly if it has input, and
/// emits 15 out of its front exactly then.
pub proof fn lemma_repeater_tick_follows_input(m: WorldModel, pos: BlockPos, bs: BlockState)
    requires
        m.block(pos) == Some(bs),
        RedstoneRepeaterBlock::spec_is_redstone_repeater(bs),
    ensures
        ({
            let after = m.repeater_ticked(pos, bs);
            let has_input = m.repeater_input(pos, bs) > 0;
            let front = RedstoneRepeaterState::spec_from(
                bs,
            ).spec_facing().spec_direction().spec_opposite();
            &&& after.block(pos) matches Some(next) && RedstoneRepeaterState::spec_from(
                next,
            ).spec_powered() == has_input && RedstoneRepeaterBlock::spec_signal(next, front) == (
            if has_input {
                15u8
            } else {
                0u8
            })
        }),
{
}

impl RedstoneRepeaterBlock {
    /// The signal that arrives at the back of the repeater.
    pub fn get_input_signal<R: RedstoneOverride>(
        world: &LocalWorld<R>,
        pos: BlockPos,
        blockstate: BlockState,
    ) -> (s: u8)
        requires
            world.wf(),
            RedstoneRepeaterBlock::spec_is_redstone_repeater(blockstate),
        ensures
            s == world@.repeater_input(pos, blockstate),
    {
        let back = RedstoneRepeaterState::from(blockstate).facing().direction();
        world.get_signal(pos.offset_dir(back), back.opposite())
    }

    /// What happens when a player clicks on the repeater with an empty
    /// hand.
    pub fn on_use_without_item<R: RedstoneOverride>(
        world: &mut LocalWorld<R>,
        pos: BlockPos,
        blockstate: BlockState,
    )
        requires
            old(world).wf(),
            RedstoneRepeaterBlock::spec_is_redstone_repeater(blockstate),
        ensures
            final(world).wf(),
            final(world).same_frame(old(world)),
            final(world)@ == old(world)@.repeater_used(pos, blockstate),
    {
        let next = RedstoneRepeaterBlock::cycled(blockstate);
        if let Ok(_) = world.set_block_state(pos, next) {
            world.update_block(pos);
        }
    }

    /// The scheduled tick of the repeater in state `blockstate` at `pos`.
    pub fn tick<R: RedstoneOverride>(
        world: &mut LocalWorld<R>,
        pos: BlockPos,
        blockstate: BlockState,
    )
        requires
            old(world).wf(),
            RedstoneRepeaterBlock::spec_is_redstone_repeater(blockstate),
        ensures
            final(world).wf(),
            final(world).same_frame(old(world)),
            final(world)@ == old(world)@.repeater_ticked(pos, blockstate),
    {
        let state = RedstoneRepeaterState::from(blockstate);
        let has_input = RedstoneRepeaterBlock::get_input_signal(world, pos, blockstate) > 0;
        let next = RedstoneRepeaterBlock::ticked(blockstate, has_input);
        if !state.powered() && has_input {
            world.schedule_tick(pos, RedstoneRepeaterBlock::delay_ticks(blockstate), 0);
        }
        if next != blockstate {
            if let Ok(_) = world.set_block_state(pos, next) {
                world.update_neighbors(pos);
                let front = state.facing().direction().opposite();
                world.update_neighbors_except_for_direction(pos.offset_dir(front), front.opposite());
            }
        }
    }

    /// The update of the repeater in state `blockstate` at `pos`.
    pub fn update<R: RedstoneOverride>(
        world: &mut LocalWorld<R>,
        pos: BlockPos,
        blockstate: BlockState,
    )
        requires
            old(world).wf(),
            RedstoneRepeaterBlock::spec_is_redstone_repeater(blockstate),
        ensures
            final(world).wf(),
            final(world).same_frame(old(world)),
            final(world)@ == old(world)@.repeater_updated(pos, blockstate),
    {
        let state = RedstoneRepeaterState::from(blockstate);
        let has_input = RedstoneRepeaterBlock::get_input_signal(world, pos, blockstate) > 0;
        if has_input != state.powered() {
            world.schedule_tick(pos, RedstoneRepeaterBlock::delay_ticks(blockstate), 0);
        }
    }
}

} // verus!
