//! Redstone wire: carries power from block to block, one level lost per
//! step.

use crate::direction::{Direction, HorizontalDirection};
use crate::world::block::{
    property_with_digit, BlockState, EnumProperty, IndexedEnum,
    IntProperty, Property, SimpleBlockState, StateId,
};
use crate::pos::BlockPos;
use crate::world::block::blocks::redstone_repeater::RedstoneRepeaterBlock;
use crate::world::block::registry::BlockKind;
use crate::world::signal::max_signal;
use crate::world::world::{all_directions, LocalWorld, RedstoneOverride, WorldModel};
use vstd::prelude::*;

verus! {

/// The redstone wire block.
#[derive(Debug, Clone, Copy)]
pub struct RedstoneWireBlock;

/// How a wire reaches out on one side: up the side of the neighbouring
/// block, level along the ground, or not at all.
#[derive(Debug, Eq, PartialEq, Copy, Clone, Hash, Structural)]
pub enum Connection {
    UP,
    SIDE,
    NONE,
}

impl IndexedEnum for Connection {
    open spec fn spec_variant_count() -> u8 {
        3
    }

    open spec fn spec_to_index(self) -> u8 {
        match self {
            Connection::UP => 0,
            Connection::SIDE => 1,
            Connection::NONE => 2,
        }
    }

    open spec fn spec_of_index(index: u8) -> Self {
        if index == 0 {
            Connection::UP
        } else if index == 1 {
            Connection::SIDE
        } else {
            Connection::NONE
        }
    }

    fn variant_count() -> (n: u8) {
        3
    }

    fn to_index(self) -> (index: u8) {
        match self {
            Connection::UP => 0,
            Connection::SIDE => 1,
            Connection::NONE => 2,
        }
    }

    fn of_index(index: u8) -> (v: Self) {
        match index {
            0 => Connection::UP,
            1 => Connection::SIDE,
            _ => Connection::NONE,
        }
    }
}

/// A wire's state: the west connection in digit 1, south in digit 3,
/// `power`, from 0 to 15, in digit 9, north in digit 144 and east in digit
/// 432 of its 1296 states.
#[derive(Debug, Copy, Clone, Eq, PartialEq, Structural)]
pub struct RedstoneWireState(pub StateId);

impl SimpleBlockState for RedstoneWireState {
    open spec fn id(self) -> StateId {
        self.0
    }

    fn from_state_id(id: StateId) -> (s: Self) {
        RedstoneWireState(id)
    }

    fn state_id(self) -> (id: StateId) {
        self.0
    }

    fn set_state_id(&mut self, id: StateId) {
        self.0 = id;
    }
}

impl Property<3, 1> for RedstoneWireState {

}

impl EnumProperty<Connection, 3, 1> for RedstoneWireState {

}

impl Property<3, 3> for RedstoneWireState {

}

impl EnumProperty<Connection, 3, 3> for RedstoneWireState {

}

impl Property<16, 9> for RedstoneWireState {

}

impl IntProperty<0, 16, 9> for RedstoneWireState {

}

impl Property<3, 144> for RedstoneWireState {

}

impl EnumProperty<Connection, 3, 144> for RedstoneWireState {

}

impl Property<3, 432> for RedstoneWireState {

}

impl EnumProperty<Connection, 3, 432> for RedstoneWireState {

}

/// The weight of the digit that holds a side's connection.
pub open spec fn connection_group(direction: HorizontalDirection) -> int {
    match direction {
        HorizontalDirection::NORTH => 144,
        HorizontalDirection::SOUTH => 3,
        HorizontalDirection::WEST => 1,
        HorizontalDirection::EAST => 432,
    }
}

/// The state id whose digits are the given ones.
pub open spec fn wire_id(east: int, north: int, power: int, south: int, west: int) -> int {
    east * 432 + north * 144 + power * 9 + south * 3 + west
}

/// The digits of a composed wire state id are the ones it was composed
/// of.
proof fn lemma_wire_id_digits(east: int, north: int, power: int, south: int, west: int)
    requires
        0 <= east < 3,
        0 <= north < 3,
        0 <= power < 16,
        0 <= south < 3,
        0 <= west < 3,
    ensures
        ({
            let id = wire_id(east, north, power, south, west);
            &&& 0 <= id < 1296
            &&& id % 3 == west
            &&& id / 3 % 3 == south
            &&& id / 9 % 16 == power
            &&& id / 144 % 3 == north
            &&& id / 432 == east
            &&& id / 432 % 3 == east
        }),
{
    let id = wire_id(east, north, power, south, west);
    let a = east * 144 + north * 48 + power * 3 + south;
    let b = east * 48 + north * 16 + power;
    let c = east * 3 + north;
    vstd::arithmetic::div_mod::lemma_fundamental_div_mod_converse(id, 3, a, west);
    vstd::arithmetic::div_mod::lemma_fundamental_div_mod_converse(a, 3, b, south);
    vstd::arithmetic::div_mod::lemma_fundamental_div_mod_converse(b, 16, c, power);
    vstd::arithmetic::div_mod::lemma_fundamental_div_mod_converse(c, 3, east, north);
    assert(id / 3 == a);
    assert(a / 3 == b);
    assert(b / 16 == c);
    assert(c / 3 == east);
    vstd::arithmetic::div_mod::lemma_div_denominator(id, 3, 3);
    assert(id / 9 == b);
    vstd::arithmetic::div_mod::lemma_div_denominator(id, 9, 16);
    assert(id / 144 == c);
    vstd::arithmetic::div_mod::lemma_div_denominator(id, 144, 3);
    assert(id / 432 == east);
}

/// Every wire state id is composed of its digits.
proof fn lemma_wire_id_composed(id: int)
    requires
        0 <= id < 1296,
    ensures
        id == wire_id(id / 432, id / 144 % 3, id / 9 % 16, id / 3 % 3, id % 3),
        0 <= id / 432 < 3,
{
    vstd::arithmetic::div_mod::lemma_div_denominator(id, 3, 3);
    vstd::arithmetic::div_mod::lemma_div_denominator(id, 9, 16);
    vstd::arithmetic::div_mod::lemma_div_denominator(id, 144, 3);
    let a = id / 3;
    let b = a / 3;
    let c = b / 16;
    assert(id == a * 3 + id % 3);
    assert(a == b * 3 + a % 3);
    assert(b == c * 16 + b % 16);
    assert(c == (c / 3) * 3 + c % 3);
    assert(id / 9 == b);
    assert(id / 144 == c);
    assert(id / 432 == c / 3);
}

/// Replacing one digit of a wire's state id leaves the other four as
/// they were and keeps the id inside the wire's range.
proof fn lemma_wire_digit_written(id: int, group: int, n: int, value: int)
    requires
        0 <= id < 1296,
        (group == 1 && n == 3) || (group == 3 && n == 3) || (group == 9 && n == 16) || (group
            == 144 && n == 3) || (group == 432 && n == 3),
        0 <= value < n,
    ensures
        ({
            let next = property_with_digit(id, n, group, value);
            &&& 0 <= next < 1296
            &&& next / group % n == value
            &&& group != 1 ==> next % 3 == id % 3
            &&& group != 3 ==> next / 3 % 3 == id / 3 % 3
            &&& group != 9 ==> next / 9 % 16 == id / 9 % 16
            &&& group != 144 ==> next / 144 % 3 == id / 144 % 3
            &&& group != 432 ==> next / 432 % 3 == id / 432 % 3
        }),
{
    let w = id % 3;
    let s = id / 3 % 3;
    let p = id / 9 % 16;
    let n0 = id / 144 % 3;
    let e = id / 432;
    lemma_wire_id_composed(id);
    lemma_wire_id_digits(e, n0, p, s, w);
    let next = property_with_digit(id, n, group, value);
    if group == 1 {
        assert(next == wire_id(e, n0, p, s, value));
        lemma_wire_id_digits(e, n0, p, s, value);
    } else if group == 3 {
        assert(next == wire_id(e, n0, p, value, w));
        lemma_wire_id_digits(e, n0, p, value, w);
    } else if group == 9 {
        assert(next == wire_id(e, n0, value, s, w));
        lemma_wire_id_digits(e, n0, value, s, w);
    } else if group == 144 {
        assert(next == wire_id(e, value, p, s, w));
        lemma_wire_id_digits(e, value, p, s, w);
    } else {
        assert(next == wire_id(value, n0, p, s, w));
        lemma_wire_id_digits(value, n0, p, s, w);
    }
}

impl RedstoneWireState {
    pub open spec fn wf(self) -> bool {
        self.0.0 < RedstoneWireBlock::TOTAL_STATES
    }

    pub open spec fn spec_power(self) -> i8 {
        (self.0.0 / 9 % 16) as i8
    }

    pub open spec fn spec_connection(self, direction: HorizontalDirection) -> Connection {
        Connection::spec_of_index((self.0.0 as int / connection_group(direction) % 3) as u8)
    }

    pub open spec fn spec_set_power(self, value: i8) -> RedstoneWireState {
        RedstoneWireState(StateId(property_with_digit(self.0.0 as int, 16, 9, value as int) as u16))
    }

    pub open spec fn spec_set_connection(
        self,
        direction: HorizontalDirection,
        value: Connection,
    ) -> RedstoneWireState {
        RedstoneWireState(
            StateId(
                property_with_digit(
                    self.0.0 as int,
                    3,
                    connection_group(direction),
                    value.spec_to_index() as int,
                ) as u16,
            ),
        )
    }

    /// The state with one connection on every side.
    pub open spec fn spec_set_all(self, value: Connection) -> RedstoneWireState {
        self.spec_set_connection(HorizontalDirection::NORTH, value).spec_set_connection(
            HorizontalDirection::SOUTH,
            value,
        ).spec_set_connection(HorizontalDirection::WEST, value).spec_set_connection(
            HorizontalDirection::EAST,
            value,
        )
    }

    /// No side is connected.
    pub open spec fn spec_is_dot(self) -> bool {
        forall|d: HorizontalDirection| self.spec_connection(d) == Connection::NONE
    }

    /// Every side is connected level.
    pub open spec fn spec_is_star(self) -> bool {
        forall|d: HorizontalDirection| self.spec_connection(d) == Connection::SIDE
    }

    pub open spec fn spec_block_state(self) -> BlockState {
        BlockState((RedstoneWireBlock::ID_BASE + self.0.0) as u16)
    }

    pub open spec fn spec_from(bs: BlockState) -> RedstoneWireState {
        RedstoneWireState(StateId((bs.0 - RedstoneWireBlock::ID_BASE) as u16))
    }

    pub fn power(self) -> (v: i8)
        ensures
            v == self.spec_power(),
            0 <= v <= 15,
    {
        <Self as IntProperty<0, 16, 9>>::get(self)
    }

    pub fn set_power(&mut self, value: i8)
        requires
            old(self).wf(),
            0 <= value <= 15,
        ensures
            *final(self) == old(self).spec_set_power(value),
            final(self).wf(),
            final(self).spec_power() == value,
            forall|d: HorizontalDirection|
                final(self).spec_connection(d) == old(self).spec_connection(d),
    {
        proof {
            lemma_wire_digit_written(self.0.0 as int, 9, 16, value as int);
        }
        <Self as IntProperty<0, 16, 9>>::set(self, value);
    }

    pub fn connection(self, direction: HorizontalDirection) -> (v: Connection)
        ensures
            v == self.spec_connection(direction),
    {
        match direction {
            HorizontalDirection::NORTH => <Self as EnumProperty<Connection, 3, 144>>::get(self),
            HorizontalDirection::SOUTH => <Self as EnumProperty<Connection, 3, 3>>::get(self),
            HorizontalDirection::WEST => <Self as EnumProperty<Connection, 3, 1>>::get(self),
            HorizontalDirection::EAST => <Self as EnumProperty<Connection, 3, 432>>::get(self),
        }
    }

    pub fn set_connection(&mut self, direction: HorizontalDirection, value: Connection)
        requires
            old(self).wf(),
        ensures
            *final(self) == old(self).spec_set_connection(direction, value),
            final(self).wf(),
            final(self).spec_power() == old(self).spec_power(),
            final(self).spec_connection(direction) == value,
            forall|d: HorizontalDirection|
                d != direction ==> final(self).spec_connection(d) == old(self).spec_connection(d),
    {
        proof {
            lemma_wire_digit_written(
                self.0.0 as int,
                connection_group(direction),
                3,
                value.spec_to_index() as int,
            );
        }
        match direction {
            HorizontalDirection::NORTH => <Self as EnumProperty<Connection, 3, 144>>::set(
                self,
                value,
            ),
            HorizontalDirection::SOUTH => <Self as EnumProperty<Connection, 3, 3>>::set(self, value),
            HorizontalDirection::WEST => <Self as EnumProperty<Connection, 3, 1>>::set(self, value),
            HorizontalDirection::EAST => <Self as EnumProperty<Connection, 3, 432>>::set(
                self,
                value,
            ),
        }
    }

    /// Sets the same connection on every side.
    pub fn set_all(&mut self, value: Connection)
        requires
            old(self).wf(),
        ensures
            *final(self) == old(self).spec_set_all(value),
            final(self).wf(),
            final(self).spec_power() == old(self).spec_power(),
            forall|d: HorizontalDirection| final(self).spec_connection(d) == value,
    {
        self.set_connection(HorizontalDirection::NORTH, value);
        self.set_connection(HorizontalDirection::SOUTH, value);
        self.set_connection(HorizontalDirection::WEST, value);
        self.set_connection(HorizontalDirection::EAST, value);
    }

    /// How many sides are connected.
    pub open spec fn spec_connected_sides(self) -> int {
        (if self.spec_connection(HorizontalDirection::NORTH) != Connection::NONE {
            1int
        } else {
            0int
        }) + (if self.spec_connection(HorizontalDirection::SOUTH) != Connection::NONE {
            1int
        } else {
            0int
        }) + (if self.spec_connection(HorizontalDirection::WEST) != Connection::NONE {
            1int
        } else {
            0int
        }) + (if self.spec_connection(HorizontalDirection::EAST) != Connection::NONE {
            1int
        } else {
            0int
        })
    }

    pub fn is_dot(self) -> (b: bool)
        ensures
            b == self.spec_is_dot(),
            b == (self.spec_connected_sides() == 0),
    {
        let b = self.connection(HorizontalDirection::NORTH) == Connection::NONE && self.connection(
            HorizontalDirection::SOUTH,
        ) == Connection::NONE && self.connection(HorizontalDirection::WEST) == Connection::NONE
            && self.connection(HorizontalDirection::EAST) == Connection::NONE;
        proof {
            if b {
                assert forall|d: HorizontalDirection|
                    self.spec_connection(d) == Connection::NONE by {
                    match d {
                        HorizontalDirection::NORTH => {},
                        HorizontalDirection::SOUTH => {},
                        HorizontalDirection::WEST => {},
                        HorizontalDirection::EAST => {},
                    }
                }
            }
        }
        b
    }

    pub fn is_star(self) -> (b: bool)
        ensures
            b == self.spec_is_star(),
    {
        let b = self.connection(HorizontalDirection::NORTH) == Connection::SIDE && self.connection(
            HorizontalDirection::SOUTH,
        ) == Connection::SIDE && self.connection(HorizontalDirection::WEST) == Connection::SIDE
            && self.connection(HorizontalDirection::EAST) == Connection::SIDE;
        proof {
            if b {
                assert forall|d: HorizontalDirection|
                    self.spec_connection(d) == Connection::SIDE by {
                    match d {
                        HorizontalDirection::NORTH => {},
                        HorizontalDirection::SOUTH => {},
                        HorizontalDirection::WEST => {},
                        HorizontalDirection::EAST => {},
                    }
                }
            }
        }
        b
    }

    pub fn block_state(self) -> (bs: BlockState)
        requires
            self.wf(),
        ensures
            bs == self.spec_block_state(),
            RedstoneWireBlock::spec_is_redstone_wire(bs),
            RedstoneWireState::spec_from(bs) == self,
    {
        BlockState(RedstoneWireBlock::ID_BASE + self.0.0)
    }

    pub fn from(bs: BlockState) -> (s: RedstoneWireState)
        requires
            RedstoneWireBlock::spec_is_redstone_wire(bs),
        ensures
            s == RedstoneWireState::spec_from(bs),
            s.wf(),
            s.spec_block_state() == bs,
    {
        RedstoneWireState(StateId(bs.0 - RedstoneWireBlock::ID_BASE))
    }
}

impl RedstoneWireBlock {
    /// The first of the wire's states.
    pub const ID_BASE: u16 = 3042;

    /// How many states the wire has.
    pub const TOTAL_STATES: u16 = 1296;

    /// The offset of the state of a lone wire without power: no side
    /// connected.
    pub const DEFAULT_STATE: u16 = 1160;

    pub open spec fn spec_is_redstone_wire(bs: BlockState) -> bool {
        bs.spec_in_range(RedstoneWireBlock::ID_BASE, RedstoneWireBlock::TOTAL_STATES)
    }

    pub fn is_redstone_wire(blockstate: BlockState) -> (b: bool)
        ensures
            b == RedstoneWireBlock::spec_is_redstone_wire(blockstate),
    {
        blockstate.in_range(RedstoneWireBlock::ID_BASE, RedstoneWireBlock::TOTAL_STATES)
    }

    pub open spec fn spec_default_state() -> BlockState {
        BlockState((RedstoneWireBlock::ID_BASE + RedstoneWireBlock::DEFAULT_STATE) as u16)
    }

    pub fn default_state() -> (bs: BlockState)
        ensures
            bs == RedstoneWireBlock::spec_default_state(),
            RedstoneWireBlock::spec_is_redstone_wire(bs),
            RedstoneWireState::spec_from(bs).spec_power() == 0,
            RedstoneWireState::spec_from(bs).spec_is_dot(),
    {
        let bs = BlockState(RedstoneWireBlock::ID_BASE + RedstoneWireBlock::DEFAULT_STATE);
        assert forall|d: HorizontalDirection|
            RedstoneWireState::spec_from(bs).spec_connection(d) == Connection::NONE by {
            match d {
                HorizontalDirection::NORTH => {},
                HorizontalDirection::SOUTH => {},
                HorizontalDirection::WEST => {},
                HorizontalDirection::EAST => {},
            }
        }
        bs
    }

    /// The wire state `bs` with the power level replaced.
    pub open spec fn spec_with_power(bs: BlockState, power: u8) -> BlockState {
        RedstoneWireState::spec_from(bs).spec_set_power(power as i8).spec_block_state()
    }

    pub fn with_power(bs: BlockState, power: u8) -> (next: BlockState)
        requires
            RedstoneWireBlock::spec_is_redstone_wire(bs),
            power <= 15,
        ensures
            next == RedstoneWireBlock::spec_with_power(bs, power),
            RedstoneWireBlock::spec_is_redstone_wire(next),
            RedstoneWireState::spec_from(next).spec_power() == power,
            forall|d: HorizontalDirection|
                RedstoneWireState::spec_from(next).spec_connection(d)
                    == RedstoneWireState::spec_from(bs).spec_connection(d),
    {
        let mut state = RedstoneWireState::from(bs);
        state.set_power(power as i8);
        state.block_state()
    }

    /// The shape of a wire whose sides were found to connect as given: a
    /// wire with no connection reaches out on all four sides, a wire with
    /// one connection also reaches out on the opposite side.
    pub open spec fn spec_shaped(
        bs: BlockState,
        north: Connection,
        south: Connection,
        west: Connection,
        east: Connection,
    ) -> BlockState {
        let found = RedstoneWireState::spec_from(bs).spec_set_connection(
            HorizontalDirection::NORTH,
            north,
        ).spec_set_connection(HorizontalDirection::SOUTH, south).spec_set_connection(
            HorizontalDirection::WEST,
            west,
        ).spec_set_connection(HorizontalDirection::EAST, east);
        if found.spec_connected_sides() == 0 {
            found.spec_set_all(Connection::SIDE).spec_block_state()
        } else if found.spec_connected_sides() == 1 {
            let only = if north != Connection::NONE {
                HorizontalDirection::NORTH
            } else if south != Connection::NONE {
                HorizontalDirection::SOUTH
            } else if west != Connection::NONE {
                HorizontalDirection::WEST
            } else {
                HorizontalDirection::EAST
            };
            found.spec_set_connection(only.spec_opposite(), Connection::SIDE).spec_block_state()
        } else {
            found.spec_block_state()
        }
    }

    pub fn shaped(
        bs: BlockState,
        north: Connection,
        south: Connection,
        west: Connection,
        east: Connection,
    ) -> (next: BlockState)
        requires
            RedstoneWireBlock::spec_is_redstone_wire(bs),
        ensures
            next == RedstoneWireBlock::spec_shaped(bs, north, south, west, east),
            RedstoneWireBlock::spec_is_redstone_wire(next),
            RedstoneWireState::spec_from(next).spec_power() == RedstoneWireState::spec_from(
                bs,
            ).spec_power(),
            !RedstoneWireState::spec_from(next).spec_is_dot(),
    {
        let mut state = RedstoneWireState::from(bs);
        state.set_connection(HorizontalDirection::NORTH, north);
        state.set_connection(HorizontalDirection::SOUTH, south);
        state.set_connection(HorizontalDirection::WEST, west);
        state.set_connection(HorizontalDirection::EAST, east);
        let mut connected: u8 = 0;
        let mut only = HorizontalDirection::EAST;
        if east != Connection::NONE {
            connected = connected + 1;
        }
        if west != Connection::NONE {
            connected = connected + 1;
            only = HorizontalDirection::WEST;
        }
        if south != Connection::NONE {
            connected = connected + 1;
            only = HorizontalDirection::SOUTH;
        }
        if north != Connection::NONE {
            connected = connected + 1;
            only = HorizontalDirection::NORTH;
        }
        assert(connected == state.spec_connected_sides());
        let ghost found = state;
        if connected == 0 {
            state.set_all(Connection::SIDE);
            assert(state.spec_connection(HorizontalDirection::NORTH) == Connection::SIDE);
        } else if connected == 1 {
            state.set_connection(only.opposite(), Connection::SIDE);
            assert(state.spec_connection(only.spec_opposite()) == Connection::SIDE);
        } else {
            assert(exists|d: HorizontalDirection| state.spec_connection(d) != Connection::NONE) by {
                if north != Connection::NONE {
                    assert(state.spec_connection(HorizontalDirection::NORTH) != Connection::NONE);
                } else if south != Connection::NONE {
                    assert(state.spec_connection(HorizontalDirection::SOUTH) != Connection::NONE);
                } else {
                    assert(state.spec_connection(HorizontalDirection::WEST) != Connection::NONE);
                }
            }
        }
        state.block_state()
    }

    /// The state after a player's click: a wire that reaches out on all
    /// sides draws in to a dot, a dot reaches out on all sides, any other
    /// wire stays as it is.
    pub open spec fn spec_used(bs: BlockState) -> BlockState {
        let state = RedstoneWireState::spec_from(bs);
        if state.spec_is_dot() {
            state.spec_set_all(Connection::SIDE).spec_block_state()
        } else if state.spec_is_star() {
            state.spec_set_all(Connection::NONE).spec_block_state()
        } else {
            bs
        }
    }

    pub fn used(bs: BlockState) -> (next: BlockState)
        requires
            RedstoneWireBlock::spec_is_redstone_wire(bs),
        ensures
            next == RedstoneWireBlock::spec_used(bs),
            RedstoneWireBlock::spec_is_redstone_wire(next),
            RedstoneWireState::spec_from(next).spec_power() == RedstoneWireState::spec_from(
                bs,
            ).spec_power(),
    {
        let mut state = RedstoneWireState::from(bs);
        if state.is_dot() {
            state.set_all(Connection::SIDE);
            state.block_state()
        } else if state.is_star() {
            state.set_all(Connection::NONE);
            state.block_state()
        } else {
            bs
        }
    }

    /// The signal of a wire: its power toward each side that it reaches
    /// level and toward the block below, nothing upward.
    pub open spec fn spec_signal(bs: BlockState, direction: Direction) -> u8 {
        let state = RedstoneWireState::spec_from(bs);
        match direction.spec_horizontal() {
            Some(h) => if state.spec_connection(h) == Connection::SIDE {
                state.spec_power() as u8
            } else {
                0
            },
            None => if direction == Direction::DOWN {
                state.spec_power() as u8
            } else {
                0
            },
        }
    }

    pub fn get_signal(bs: BlockState, direction: Direction) -> (s: u8)
        requires
            RedstoneWireBlock::spec_is_redstone_wire(bs),
        ensures
            s == RedstoneWireBlock::spec_signal(bs, direction),
            s <= 15,
    {
        let state = RedstoneWireState::from(bs);
        match direction.horizontal() {
            Some(h) => if state.connection(h) == Connection::SIDE {
                state.power() as u8
            } else {
                0
            },
            None => if direction == Direction::DOWN {
                state.power() as u8
            } else {
                0
            },
        }
    }
}

/// The four horizontal directions in property order.
pub open spec fn all_horizontals() -> Seq<HorizontalDirection> {
    seq![
        HorizontalDirection::NORTH,
        HorizontalDirection::SOUTH,
        HorizontalDirection::WEST,
        HorizontalDirection::EAST,
    ]
}

/// The power that the wire at the end of a connection passes on: one
/// less than its own, and nothing from no power.
pub open spec fn passed_on(power: i8) -> u8 {
    if power >= 1 {
        (power - 1) as u8
    } else {
        0
    }
}

/// The power of a wire at which the given signals arrive: the greatest of
/// them, and at most 15.
pub open spec fn combined_power(strong: u8, side: u8, wire: u8) -> u8 {
    let most = max_signal(max_signal(strong, side), wire);
    if most >= 15 {
        15
    } else {
        most
    }
}

impl WorldModel {
    /// Whether the block at a position is a redstone wire.
    pub open spec fn is_wire_at(self, pos: BlockPos) -> bool {
        self.block(pos) matches Some(bs) && RedstoneWireBlock::spec_is_redstone_wire(bs)
    }

    /// Whether the block at a position conducts redstone power.
    pub open spec fn is_conductor_at(self, pos: BlockPos) -> bool {
        self.block(pos) matches Some(bs) && self.registry.spec_is_redstone_conductor(bs)
    }

    /// Whether a block state draws a wire beside it toward itself, the
    /// wire lying in direction `direction` of the block.
    pub open spec fn attracts_wire(self, bs: BlockState, direction: HorizontalDirection) -> bool {
        match self.registry.spec_kind_of(bs) {
            BlockKind::RedstoneRepeater => RedstoneRepeaterBlock::spec_attracts_wire(bs, direction),
            BlockKind::RedstoneComparator => true,
            BlockKind::RedstoneTorch => true,
            BlockKind::RedstoneWallTorch => true,
            BlockKind::RedstoneWire => true,
            _ => false,
        }
    }

    /// How a wire at `pos` reaches out on one side: up if a wire lies on
    /// top of the neighbour and nothing above the wire blocks the way;
    /// level if the neighbour draws wires, or if the neighbour does not
    /// conduct and a wire lies below it; else not at all.
    pub open spec fn wire_connection(
        self,
        pos: BlockPos,
        direction: HorizontalDirection,
        is_up_blocked: bool,
    ) -> Connection {
        let side = pos.spec_offset_dir(direction.spec_direction());
        if !is_up_blocked && self.is_wire_at(side.spec_offset_dir(Direction::UP)) {
            Connection::UP
        } else if self.block(side) matches Some(bs) && self.attracts_wire(
            bs,
            direction.spec_opposite(),
        ) {
            Connection::SIDE
        } else if !self.is_conductor_at(side) && self.is_wire_at(
            side.spec_offset_dir(Direction::DOWN),
        ) {
            Connection::SIDE
        } else {
            Connection::NONE
        }
    }

    /// The state of a wire at `pos`, now in state `bs`, with its shape
    /// brought up to date.
    pub open spec fn wire_shape(self, pos: BlockPos, bs: BlockState) -> BlockState {
        let blocked = self.is_conductor_at(pos.spec_offset_dir(Direction::UP));
        RedstoneWireBlock::spec_shaped(
            bs,
            self.wire_connection(pos, HorizontalDirection::NORTH, blocked),
            self.wire_connection(pos, HorizontalDirection::SOUTH, blocked),
            self.wire_connection(pos, HorizontalDirection::WEST, blocked),
            self.wire_connection(pos, HorizontalDirection::EAST, blocked),
        )
    }

    /// The greatest strong signal that the neighbours of `pos` in the
    /// first `upto` directions emit toward `pos`.
    pub open spec fn strong_to_upto(self, pos: BlockPos, upto: int) -> u8
        decreases upto,
    {
        if upto <= 0 {
            0
        } else {
            let d = all_directions()[upto - 1];
            max_signal(
                self.strong_to_upto(pos, upto - 1),
                self.strong_signal(pos.spec_offset_dir(d), d.spec_opposite()),
            )
        }
    }

    /// What the block on one side of a wire gives it: its own signal
    /// toward the wire, if the wire reaches out level on that side and the
    /// block is no wire.
    pub open spec fn side_power(self, pos: BlockPos, bs: BlockState, h: HorizontalDirection) -> u8 {
        let at = pos.spec_offset_dir(h.spec_direction());
        if RedstoneWireState::spec_from(bs).spec_connection(h) == Connection::SIDE && !self.is_wire_at(
            at,
        ) {
            match self.block(at) {
                Some(neighbor) => self.block_signal(
                    at,
                    neighbor,
                    h.spec_direction().spec_opposite(),
                ),
                None => 0,
            }
        } else {
            0
        }
    }

    /// Where the wire lies that a wire at `pos` reaches on one side. A
    /// connection upward ends on top of the block beside the wire. A level
    /// connection ends beside the wire if a wire lies there; if the block
    /// there is no wire and does not conduct, it ends one block lower.
    pub open spec fn wire_end(
        self,
        pos: BlockPos,
        connection: Connection,
        h: HorizontalDirection,
    ) -> Option<BlockPos> {
        let side = pos.spec_offset_dir(h.spec_direction());
        match connection {
            Connection::UP => Some(side.spec_offset_dir(Direction::UP)),
            Connection::SIDE => if self.is_wire_at(side) {
                Some(side)
            } else if !self.is_conductor_at(side) {
                Some(side.spec_offset_dir(Direction::DOWN))
            } else {
                None
            },
            Connection::NONE => None,
        }
    }

    /// What the wire at the end of one side's connection gives a wire:
    /// its power less one.
    pub open spec fn wire_power_from(self, pos: BlockPos, bs: BlockState, h: HorizontalDirection) -> u8 {
        match self.wire_end(pos, RedstoneWireState::spec_from(bs).spec_connection(h), h) {
            Some(p) => if self.is_wire_at(p) {
                passed_on(RedstoneWireState::spec_from(self.cells[p]).spec_power())
            } else {
                0
            },
            None => 0,
        }
    }

    /// The greatest of what the blocks on the first `upto` sides give a
    /// wire.
    pub open spec fn side_power_upto(self, pos: BlockPos, bs: BlockState, upto: int) -> u8
        decreases upto,
    {
        if upto <= 0 {
            0
        } else {
            max_signal(
                self.side_power_upto(pos, bs, upto - 1),
                self.side_power(pos, bs, all_horizontals()[upto - 1]),
            )
        }
    }

    /// The greatest of what the wires on the first `upto` sides give a
    /// wire.
    pub open spec fn wire_power_upto(self, pos: BlockPos, bs: BlockState, upto: int) -> u8
        decreases upto,
    {
        if upto <= 0 {
            0
        } else {
            max_signal(
                self.wire_power_upto(pos, bs, upto - 1),
                self.wire_power_from(pos, bs, all_horizontals()[upto - 1]),
            )
        }
    }

    /// The power that a wire at `pos` in state `bs` should have: the
    /// greatest of the strong signals of its six neighbours, the signals
    /// of the blocks that it reaches level, and the power less one of the
    /// wires that it connects to, beside it, one block higher or one block
    /// lower; at most 15.
    pub open spec fn wire_power(self, pos: BlockPos, bs: BlockState) -> u8 {
        combined_power(
            self.strong_to_upto(pos, 6),
            self.side_power_upto(pos, bs, 4),
            self.wire_power_upto(pos, bs, 4),
        )
    }
}

/// A wire's power does not fall when what arrives at it does not fall: if
/// in world `b` every neighbour's strong signal toward the wire, every
/// side's block and every side's wire give the wire at least what they
/// give it in world `a`, the wire's power in `b` is at least its power in
/// `a`.
pub proof fn lemma_wire_power_monotone(a: WorldModel, b: WorldModel, pos: BlockPos, bs: BlockState)
    requires
        forall|d: Direction|
            a.strong_signal(pos.spec_offset_dir(d), d.spec_opposite()) <= #[trigger] b.strong_signal(
                pos.spec_offset_dir(d),
                d.spec_opposite(),
            ),
        forall|h: HorizontalDirection|
            a.side_power(pos, bs, h) <= #[trigger] b.side_power(pos, bs, h),
        forall|h: HorizontalDirection|
            a.wire_power_from(pos, bs, h) <= #[trigger] b.wire_power_from(pos, bs, h),
    ensures
        a.wire_power(pos, bs) <= b.wire_power(pos, bs),
{
    lemma_strong_monotone(a, b, pos, 6);
    lemma_sides_monotone(a, b, pos, bs, 4);
}

proof fn lemma_strong_monotone(a: WorldModel, b: WorldModel, pos: BlockPos, upto: int)
    requires
        0 <= upto <= 6,
        forall|d: Direction|
            a.strong_signal(pos.spec_offset_dir(d), d.spec_opposite()) <= #[trigger] b.strong_signal(
                pos.spec_offset_dir(d),
                d.spec_opposite(),
            ),
    ensures
        a.strong_to_upto(pos, upto) <= b.strong_to_upto(pos, upto),
    decreases upto,
{
    if upto > 0 {
        lemma_strong_monotone(a, b, pos, upto - 1);
        let d = all_directions()[upto - 1];
        assert(a.strong_signal(pos.spec_offset_dir(d), d.spec_opposite()) <= b.strong_signal(
            pos.spec_offset_dir(d),
            d.spec_opposite(),
        ));
    }
}

proof fn lemma_sides_monotone(
    a: WorldModel,
    b: WorldModel,
    pos: BlockPos,
    bs: BlockState,
    upto: int,
)
    requires
        0 <= upto <= 4,
        forall|h: HorizontalDirection|
            a.side_power(pos, bs, h) <= #[trigger] b.side_power(pos, bs, h),
        forall|h: HorizontalDirection|
            a.wire_power_from(pos, bs, h) <= #[trigger] b.wire_power_from(pos, bs, h),
    ensures
        a.side_power_upto(pos, bs, upto) <= b.side_power_upto(pos, bs, upto),
        a.wire_power_upto(pos, bs, upto) <= b.wire_power_upto(pos, bs, upto),
    decreases upto,
{
    if upto > 0 {
        lemma_sides_monotone(a, b, pos, bs, upto - 1);
        let h = all_horizontals()[upto - 1];
        assert(a.side_power(pos, bs, h) <= b.side_power(pos, bs, h));
        assert(a.wire_power_from(pos, bs, h) <= b.wire_power_from(pos, bs, h));
    }
}

/// Wires alone lose power: a wire at which no block's signal arrives, and
/// whose connected wires have power `most` at most, should have less power
/// than `most`, or none.
pub proof fn lemma_wire_power_decays(m: WorldModel, pos: BlockPos, bs: BlockState, most: i8)
    requires
        0 <= most <= 15,
        m.strong_to_upto(pos, 6) == 0,
        m.side_power_upto(pos, bs, 4) == 0,
        forall|p: BlockPos|
            m.is_wire_at(p) ==> (#[trigger] RedstoneWireState::spec_from(m.cells[p])).spec_power()
                <= most,
    ensures
        m.wire_power(pos, bs) <= passed_on(most),
        most > 0 ==> m.wire_power(pos, bs) < most,
        most == 0 ==> m.wire_power(pos, bs) == 0,
{
    lemma_wires_give_less(m, pos, bs, most, 4);
}

proof fn lemma_wires_give_less(m: WorldModel, pos: BlockPos, bs: BlockState, most: i8, upto: int)
    requires
        0 <= upto <= 4,
        0 <= most <= 15,
        forall|p: BlockPos|
            m.is_wire_at(p) ==> (#[trigger] RedstoneWireState::spec_from(m.cells[p])).spec_power()
                <= most,
    ensures
        m.wire_power_upto(pos, bs, upto) <= passed_on(most),
    decreases upto,
{
    if upto > 0 {
        lemma_wires_give_less(m, pos, bs, most, upto - 1);
        let h = all_horizontals()[upto - 1];
        let side = pos.spec_offset_dir(h.spec_direction());
        let up = side.spec_offset_dir(Direction::UP);
        let down = side.spec_offset_dir(Direction::DOWN);
        if m.is_wire_at(side) {
            assert(RedstoneWireState::spec_from(m.cells[side]).spec_power() <= most);
        }
        if m.is_wire_at(up) {
            assert(RedstoneWireState::spec_from(m.cells[up]).spec_power() <= most);
        }
        if m.is_wire_at(down) {
            assert(RedstoneWireState::spec_from(m.cells[down]).spec_power() <= most);
        }
    }
}

impl WorldModel {
    /// The power of the wire at a position.
    pub open spec fn power_at(self, pos: BlockPos) -> i8 {
        RedstoneWireState::spec_from(self.cells[pos]).spec_power()
    }

    /// Every wire has come to rest: its power is the power that should
    /// arrive at it.
    pub open spec fn wires_settled(self) -> bool {
        forall|p: BlockPos|
            self.is_wire_at(p) ==> #[trigger] self.power_at(p) == self.wire_power(p, self.cells[p])
    }
}

/// Whether two worlds have their wires at the same positions and with
/// the same connections, and their conductors at the same positions.
pub open spec fn same_wiring(a: WorldModel, b: WorldModel) -> bool {
    forall|p: BlockPos|
        #![trigger a.is_wire_at(p)]
        a.is_wire_at(p) == b.is_wire_at(p) && a.is_conductor_at(p) == b.is_conductor_at(p) && (
        a.is_wire_at(p) ==> forall|h: HorizontalDirection|
            RedstoneWireState::spec_from(a.cells[p]).spec_connection(h)
                == #[trigger] RedstoneWireState::spec_from(b.cells[p]).spec_connection(h))
}

/// Whether every wire of world `a` gets from the blocks around it, wires
/// left aside, no more in `a` than in `b`.
pub open spec fn wire_inputs_le(a: WorldModel, b: WorldModel) -> bool {
    forall|p: BlockPos|
        #![trigger a.is_wire_at(p)]
        a.is_wire_at(p) ==> a.strong_to_upto(p, 6) <= b.strong_to_upto(p, 6) && a.side_power_upto(
            p,
            a.cells[p],
            4,
        ) <= b.side_power_upto(p, b.cells[p], 4)
}

/// No amplification without a source: of two worlds at rest with the same
/// wiring, the one whose wires get no more from the blocks around them
/// has no more power in any wire.
pub proof fn lemma_settled_wire_power_monotone(a: WorldModel, b: WorldModel, p: BlockPos)
    requires
        a.wires_settled(),
        b.wires_settled(),
        same_wiring(a, b),
        wire_inputs_le(a, b),
        a.is_wire_at(p),
    ensures
        a.power_at(p) <= b.power_at(p),
{
    assert(RedstoneWireBlock::spec_is_redstone_wire(a.cells[p]));
    lemma_power_range(a.cells[p]);
    lemma_settled_level(a, b, p, 15);
}

/// A world is at rest exactly when an update of any of its wires leaves
/// the world as it is.
pub proof fn lemma_rest_is_fixed_point(m: WorldModel)
    ensures
        m.wires_settled() <==> forall|p: BlockPos|
            m.is_wire_at(p) ==> #[trigger] m.wire_updated(p, m.cells[p]) == m,
{
    if m.wires_settled() {
        assert forall|p: BlockPos| m.is_wire_at(p) implies #[trigger] m.wire_updated(
            p,
            m.cells[p],
        ) == m by {
            assert(m.power_at(p) == m.wire_power(p, m.cells[p]));
        }
    }
    if forall|p: BlockPos| m.is_wire_at(p) ==> #[trigger] m.wire_updated(p, m.cells[p]) == m {
        assert forall|p: BlockPos| m.is_wire_at(p) implies #[trigger] m.power_at(p)
            == m.wire_power(p, m.cells[p]) by {
            let bs = m.cells[p];
            let power = m.wire_power(p, bs);
            if m.power_at(p) != power {
                let next = RedstoneWireBlock::spec_with_power(bs, power);
                assert(m.wire_updated(p, bs) == m);
                assert(m.wire_updated(p, bs).cells[p] == next);
                let id = (bs.0 - RedstoneWireBlock::ID_BASE) as int;
                lemma_wire_digit_written(id, 9, 16, power as int);
            }
        }
    }
}

/// The power of a wire state lies between 0 and 15.
proof fn lemma_power_range(bs: BlockState)
    requires
        RedstoneWireBlock::spec_is_redstone_wire(bs),
    ensures
        0 <= RedstoneWireState::spec_from(bs).spec_power() <= 15,
{
}

/// What the wires on the sides give is at least what each side's wire
/// gives.
proof fn lemma_wire_power_covers(m: WorldModel, pos: BlockPos, bs: BlockState, upto: int, i: int)
    requires
        0 <= i < upto <= 4,
    ensures
        m.wire_power_upto(pos, bs, upto) >= m.wire_power_from(pos, bs, all_horizontals()[i]),
    decreases upto,
{
    if i < upto - 1 {
        lemma_wire_power_covers(m, pos, bs, upto - 1, i);
    }
}

/// What the wires on the sides give comes from one of them, unless it is
/// nothing.
proof fn lemma_wire_power_witness(m: WorldModel, pos: BlockPos, bs: BlockState, upto: int) -> (i:
    int)
    requires
        0 <= upto <= 4,
        m.wire_power_upto(pos, bs, upto) > 0,
    ensures
        0 <= i < upto,
        m.wire_power_from(pos, bs, all_horizontals()[i]) == m.wire_power_upto(pos, bs, upto),
    decreases upto,
{
    let last = m.wire_power_from(pos, bs, all_horizontals()[upto - 1]);
    if last >= m.wire_power_upto(pos, bs, upto - 1) {
        upto - 1
    } else {
        lemma_wire_power_witness(m, pos, bs, upto - 1)
    }
}

/// What the wires on the sides give is less than 15.
proof fn lemma_wire_power_bound(m: WorldModel, pos: BlockPos, bs: BlockState, upto: int)
    requires
        0 <= upto <= 4,
    ensures
        m.wire_power_upto(pos, bs, upto) <= 14,
    decreases upto,
{
    if upto > 0 {
        lemma_wire_power_bound(m, pos, bs, upto - 1);
    }
}

/// A wire that gets power from one side has a wire at the end of that
/// side's connection, with one level more.
proof fn lemma_wire_power_source(m: WorldModel, pos: BlockPos, bs: BlockState, h: HorizontalDirection) -> (u:
    BlockPos)
    requires
        m.wire_power_from(pos, bs, h) > 0,
    ensures
        m.wire_end(pos, RedstoneWireState::spec_from(bs).spec_connection(h), h) == Some(u),
        m.is_wire_at(u),
        m.power_at(u) == m.wire_power_from(pos, bs, h) + 1,
{
    let u = m.wire_end(pos, RedstoneWireState::spec_from(bs).spec_connection(h), h)->0;
    u
}

/// A wire that gets power from one wire alone has that wire's power less
/// one: if no block gives it a signal and no other side's wire gives it
/// power, its power is what the wire at the end of side `h` passes on.
pub proof fn lemma_wire_fed_by_one_wire(
    m: WorldModel,
    pos: BlockPos,
    bs: BlockState,
    h: HorizontalDirection,
    from: BlockPos,
)
    requires
        m.strong_to_upto(pos, 6) == 0,
        m.side_power_upto(pos, bs, 4) == 0,
        forall|other: HorizontalDirection|
            other != h ==> #[trigger] m.wire_power_from(pos, bs, other) == 0,
        m.wire_end(pos, RedstoneWireState::spec_from(bs).spec_connection(h), h) == Some(from),
        m.is_wire_at(from),
    ensures
        m.wire_power(pos, bs) == passed_on(m.power_at(from)),
{
    let wires = m.wire_power_upto(pos, bs, 4);
    let i: int = match h {
        HorizontalDirection::NORTH => 0,
        HorizontalDirection::SOUTH => 1,
        HorizontalDirection::WEST => 2,
        HorizontalDirection::EAST => 3,
    };
    assert(all_horizontals()[i] == h);
    lemma_wire_power_covers(m, pos, bs, 4, i);
    lemma_wire_power_bound(m, pos, bs, 4);
    if wires > 0 {
        let k = lemma_wire_power_witness(m, pos, bs, 4);
        assert(all_horizontals()[k] == h);
    }
}

/// In a world at rest a wire has at least the power less one of every
/// wire that it connects to, so along a run of wires the power falls by
/// one at most from wire to wire.
pub proof fn lemma_settled_wire_follows(
    m: WorldModel,
    pos: BlockPos,
    h: HorizontalDirection,
    from: BlockPos,
)
    requires
        m.wires_settled(),
        m.is_wire_at(pos),
        m.wire_end(pos, RedstoneWireState::spec_from(m.cells[pos]).spec_connection(h), h) == Some(
            from,
        ),
        m.is_wire_at(from),
    ensures
        m.power_at(pos) >= passed_on(m.power_at(from)),
{
    let bs = m.cells[pos];
    let i: int = match h {
        HorizontalDirection::NORTH => 0,
        HorizontalDirection::SOUTH => 1,
        HorizontalDirection::WEST => 2,
        HorizontalDirection::EAST => 3,
    };
    assert(all_horizontals()[i] == h);
    lemma_wire_power_covers(m, pos, bs, 4, i);
    lemma_wire_power_bound(m, pos, bs, 4);
    assert(m.power_at(pos) == m.wire_power(pos, bs));
}

/// In worlds at rest, the claim holds for every wire whose power in `a`
/// is at least `15 - level`.
proof fn lemma_settled_level(a: WorldModel, b: WorldModel, p: BlockPos, level: nat)
    requires
        a.wires_settled(),
        b.wires_settled(),
        same_wiring(a, b),
        wire_inputs_le(a, b),
        a.is_wire_at(p),
        a.power_at(p) >= 15 - level,
    ensures
        a.power_at(p) <= b.power_at(p),
    decreases level,
{
    let sa = a.cells[p];
    let sb = b.cells[p];
    assert(b.is_wire_at(p));
    let pa = a.power_at(p);
    assert(pa == a.wire_power(p, sa));
    assert(b.power_at(p) == b.wire_power(p, sb));
    let strong_a = a.strong_to_upto(p, 6);
    let side_a = a.side_power_upto(p, sa, 4);
    let wires_a = a.wire_power_upto(p, sa, 4);
    let wires_b = b.wire_power_upto(p, sb, 4);
    assert(strong_a <= b.strong_to_upto(p, 6) && side_a <= b.side_power_upto(p, sb, 4));
    lemma_wire_power_bound(a, p, sa, 4);
    if pa > 0 && strong_a < pa && side_a < pa {
        assert(wires_a == pa);
        let i = lemma_wire_power_witness(a, p, sa, 4);
        let h = all_horizontals()[i];
        let u = lemma_wire_power_source(a, p, sa, h);
        assert(RedstoneWireState::spec_from(sa).spec_connection(h) == RedstoneWireState::spec_from(
            sb,
        ).spec_connection(h));
        let side = p.spec_offset_dir(h.spec_direction());
        assert(a.is_wire_at(side) == b.is_wire_at(side));
        assert(a.is_wire_at(u) == b.is_wire_at(u));
        let connection = RedstoneWireState::spec_from(sb).spec_connection(h);
        assert(b.wire_end(p, connection, h) == Some(u));
        assert(level > 0);
        lemma_settled_level(a, b, u, (level - 1) as nat);
        assert(b.wire_power_from(p, sb, h) >= pa) by {
            lemma_power_range(b.cells[u]);
        }
        lemma_wire_power_covers(b, p, sb, 4, i);
        assert(wires_b >= pa);
    }
}

impl RedstoneWireBlock {
    /// Whether the block at a position is a redstone wire.
    pub fn is_wire_at<R: RedstoneOverride>(world: &LocalWorld<R>, pos: BlockPos) -> (b: bool)
        requires
            world.wf(),
        ensures
            b == world@.is_wire_at(pos),
    {
        match world.get_block_state(pos) {
            Ok(bs) => RedstoneWireBlock::is_redstone_wire(bs),
            Err(_) => false,
        }
    }

    /// Whether the block at a position conducts redstone power.
    pub fn is_conductor_at<R: RedstoneOverride>(world: &LocalWorld<R>, pos: BlockPos) -> (b: bool)
        requires
            world.wf(),
        ensures
            b == world@.is_conductor_at(pos),
    {
        match world.get_block_state(pos) {
            Ok(bs) => world.is_redstone_conductor(bs),
            Err(_) => false,
        }
    }

    /// How a wire at `pos` reaches out on one side.
    pub fn get_connection_type_for_side<R: RedstoneOverride>(
        world: &LocalWorld<R>,
        pos: BlockPos,
        direction: HorizontalDirection,
        is_up_blocked: bool,
    ) -> (c: Connection)
        requires
            world.wf(),
        ensures
            c == world@.wire_connection(pos, direction, is_up_blocked),
    {
        let side = pos.offset_dir(direction.direction());
        if !is_up_blocked {
            if RedstoneWireBlock::is_wire_at(world, side.offset_dir(Direction::UP)) {
                return Connection::UP;
            }
        }
        let side_blockstate = world.get_block_state(side);
        let side_want_connection = match side_blockstate {
            Ok(blockstate) => world.is_attract_redstone_wire_connection(
                blockstate,
                direction.opposite(),
            ),
            Err(_) => false,
        };
        if side_want_connection {
            return Connection::SIDE;
        }
        let down_blocked = match side_blockstate {
            Ok(blockstate) => world.is_redstone_conductor(blockstate),
            Err(_) => false,
        };
        if !down_blocked {
            if RedstoneWireBlock::is_wire_at(world, side.offset_dir(Direction::DOWN)) {
                return Connection::SIDE;
            }
        }
        Connection::NONE
    }

    /// The state of a wire at `pos`, now in state `old_state`, with its
    /// shape brought up to date.
    pub fn update_state_shape<R: RedstoneOverride>(
        world: &LocalWorld<R>,
        pos: BlockPos,
        old_state: BlockState,
    ) -> (next: BlockState)
        requires
            world.wf(),
            RedstoneWireBlock::spec_is_redstone_wire(old_state),
        ensures
            next == world@.wire_shape(pos, old_state),
            RedstoneWireBlock::spec_is_redstone_wire(next),
            RedstoneWireState::spec_from(next).spec_power() == RedstoneWireState::spec_from(
                old_state,
            ).spec_power(),
    {
        let is_up_blocked = RedstoneWireBlock::is_conductor_at(
            world,
            pos.offset_dir(Direction::UP),
        );
        let north = RedstoneWireBlock::get_connection_type_for_side(
            world,
            pos,
            HorizontalDirection::NORTH,
            is_up_blocked,
        );
        let south = RedstoneWireBlock::get_connection_type_for_side(
            world,
            pos,
            HorizontalDirection::SOUTH,
            is_up_blocked,
        );
        let west = RedstoneWireBlock::get_connection_type_for_side(
            world,
            pos,
            HorizontalDirection::WEST,
            is_up_blocked,
        );
        let east = RedstoneWireBlock::get_connection_type_for_side(
            world,
            pos,
            HorizontalDirection::EAST,
            is_up_blocked,
        );
        RedstoneWireBlock::shaped(old_state, north, south, west, east)
    }

    /// The power that a wire at `pos` in state `bs` should have.
    pub fn calculate_power<R: RedstoneOverride>(
        world: &LocalWorld<R>,
        pos: BlockPos,
        bs: BlockState,
    ) -> (power: u8)
        requires
            world.wf(),
            RedstoneWireBlock::spec_is_redstone_wire(bs),
        ensures
            power == world@.wire_power(pos, bs),
            power <= 15,
    {
        let state = RedstoneWireState::from(bs);
        let mut strong: u8 = 0;
        let mut i: u8 = 0;
        while i < 6
            invariant
                i <= 6,
                world.wf(),
                strong == world@.strong_to_upto(pos, i as int),
            decreases 6 - i,
        {
            let d = match Direction::from_index(i) {
                Some(d) => d,
                None => Direction::EAST,
            };
            assert(d == all_directions()[i as int]);
            let from = world.get_strong_signal(pos.offset_dir(d), d.opposite());
            if from > strong {
                strong = from;
            }
            i = i + 1;
        }
        if strong >= 15 {
            return 15;
        }
        let mut side: u8 = 0;
        let mut k: u8 = 0;
        while k < 4
            invariant
                k <= 4,
                world.wf(),
                state == RedstoneWireState::spec_from(bs),
                side == world@.side_power_upto(pos, bs, k as int),
            decreases 4 - k,
        {
            let h = HorizontalDirection::from_index(k);
            assert(h == all_horizontals()[k as int]);
            if state.connection(h) == Connection::SIDE {
                let at = pos.offset_dir(h.direction());
                if let Ok(neighbor) = world.get_block_state(at) {
                    if !RedstoneWireBlock::is_redstone_wire(neighbor) {
                        let from = world.block_signal(at, neighbor, h.direction().opposite());
                        if from > side {
                            side = from;
                        }
                    }
                }
            }
            k = k + 1;
        }
        if side >= 15 {
            return 15;
        }
        let mut wire: u8 = 0;
        let mut k: u8 = 0;
        while k < 4
            invariant
                k <= 4,
                world.wf(),
                state == RedstoneWireState::spec_from(bs),
                wire == world@.wire_power_upto(pos, bs, k as int),
                wire <= 15,
            decreases 4 - k,
        {
            let h = HorizontalDirection::from_index(k);
            assert(h == all_horizontals()[k as int]);
            let side_pos = pos.offset_dir(h.direction());
            let wire_pos = match state.connection(h) {
                Connection::SIDE => if RedstoneWireBlock::is_wire_at(world, side_pos) {
                    Some(side_pos)
                } else if !RedstoneWireBlock::is_conductor_at(world, side_pos) {
                    Some(side_pos.offset_dir(Direction::DOWN))
                } else {
                    None
                },
                Connection::UP => Some(side_pos.offset_dir(Direction::UP)),
                Connection::NONE => None,
            };
            assert(wire_pos == world@.wire_end(pos, state.spec_connection(h), h));
            if let Some(wire_pos) = wire_pos {
                if let Ok(neighbor) = world.get_block_state(wire_pos) {
                    if RedstoneWireBlock::is_redstone_wire(neighbor) {
                        let theirs = RedstoneWireState::from(neighbor).power();
                        let from: u8 = if theirs >= 1 {
                            (theirs - 1) as u8
                        } else {
                            0
                        };
                        if from > wire {
                            wire = from;
                        }
                    }
                }
            }
            k = k + 1;
        }
        let mut power = strong;
        if side > power {
            power = side;
        }
        if wire > power {
            power = wire;
        }
        power
    }
}

/// The offset of the position numbered `k` among the 125 positions of the
/// cube of side 5 around a wire: `x` slowest, `z` fastest.
pub open spec fn wire_offset(k: int) -> (int, int, int) {
    (k / 25 - 2, k / 5 % 5 - 2, k % 5 - 2)
}

/// Whether the position numbered `k` is one that a wire tells of its
/// changes: at most two steps away, the wire's own position left out.
pub open spec fn wire_in_reach(k: int) -> bool {
    let (x, y, z) = wire_offset(k);
    let steps = (if x < 0 { -x } else { x }) + (if y < 0 { -y } else { y }) + (if z < 0 {
        -z
    } else {
        z
    });
    steps <= 2 && steps != 0
}

/// The positions within reach of a wire at `pos` among the first `upto`
/// of the cube around it, in their order.
pub open spec fn wire_positions_upto(pos: BlockPos, upto: int) -> Seq<BlockPos>
    decreases upto,
{
    if upto <= 0 {
        Seq::empty()
    } else {
        let (x, y, z) = wire_offset(upto - 1);
        wire_positions_upto(pos, upto - 1) + if wire_in_reach(upto - 1) {
            seq![pos.spec_offset(x, y, z)]
        } else {
            Seq::<BlockPos>::empty()
        }
    }
}

/// The 24 positions that a wire at `pos` tells of its changes.
pub open spec fn wire_update_positions(pos: BlockPos) -> Seq<BlockPos> {
    wire_positions_upto(pos, 125)
}

/// How many wires deep a change of shape is followed.
pub const SHAPE_UPDATE_DEPTH: u8 = 2;

impl WorldModel {
    /// The world after the block at `pos` has looked at its shape: a wire
    /// whose shape is out of date takes its new shape, has the blocks
    /// within its reach look at their shapes, `depth - 1` wires deep, and
    /// queues updates for them. With depth 0 nothing happens.
    pub open spec fn shape_updated(self, pos: BlockPos, depth: nat) -> WorldModel
        decreases depth, 0int, 0int,
    {
        if depth == 0 {
            self
        } else {
            match self.block(pos) {
                Some(bs) => if self.registry.spec_kind_of(bs) == BlockKind::RedstoneWire
                    && self.wire_shape(pos, bs) != bs {
                    self.set_block(pos, self.wire_shape(pos, bs)).wire_neighbors_shape_updated(
                        pos,
                        (depth - 1) as nat,
                        125,
                    ).push_updates(wire_update_positions(pos))
                } else {
                    self
                },
                None => self,
            }
        }
    }

    /// The world after the positions within reach of a wire at `pos`
    /// among the first `upto` of the cube around it have looked at their
    /// shapes, one after the other.
    pub open spec fn wire_neighbors_shape_updated(
        self,
        pos: BlockPos,
        depth: nat,
        upto: int,
    ) -> WorldModel
        decreases depth, 1int, upto,
    {
        if upto <= 0 {
            self
        } else {
            let before = self.wire_neighbors_shape_updated(pos, depth, upto - 1);
            let (x, y, z) = wire_offset(upto - 1);
            if wire_in_reach(upto - 1) {
                before.shape_updated(pos.spec_offset(x, y, z), depth)
            } else {
                before
            }
        }
    }

    /// The world after the neighbours of `pos` in the first `upto`
    /// directions have looked at their shapes, one after the other.
    pub open spec fn neighbors_shape_updated(self, pos: BlockPos, depth: nat, upto: int) -> WorldModel
        decreases upto,
    {
        if upto <= 0 {
            self
        } else {
            self.neighbors_shape_updated(pos, depth, upto - 1).shape_updated(
                pos.spec_offset_dir(all_directions()[upto - 1]),
                depth,
            )
        }
    }

    /// The world after a wire was put at `pos`: the blocks within its
    /// reach look at their shapes, then updates are queued for the wire
    /// and for the blocks within its reach.
    pub open spec fn wire_placed(self, pos: BlockPos) -> WorldModel {
        self.wire_neighbors_shape_updated(pos, SHAPE_UPDATE_DEPTH as nat, 125).push_update(
            pos,
        ).push_updates(wire_update_positions(pos))
    }

    /// The world after a wire was taken from `pos`: the blocks within its
    /// reach look at their shapes and updates are queued for them.
    pub open spec fn wire_destroyed(self, pos: BlockPos) -> WorldModel {
        self.wire_neighbors_shape_updated(pos, SHAPE_UPDATE_DEPTH as nat, 125).push_updates(
            wire_update_positions(pos),
        )
    }

    /// The world after a player's click on the wire in state `bs` at
    /// `pos`: a dot becomes a cross and a cross a dot, and updates are
    /// queued for the blocks within the wire's reach.
    pub open spec fn wire_used(self, pos: BlockPos, bs: BlockState) -> WorldModel {
        let next = RedstoneWireBlock::spec_used(bs);
        if next != bs && self.block(pos) is Some {
            self.set_block(pos, next).push_updates(wire_update_positions(pos))
        } else {
            self
        }
    }

    /// The world after the wire in state `bs` at `pos` was updated: if its
    /// power is not what arrives at it, it takes that power and updates
    /// are queued for the blocks within its reach.
    pub open spec fn wire_updated(self, pos: BlockPos, bs: BlockState) -> WorldModel {
        let power = self.wire_power(pos, bs);
        if RedstoneWireState::spec_from(bs).spec_power() != power && self.block(pos) is Some {
            self.set_block(pos, RedstoneWireBlock::spec_with_power(bs, power)).push_updates(
                wire_update_positions(pos),
            )
        } else {
            self
        }
    }
}

/// Has the block at `pos` look at its shape, following changes `depth`
/// wires deep.
pub fn update_block_shape<R: RedstoneOverride>(world: &mut LocalWorld<R>, pos: BlockPos, depth: u8)
    requires
        old(world).wf(),
    ensures
        final(world).wf(),
        final(world).same_frame(old(world)),
        final(world)@ == old(world)@.shape_updated(pos, depth as nat),
    decreases depth, 0int, 0int,
{
    if depth == 0 {
        return ;
    }
    if let Ok(blockstate) = world.get_block_state(pos) {
        match world.kind_of(blockstate) {
            BlockKind::RedstoneWire => {
                let next = RedstoneWireBlock::update_state_shape(world, pos, blockstate);
                if next != blockstate {
                    let _ = world.set_block_state(pos, next);
                    wire_update_neighbors_shape(world, pos, depth - 1);
                    RedstoneWireBlock::update_neighbors(world, pos);
                }
            },
            _ => {},
        }
    }
}

/// Has the blocks within reach of a wire at `pos` look at their shapes.
fn wire_update_neighbors_shape<R: RedstoneOverride>(
    world: &mut LocalWorld<R>,
    pos: BlockPos,
    depth: u8,
)
    requires
        old(world).wf(),
    ensures
        final(world).wf(),
        final(world).same_frame(old(world)),
        final(world)@ == old(world)@.wire_neighbors_shape_updated(pos, depth as nat, 125),
    decreases depth, 1int, 0int,
{
    let mut k: u8 = 0;
    while k < 125
        invariant
            k <= 125,
            world.wf(),
            world.same_frame(old(world)),
            world@ == old(world)@.wire_neighbors_shape_updated(pos, depth as nat, k as int),
        decreases 125 - k,
    {
        if let Some(at) = wire_position(pos, k) {
            update_block_shape(world, at, depth);
        }
        k = k + 1;
    }
}

impl<R: RedstoneOverride> LocalWorld<R> {
    /// Has the block at `pos` look at its shape.
    pub fn update_block_shape(&mut self, pos: BlockPos)
        requires
            old(self).wf(),
        ensures
            final(self).wf(),
            final(self).same_frame(old(self)),
            final(self)@ == old(self)@.shape_updated(pos, SHAPE_UPDATE_DEPTH as nat),
    {
        update_block_shape(self, pos, SHAPE_UPDATE_DEPTH)
    }

    /// Has the six neighbours of `pos` look at their shapes.
    pub fn update_neighbors_shape(&mut self, pos: BlockPos)
        requires
            old(self).wf(),
        ensures
            final(self).wf(),
            final(self).same_frame(old(self)),
            final(self)@ == old(self)@.neighbors_shape_updated(pos, SHAPE_UPDATE_DEPTH as nat, 6),
    {
        let mut i: u8 = 0;
        while i < 6
            invariant
                i <= 6,
                self.wf(),
                self.same_frame(old(self)),
                self@ == old(self)@.neighbors_shape_updated(
                    pos,
                    SHAPE_UPDATE_DEPTH as nat,
                    i as int,
                ),
            decreases 6 - i,
        {
            let d = match Direction::from_index(i) {
                Some(d) => d,
                None => Direction::EAST,
            };
            assert(d == all_directions()[i as int]);
            update_block_shape(self, pos.offset_dir(d), SHAPE_UPDATE_DEPTH);
            i = i + 1;
        }
    }
}

/// The position numbered `k` of the cube around a wire, if the wire tells
/// it of its changes.
fn wire_position(pos: BlockPos, k: u8) -> (r: Option<BlockPos>)
    requires
        k < 125,
    ensures
        r == (if wire_in_reach(k as int) {
            Some(pos.spec_offset(wire_offset(k as int).0, wire_offset(k as int).1, wire_offset(k as int).2))
        } else {
            None::<BlockPos>
        }),
{
    let x: i16 = (k / 25) as i16 - 2;
    let y: i16 = (k / 5 % 5) as i16 - 2;
    let z: i16 = (k % 5) as i16 - 2;
    let ax = if x < 0 {
        -x
    } else {
        x
    };
    let ay = if y < 0 {
        -y
    } else {
        y
    };
    let az = if z < 0 {
        -z
    } else {
        z
    };
    let steps = ax + ay + az;
    if steps <= 2 && steps != 0 {
        Some(pos.offset(x, y, z))
    } else {
        None
    }
}

impl RedstoneWireBlock {
    /// Queues updates for the blocks within reach of a wire at `pos`.
    pub fn update_neighbors<R: RedstoneOverride>(world: &mut LocalWorld<R>, pos: BlockPos)
        requires
            old(world).wf(),
        ensures
            final(world).wf(),
            final(world).same_frame(old(world)),
            final(world)@ == old(world)@.push_updates(wire_update_positions(pos)),
    {
        let mut k: u8 = 0;
        assert(world@ =~= old(world)@.push_updates(wire_positions_upto(pos, 0)));
        while k < 125
            invariant
                k <= 125,
                world.wf(),
                world.same_frame(old(world)),
                world@ == old(world)@.push_updates(wire_positions_upto(pos, k as int)),
            decreases 125 - k,
        {
            if let Some(at) = wire_position(pos, k) {
                world.update_block(at);
            }
            assert(world@ =~= old(world)@.push_updates(wire_positions_upto(pos, k + 1)));
            k = k + 1;
        }
    }

    /// Has the blocks within reach of a wire at `pos` look at their
    /// shapes.
    pub fn update_neighbors_shape<R: RedstoneOverride>(world: &mut LocalWorld<R>, pos: BlockPos)
        requires
            old(world).wf(),
        ensures
            final(world).wf(),
            final(world).same_frame(old(world)),
            final(world)@ == old(world)@.wire_neighbors_shape_updated(
                pos,
                SHAPE_UPDATE_DEPTH as nat,
                125,
            ),
    {
        wire_update_neighbors_shape(world, pos, SHAPE_UPDATE_DEPTH)
    }

    /// The state of a wire put at `pos`: the default state with its shape
    /// brought up to date.
    pub fn get_state_for_placement<R: RedstoneOverride>(world: &LocalWorld<R>, pos: BlockPos) -> (bs:
        BlockState)
        requires
            world.wf(),
        ensures
            bs == world@.wire_shape(pos, RedstoneWireBlock::spec_default_state()),
            RedstoneWireBlock::spec_is_redstone_wire(bs),
    {
        RedstoneWireBlock::update_state_shape(world, pos, RedstoneWireBlock::default_state())
    }

    /// What happens when a wire was put at `pos`.
    pub fn on_placed<R: RedstoneOverride>(world: &mut LocalWorld<R>, pos: BlockPos)
        requires
            old(world).wf(),
        ensures
            final(world).wf(),
            final(world).same_frame(old(world)),
            final(world)@ == old(world)@.wire_placed(pos),
    {
        RedstoneWireBlock::update_neighbors_shape(world, pos);
        world.update_block(pos);
        RedstoneWireBlock::update_neighbors(world, pos);
    }

    /// What happens when a wire was taken from `pos`.
    pub fn on_destroyed<R: RedstoneOverride>(world: &mut LocalWorld<R>, pos: BlockPos)
        requires
            old(world).wf(),
        ensures
            final(world).wf(),
            final(world).same_frame(old(world)),
            final(world)@ == old(world)@.wire_destroyed(pos),
    {
        RedstoneWireBlock::update_neighbors_shape(world, pos);
        RedstoneWireBlock::update_neighbors(world, pos);
    }

    /// What happens when a player clicks on the wire in state
    /// `blockstate` at `pos` with an empty hand.
    pub fn on_use_without_item<R: RedstoneOverride>(
        world: &mut LocalWorld<R>,
        pos: BlockPos,
        blockstate: BlockState,
    )
        requires
            old(world).wf(),
            RedstoneWireBlock::spec_is_redstone_wire(blockstate),
        ensures
            final(world).wf(),
            final(world).same_frame(old(world)),
            final(world)@ == old(world)@.wire_used(pos, blockstate),
    {
        let next = RedstoneWireBlock::used(blockstate);
        if next != blockstate {
            if let Ok(_) = world.set_block_state(pos, next) {
                RedstoneWireBlock::update_neighbors(world, pos);
            }
        }
    }

    /// Brings the power of the wire in state `blockstate` at `pos` up to
    /// date.
    pub fn update<R: RedstoneOverride>(
        world: &mut LocalWorld<R>,
        pos: BlockPos,
        blockstate: BlockState,
    )
        requires
            old(world).wf(),
            RedstoneWireBlock::spec_is_redstone_wire(blockstate),
        ensures
            final(world).wf(),
            final(world).same_frame(old(world)),
            final(world)@ == old(world)@.wire_updated(pos, blockstate),
    {
        let state = RedstoneWireState::from(blockstate);
        let power = RedstoneWireBlock::calculate_power(world, pos, blockstate);
        if state.power() != power as i8 {
            let next = RedstoneWireBlock::with_power(blockstate, power);
            if let Ok(_) = world.set_block_state(pos, next) {
                RedstoneWireBlock::update_neighbors(world, pos);
            }
        }
    }

    /// Brings the shape of the wire at `pos` up to date.
    pub fn update_shape<R: RedstoneOverride>(world: &mut LocalWorld<R>, pos: BlockPos)
        requires
            old(world).wf(),
        ensures
            final(world).wf(),
            final(world).same_frame(old(world)),
            final(world)@ == old(world)@.shape_updated(pos, SHAPE_UPDATE_DEPTH as nat),
    {
        update_block_shape(world, pos, SHAPE_UPDATE_DEPTH)
    }
}

} // verus!
