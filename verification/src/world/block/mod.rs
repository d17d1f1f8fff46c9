//! Block states and the mixed-radix encoding of their properties.

pub mod blocks;
pub mod definition;
pub mod misc;
pub mod registry;

use vstd::prelude::*;

verus! {

/// The global id of one configuration of one block. State 0 is air.
#[derive(Debug, Eq, PartialEq, Clone, Copy, Structural)]
pub struct BlockState(pub u16);

/// The offset of a state inside its block's range of states.
#[derive(Debug, Eq, PartialEq, Clone, Copy, Structural)]
pub struct StateId(pub u16);

impl Default for BlockState {
    /// The air state.
    fn default() -> (r: BlockState)
        ensures
            r == BlockState(0),
    {
        BlockState(0)
    }
}

impl BlockState {
    pub open spec fn spec_is_air(self) -> bool {
        self.0 == 0
    }

    /// Whether this is the air state.
    pub fn is_air(self) -> (b: bool)
        ensures
            b == self.spec_is_air(),
    {
        self.0 == 0
    }

    /// Whether the state lies in the range of `count` states that starts
    /// at `id_base`.
    pub open spec fn spec_in_range(self, id_base: u16, count: u16) -> bool {
        id_base <= self.0 < id_base + count
    }

    pub fn in_range(self, id_base: u16, count: u16) -> (b: bool)
        ensures
            b == self.spec_in_range(id_base, count),
    {
        id_base <= self.0 && (self.0 - id_base) < count
    }
}

/// The digit of a property with `n` values and group size `group` in a
/// state id.
pub open spec fn property_digit(id: int, n: int, group: int) -> int {
    id / group % n
}

/// The state id with that digit replaced by `value`.
pub open spec fn property_with_digit(id: int, n: int, group: int, value: int) -> int {
    id + (value - property_digit(id, n, group)) * group
}

/// Reading a property and writing the same value back leaves the state id
/// as it was.
pub proof fn lemma_property_round_trip(id: int, n: int, group: int)
    ensures
        property_with_digit(id, n, group, property_digit(id, n, group)) == id,
{
}

/// After a digit is written it reads back as written, and the id stays
/// non-negative and below any multiple of the digit's span that bounded it
/// before.
pub proof fn lemma_property_write_read(id: int, n: int, group: int, value: int)
    requires
        0 <= id,
        0 < n,
        0 < group,
        0 <= value < n,
    ensures
        property_digit(property_with_digit(id, n, group, value), n, group) == value,
        0 <= property_with_digit(id, n, group, value),
        property_with_digit(id, n, group, value) % group == id % group,
        property_with_digit(id, n, group, value) / (group * n) == id / (group * n),
{
    let low = id % group;
    let q = id / group;
    let d = q % n;
    let hi = q / n;
    let next = property_with_digit(id, n, group, value);
    assert(id == q * group + low) by (nonlinear_arith)
        requires
            0 < group,
            low == id % group,
            q == id / group,
    ;
    assert(q == hi * n + d) by (nonlinear_arith)
        requires
            0 < n,
            d == q % n,
            hi == q / n,
    ;
    let q2 = hi * n + value;
    assert(next == q2 * group + low) by (nonlinear_arith)
        requires
            next == id + (value - d) * group,
            id == q * group + low,
            q == hi * n + d,
            q2 == hi * n + value,
    ;
    assert(0 <= id / group) by (nonlinear_arith)
        requires
            0 <= id,
            0 < group,
    ;
    assert(0 <= hi) by (nonlinear_arith)
        requires
            0 <= q,
            0 < n,
            hi == q / n,
    ;
    assert(0 <= hi * n) by (nonlinear_arith)
        requires
            0 <= hi,
            0 < n,
    ;
    vstd::arithmetic::div_mod::lemma_fundamental_div_mod_converse(next, group, q2, low);
    vstd::arithmetic::div_mod::lemma_fundamental_div_mod_converse(q2, n, hi, value);
    assert(0 <= q2 * group) by (nonlinear_arith)
        requires
            0 <= q2,
            0 < group,
    ;
    vstd::arithmetic::div_mod::lemma_div_denominator(next, group, n);
    vstd::arithmetic::div_mod::lemma_div_denominator(id, group, n);
}

/// An enum whose variants are numbered from zero.
pub trait IndexedEnum: Sized + Copy {
    /// How many variants there are.
    spec fn spec_variant_count() -> u8;

    /// The number of a variant.
    spec fn spec_to_index(self) -> u8;

    /// The variant with a number.
    spec fn spec_of_index(index: u8) -> Self;

    fn variant_count() -> (n: u8)
        ensures
            n == Self::spec_variant_count(),
    ;

    fn to_index(self) -> (index: u8)
        ensures
            index == self.spec_to_index(),
            index < Self::spec_variant_count(),
            Self::spec_of_index(index) == self,
    ;

    fn of_index(index: u8) -> (v: Self)
        requires
            index < Self::spec_variant_count(),
        ensures
            v == Self::spec_of_index(index),
            v.spec_to_index() == index,
    ;
}

/// A typed wrapper around the state id of one block.
pub trait SimpleBlockState: Sized + Copy {
    /// The wrapped state id.
    spec fn id(self) -> StateId;

    fn from_state_id(id: StateId) -> (s: Self)
        ensures
            s.id() == id,
    ;

    fn state_id(self) -> (id: StateId)
        ensures
            id == self.id(),
    ;

    fn set_state_id(&mut self, id: StateId)
        ensures
            final(self).id() == id,
    ;
}

/// A property with `N` values whose digit weighs `ID_GROUP_SIZE`.
pub trait Property<const N: u16, const ID_GROUP_SIZE: u16>: SimpleBlockState {
    /// The property's digit.
    fn get_raw(self) -> (raw: u16)
        requires
            N > 0,
            ID_GROUP_SIZE > 0,
        ensures
            raw == property_digit(self.id().0 as int, N as int, ID_GROUP_SIZE as int),
            raw < N,
    {
        self.state_id().0 / ID_GROUP_SIZE % N
    }

    /// Replaces the property's digit and leaves the rest of the id as it
    /// is. The new id has to fit in 16 bits.
    fn set_raw(&mut self, value: u16)
        requires
            N > 0,
            ID_GROUP_SIZE > 0,
            value < N,
            property_with_digit(
                old(self).id().0 as int,
                N as int,
                ID_GROUP_SIZE as int,
                value as int,
            ) <= u16::MAX,
        ensures
            final(self).id().0 == property_with_digit(
                old(self).id().0 as int,
                N as int,
                ID_GROUP_SIZE as int,
                value as int,
            ),
    {
        let id: i32 = self.state_id().0 as i32;
        let raw: i32 = self.get_raw() as i32;
        proof {
            lemma_property_write_read(id as int, N as int, ID_GROUP_SIZE as int, value as int);
        }
        let ghost step = (value - raw) * ID_GROUP_SIZE;
        assert(0 <= id + step <= u16::MAX);
        let next: i32 = id + (value as i32 - raw) * (ID_GROUP_SIZE as i32);
        self.set_state_id(StateId(next as u16));
    }
}

/// A whole-number property whose digit is the value less `MIN`.
pub trait IntProperty<const MIN: u8, const N: u16, const ID_GROUP_SIZE: u16>: Property<
    N,
    ID_GROUP_SIZE,
> {
    fn get(self) -> (v: i8)
        requires
            0 < N,
            MIN + N <= 128,
            ID_GROUP_SIZE > 0,
        ensures
            v == property_digit(self.id().0 as int, N as int, ID_GROUP_SIZE as int) + MIN,
    {
        (self.get_raw() + MIN as u16) as i8
    }

    fn set(&mut self, value: i8)
        requires
            0 < N,
            MIN <= value < MIN + N,
            ID_GROUP_SIZE > 0,
            property_with_digit(
                old(self).id().0 as int,
                N as int,
                ID_GROUP_SIZE as int,
                value - MIN,
            ) <= u16::MAX,
        ensures
            final(self).id().0 == property_with_digit(
                old(self).id().0 as int,
                N as int,
                ID_GROUP_SIZE as int,
                value - MIN,
            ),
    {
        self.set_raw((value as i16 - MIN as i16) as u16)
    }
}

/// A two-valued property: digit 0 is true, digit 1 false.
pub trait BoolProperty<const ID_GROUP_SIZE: u16>: Property<2, ID_GROUP_SIZE> {
    fn get(self) -> (v: bool)
        requires
            ID_GROUP_SIZE > 0,
        ensures
            v == (property_digit(self.id().0 as int, 2, ID_GROUP_SIZE as int) == 0),
    {
        self.get_raw() == 0
    }

    fn set(&mut self, value: bool)
        requires
            0 < ID_GROUP_SIZE,
            property_with_digit(
                old(self).id().0 as int,
                2,
                ID_GROUP_SIZE as int,
                if value {
                    0
                } else {
                    1
                },
            ) <= u16::MAX,
        ensures
            final(self).id().0 == property_with_digit(
                old(self).id().0 as int,
                2,
                ID_GROUP_SIZE as int,
                if value {
                    0
                } else {
                    1
                },
            ),
    {
        self.set_raw(if value { 0 } else { 1 })
    }
}

/// A property whose values are the variants of `T`, numbered in order.
pub trait EnumProperty<T: IndexedEnum, const N: u16, const ID_GROUP_SIZE: u16>: Property<
    N,
    ID_GROUP_SIZE,
> {
    fn get(self) -> (v: T)
        requires
            0 < N,
            N == T::spec_variant_count(),
            ID_GROUP_SIZE > 0,
        ensures
            v == T::spec_of_index(
                property_digit(self.id().0 as int, N as int, ID_GROUP_SIZE as int) as u8,
            ),
    {
        T::of_index(self.get_raw() as u8)
    }

    fn set(&mut self, value: T)
        requires
            0 < N,
            N == T::spec_variant_count(),
            ID_GROUP_SIZE > 0,
            property_with_digit(
                old(self).id().0 as int,
                N as int,
                ID_GROUP_SIZE as int,
                value.spec_to_index() as int,
            ) <= u16::MAX,
        ensures
            final(self).id().0 == property_with_digit(
                old(self).id().0 as int,
                N as int,
                ID_GROUP_SIZE as int,
                value.spec_to_index() as int,
            ),
    {
        self.set_raw(value.to_index() as u16)
    }
}

} // verus!
