//! The six axis-aligned directions and the four horizontal ones.

use vstd::prelude::*;

verus! {

/// One of the six faces of a block, in wire order.
#[derive(Debug, Eq, PartialEq, Copy, Clone, Hash, Structural)]
pub enum Direction {
    DOWN,
    UP,
    NORTH,
    SOUTH,
    WEST,
    EAST,
}

/// One of the four horizontal directions, in property order.
#[derive(Debug, Eq, PartialEq, Copy, Clone, Hash, Structural)]
pub enum HorizontalDirection {
    NORTH,
    SOUTH,
    WEST,
    EAST,
}

impl Direction {
    /// How many directions there are.
    pub const COUNT: u8 = 6;

    /// The position of this direction in wire order.
    pub open spec fn spec_index(self) -> u8 {
        match self {
            Direction::DOWN => 0,
            Direction::UP => 1,
            Direction::NORTH => 2,
            Direction::SOUTH => 3,
            Direction::WEST => 4,
            Direction::EAST => 5,
        }
    }

    /// The direction at a position in wire order; positions past the end
    /// stand for `EAST`.
    pub open spec fn spec_from_index(value: u8) -> Direction {
        if value == 0 {
            Direction::DOWN
        } else if value == 1 {
            Direction::UP
        } else if value == 2 {
            Direction::NORTH
        } else if value == 3 {
            Direction::SOUTH
        } else if value == 4 {
            Direction::WEST
        } else {
            Direction::EAST
        }
    }

    /// The unit step along this direction, as `(dx, dy, dz)`.
    pub open spec fn spec_normal(self) -> (int, int, int) {
        match self {
            Direction::DOWN => (0, -1, 0),
            Direction::UP => (0, 1, 0),
            Direction::NORTH => (0, 0, -1),
            Direction::SOUTH => (0, 0, 1),
            Direction::WEST => (-1, 0, 0),
            Direction::EAST => (1, 0, 0),
        }
    }

    pub open spec fn spec_opposite(self) -> Direction {
        match self {
            Direction::DOWN => Direction::UP,
            Direction::UP => Direction::DOWN,
            Direction::NORTH => Direction::SOUTH,
            Direction::SOUTH => Direction::NORTH,
            Direction::WEST => Direction::EAST,
            Direction::EAST => Direction::WEST,
        }
    }

    pub fn index(self) -> (i: u8)
        ensures
            i == self.spec_index(),
            i < Direction::COUNT,
    {
        match self {
            Direction::DOWN => 0,
            Direction::UP => 1,
            Direction::NORTH => 2,
            Direction::SOUTH => 3,
            Direction::WEST => 4,
            Direction::EAST => 5,
        }
    }

    /// The direction with the given index, or nothing for an index that no
    /// direction has.
    pub fn from_index(value: u8) -> (d: Option<Direction>)
        ensures
            value < Direction::COUNT ==> d == Some(Direction::spec_from_index(value)),
            value >= Direction::COUNT ==> d is None,
            d matches Some(dir) ==> dir.spec_index() == value,
    {
        match value {
            0 => Some(Direction::DOWN),
            1 => Some(Direction::UP),
            2 => Some(Direction::NORTH),
            3 => Some(Direction::SOUTH),
            4 => Some(Direction::WEST),
            5 => Some(Direction::EAST),
            _ => None,
        }
    }

    pub fn name(self) -> (s: &'static str)
        ensures
            s@ == (match self {
                Direction::DOWN => "down"@,
                Direction::UP => "up"@,
                Direction::NORTH => "north"@,
                Direction::SOUTH => "south"@,
                Direction::WEST => "west"@,
                Direction::EAST => "east"@,
            }),
    {
        match self {
            Direction::DOWN => "down",
            Direction::UP => "up",
            Direction::NORTH => "north",
            Direction::SOUTH => "south",
            Direction::WEST => "west",
            Direction::EAST => "east",
        }
    }

    pub fn normal_i16(self) -> (n: (i16, i16, i16))
        ensures
            (n.0 as int, n.1 as int, n.2 as int) == self.spec_normal(),
    {
        match self {
            Direction::DOWN => (0, -1, 0),
            Direction::UP => (0, 1, 0),
            Direction::NORTH => (0, 0, -1),
            Direction::SOUTH => (0, 0, 1),
            Direction::WEST => (-1, 0, 0),
            Direction::EAST => (1, 0, 0),
        }
    }

    pub fn opposite(self) -> (d: Direction)
        ensures
            d == self.spec_opposite(),
    {
        match self {
            Direction::DOWN => Direction::UP,
            Direction::UP => Direction::DOWN,
            Direction::NORTH => Direction::SOUTH,
            Direction::SOUTH => Direction::NORTH,
            Direction::WEST => Direction::EAST,
            Direction::EAST => Direction::WEST,
        }
    }

    /// The horizontal direction equal to this one, if it is horizontal.
    pub open spec fn spec_horizontal(self) -> Option<HorizontalDirection> {
        match self {
            Direction::NORTH => Some(HorizontalDirection::NORTH),
            Direction::SOUTH => Some(HorizontalDirection::SOUTH),
            Direction::WEST => Some(HorizontalDirection::WEST),
            Direction::EAST => Some(HorizontalDirection::EAST),
            _ => None,
        }
    }

    pub fn horizontal(self) -> (h: Option<HorizontalDirection>)
        ensures
            h == self.spec_horizontal(),
    {
        match self {
            Direction::NORTH => Some(HorizontalDirection::NORTH),
            Direction::SOUTH => Some(HorizontalDirection::SOUTH),
            Direction::WEST => Some(HorizontalDirection::WEST),
            Direction::EAST => Some(HorizontalDirection::EAST),
            _ => None,
        }
    }
}

impl HorizontalDirection {
    /// How many horizontal directions there are.
    pub const COUNT: u8 = 4;

    pub open spec fn spec_index(self) -> u8 {
        match self {
            HorizontalDirection::NORTH => 0,
            HorizontalDirection::SOUTH => 1,
            HorizontalDirection::WEST => 2,
            HorizontalDirection::EAST => 3,
        }
    }

    /// The horizontal direction at a position in property order; positions
    /// past the end stand for `EAST`.
    pub open spec fn spec_from_index(value: u8) -> HorizontalDirection {
        if value == 0 {
            HorizontalDirection::NORTH
        } else if value == 1 {
            HorizontalDirection::SOUTH
        } else if value == 2 {
            HorizontalDirection::WEST
        } else {
            HorizontalDirection::EAST
        }
    }

    pub open spec fn spec_direction(self) -> Direction {
        match self {
            HorizontalDirection::NORTH => Direction::NORTH,
            HorizontalDirection::SOUTH => Direction::SOUTH,
            HorizontalDirection::WEST => Direction::WEST,
            HorizontalDirection::EAST => Direction::EAST,
        }
    }

    /// The next direction clockwise, seen from above.
    pub open spec fn spec_cw(self) -> HorizontalDirection {
        match self {
            HorizontalDirection::NORTH => HorizontalDirection::EAST,
            HorizontalDirection::EAST => HorizontalDirection::SOUTH,
            HorizontalDirection::SOUTH => HorizontalDirection::WEST,
            HorizontalDirection::WEST => HorizontalDirection::NORTH,
        }
    }

    /// The next direction counter-clockwise, seen from above.
    pub open spec fn spec_ccw(self) -> HorizontalDirection {
        match self {
            HorizontalDirection::NORTH => HorizontalDirection::WEST,
            HorizontalDirection::WEST => HorizontalDirection::SOUTH,
            HorizontalDirection::SOUTH => HorizontalDirection::EAST,
            HorizontalDirection::EAST => HorizontalDirection::NORTH,
        }
    }

    pub open spec fn spec_opposite(self) -> HorizontalDirection {
        match self {
            HorizontalDirection::NORTH => HorizontalDirection::SOUTH,
            HorizontalDirection::SOUTH => HorizontalDirection::NORTH,
            HorizontalDirection::WEST => HorizontalDirection::EAST,
            HorizontalDirection::EAST => HorizontalDirection::WEST,
        }
    }

    pub fn index(self) -> (i: u8)
        ensures
            i == self.spec_index(),
            i < HorizontalDirection::COUNT,
    {
        match self {
            HorizontalDirection::NORTH => 0,
            HorizontalDirection::SOUTH => 1,
            HorizontalDirection::WEST => 2,
            HorizontalDirection::EAST => 3,
        }
    }

    pub fn from_index(value: u8) -> (d: HorizontalDirection)
        requires
            value < HorizontalDirection::COUNT,
        ensures
            d == HorizontalDirection::spec_from_index(value),
            d.spec_index() == value,
    {
        match value {
            0 => HorizontalDirection::NORTH,
            1 => HorizontalDirection::SOUTH,
            2 => HorizontalDirection::WEST,
            _ => HorizontalDirection::EAST,
        }
    }

    pub fn direction(self) -> (d: Direction)
        ensures
            d == self.spec_direction(),
    {
        match self {
            HorizontalDirection::NORTH => Direction::NORTH,
            HorizontalDirection::EAST => Direction::EAST,
            HorizontalDirection::SOUTH => Direction::SOUTH,
            HorizontalDirection::WEST => Direction::WEST,
        }
    }

    pub fn cw(self) -> (d: HorizontalDirection)
        ensures
            d == self.spec_cw(),
    {
        match self {
            HorizontalDirection::NORTH => HorizontalDirection::EAST,
            HorizontalDirection::EAST => HorizontalDirection::SOUTH,
            HorizontalDirection::SOUTH => HorizontalDirection::WEST,
            HorizontalDirection::WEST => HorizontalDirection::NORTH,
        }
    }

    pub fn ccw(self) -> (d: HorizontalDirection)
        ensures
            d == self.spec_ccw(),
    {
        match self {
            HorizontalDirection::NORTH => HorizontalDirection::WEST,
            HorizontalDirection::WEST => HorizontalDirection::SOUTH,
            HorizontalDirection::SOUTH => HorizontalDirection::EAST,
            HorizontalDirection::EAST => HorizontalDirection::NORTH,
        }
    }

    pub fn opposite(self) -> (d: HorizontalDirection)
        ensures
            d == self.spec_opposite(),
            d.spec_direction() == self.spec_direction().spec_opposite(),
    {
        match self {
            HorizontalDirection::NORTH => HorizontalDirection::SOUTH,
            HorizontalDirection::SOUTH => HorizontalDirection::NORTH,
            HorizontalDirection::WEST => HorizontalDirection::EAST,
            HorizontalDirection::EAST => HorizontalDirection::WEST,
        }
    }
}

} // verus!
