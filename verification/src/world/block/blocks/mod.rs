//! The blocks with behaviour of their own, and the enums that their
//! properties range over.

pub mod lever;
pub mod redstone_block;
pub mod redstone_comparator;
pub mod redstone_lamp;
pub mod redstone_repeater;
pub mod redstone_torch;
pub mod redstone_wire;

use crate::direction::HorizontalDirection;
use crate::world::block::IndexedEnum;
use vstd::prelude::*;

verus! {

/// The face of the supporting block that a lever or button sits on.
#[derive(Debug, Eq, PartialEq, Copy, Clone, Hash, Structural)]
pub enum AttachFace {
    FLOOR,
    WALL,
    CEILING,
}

impl IndexedEnum for AttachFace {
    open spec fn spec_variant_count() -> u8 {
        3
    }

    open spec fn spec_to_index(self) -> u8 {
        match self {
            AttachFace::FLOOR => 0,
            AttachFace::WALL => 1,
            AttachFace::CEILING => 2,
        }
    }

    open spec fn spec_of_index(index: u8) -> Self {
        if index == 0 {
            AttachFace::FLOOR
        } else if index == 1 {
            AttachFace::WALL
        } else {
            AttachFace::CEILING
        }
    }

    fn variant_count() -> (n: u8) {
        3
    }

    fn to_index(self) -> (index: u8) {
        match self {
            AttachFace::FLOOR => 0,
            AttachFace::WALL => 1,
            AttachFace::CEILING => 2,
        }
    }

    fn of_index(index: u8) -> (v: Self) {
        match index {
            0 => AttachFace::FLOOR,
            1 => AttachFace::WALL,
            _ => AttachFace::CEILING,
        }
    }
}

impl IndexedEnum for HorizontalDirection {
    open spec fn spec_variant_count() -> u8 {
        4
    }

    open spec fn spec_to_index(self) -> u8 {
        self.spec_index()
    }

    open spec fn spec_of_index(index: u8) -> Self {
        HorizontalDirection::spec_from_index(index)
    }

    fn variant_count() -> (n: u8) {
        4
    }

    fn to_index(self) -> (index: u8) {
        self.index()
    }

    fn of_index(index: u8) -> (v: Self) {
        HorizontalDirection::from_index(index)
    }
}

} // verus!
