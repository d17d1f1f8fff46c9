//! Small value types that describe blocks.

use crate::color::RGBA8;
use vstd::prelude::*;

verus! {

/// The colour that a block shows on a map.
#[derive(Debug, Clone, Copy)]
pub struct MapColor {
    color: RGBA8,
}

impl MapColor {
    pub closed spec fn spec_color(&self) -> RGBA8 {
        self.color
    }

    pub fn new(color: RGBA8) -> (m: MapColor)
        ensures
            m.spec_color() == color,
    {
        MapColor { color }
    }

    pub fn color(&self) -> (c: RGBA8)
        ensures
            c == self.spec_color(),
    {
        self.color
    }
}

} // verus!
