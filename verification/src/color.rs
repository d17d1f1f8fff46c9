//! Packed 8-bit-per-channel colours.

use vstd::prelude::*;

verus! {

/// A colour packed into 32 bits: red in the lowest byte, then green, blue
/// and alpha in the highest.
#[derive(Copy, Clone, Debug)]
pub struct RGBA8(pub u32);

/// The packed word that holds the four channels.
pub open spec fn rgba_word(r: u8, g: u8, b: u8, a: u8) -> u32 {
    (r as u32) | ((g as u32) << 8) | ((b as u32) << 16) | ((a as u32) << 24)
}

impl RGBA8 {
    pub fn new(r: u8, g: u8, b: u8, a: u8) -> (c: RGBA8)
        ensures
            c.0 == rgba_word(r, g, b, a),
            c.spec_r() == r,
            c.spec_g() == g,
            c.spec_b() == b,
            c.spec_a() == a,
    {
        let word: u32 = (r as u32) | ((g as u32) << 8) | ((b as u32) << 16) | ((a as u32) << 24);
        assert(word & 0xff == r as u32 && (word >> 8) & 0xff == g as u32 && (word >> 16) & 0xff
            == b as u32 && (word >> 24) & 0xff == a as u32) by (bit_vector)
            requires
                word == (r as u32) | ((g as u32) << 8) | ((b as u32) << 16) | ((a as u32) << 24),
        ;
        RGBA8(word)
    }

    pub open spec fn spec_r(self) -> u8 {
        (self.0 & 0xff) as u8
    }

    pub open spec fn spec_g(self) -> u8 {
        ((self.0 >> 8) & 0xff) as u8
    }

    pub open spec fn spec_b(self) -> u8 {
        ((self.0 >> 16) & 0xff) as u8
    }

    pub open spec fn spec_a(self) -> u8 {
        ((self.0 >> 24) & 0xff) as u8
    }

    pub fn r(self) -> (v: u8)
        ensures
            v == self.spec_r(),
    {
        (self.0 & 0xff) as u8
    }

    pub fn g(self) -> (v: u8)
        ensures
            v == self.spec_g(),
    {
        ((self.0 >> 8) & 0xff) as u8
    }

    pub fn b(self) -> (v: u8)
        ensures
            v == self.spec_b(),
    {
        ((self.0 >> 16) & 0xff) as u8
    }

    pub fn a(self) -> (v: u8)
        ensures
            v == self.spec_a(),
    {
        ((self.0 >> 24) & 0xff) as u8
    }
}

} // verus!
