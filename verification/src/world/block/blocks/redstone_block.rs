//! The block of redstone: a constant source of full power.

use crate::direction::Direction;
use crate::world::block::BlockState;
use vstd::prelude::*;

verus! {

/// The block of redstone.
#[derive(Debug, Clone, Copy)]
pub struct RedstoneBlock;

impl RedstoneBlock {
    /// The block's only state.
    pub const ID_BASE: u16 = 10032;

    /// How many states the block has.
    pub const TOTAL_STATES: u16 = 1;

    pub open spec fn spec_is_redstone_block(bs: BlockState) -> bool {
        bs.0 == RedstoneBlock::ID_BASE
    }

    pub fn is_redstone_block(bs: BlockState) -> (b: bool)
        ensures
            b == RedstoneBlock::spec_is_redstone_block(bs),
    {
        bs.0 == RedstoneBlock::ID_BASE
    }

    pub fn default_state() -> (bs: BlockState)
        ensures
            bs == BlockState(RedstoneBlock::ID_BASE),
    {
        BlockState(RedstoneBlock::ID_BASE)
    }

    /// Full power in every direction.
    pub fn get_signal(bs: BlockState, direction: Direction) -> (s: u8)
        ensures
            s == 15,
    {
        15
    }
}

} // verus!
