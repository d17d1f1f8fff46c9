//! Which block an item places.

use crate::world::block::blocks::lever::LeverBlock;
use crate::world::block::blocks::redstone_block::RedstoneBlock;
use crate::world::block::blocks::redstone_comparator::RedstoneComparatorBlock;
use crate::world::block::blocks::redstone_lamp::RedstoneLampBlock;
use crate::world::block::blocks::redstone_repeater::RedstoneRepeaterBlock;
use crate::world::block::blocks::redstone_torch::RedstoneTorchBlock;
use crate::world::block::blocks::redstone_wire::RedstoneWireBlock;
use crate::world::block::BlockState;
use vstd::prelude::*;

verus! {

/// The item id of stone.
pub const ITEM_STONE: u16 = 1;

/// The item id of dirt.
pub const ITEM_DIRT: u16 = 28;

/// The item id of white wool, the first of the sixteen wools.
pub const ITEM_WHITE_WOOL: u16 = 213;

/// The item id of redstone dust.
pub const ITEM_REDSTONE: u16 = 688;

/// The item id of the redstone torch.
pub const ITEM_REDSTONE_TORCH: u16 = 689;

/// The item id of the block of redstone.
pub const ITEM_REDSTONE_BLOCK: u16 = 690;

/// The item id of the repeater.
pub const ITEM_REPEATER: u16 = 691;

/// The item id of the comparator.
pub const ITEM_COMPARATOR: u16 = 692;

/// The item id of the observer.
pub const ITEM_OBSERVER: u16 = 697;

/// The item id of the lever.
pub const ITEM_LEVER: u16 = 703;

/// The item id of the daylight detector.
pub const ITEM_DAYLIGHT_DETECTOR: u16 = 705;

/// The item id of the redstone lamp.
pub const ITEM_REDSTONE_LAMP: u16 = 711;

/// The item id of the note block.
pub const ITEM_NOTE_BLOCK: u16 = 712;

/// The item id of the stone button.
pub const ITEM_STONE_BUTTON: u16 = 713;

/// The item id of the oak button.
pub const ITEM_OAK_BUTTON: u16 = 715;

/// The item id of the waxed copper bulb.
pub const ITEM_WAXED_COPPER_BULB: u16 = 1407;

/// The first of the sixteen states of wool, one for each colour.
pub const WHITE_WOOL_STATE: u16 = 2093;

/// A state of the block that an item places, for the items that place
/// one.
pub open spec fn spec_item_to_block(item: u16) -> Option<BlockState> {
    if item == ITEM_STONE {
        Some(BlockState(1))
    } else if item == ITEM_DIRT {
        Some(BlockState(10))
    } else if ITEM_WHITE_WOOL <= item < ITEM_WHITE_WOOL + 16 {
        Some(BlockState((WHITE_WOOL_STATE + (item - ITEM_WHITE_WOOL)) as u16))
    } else if item == ITEM_REDSTONE {
        Some(RedstoneWireBlock::spec_default_state())
    } else if item == ITEM_REDSTONE_TORCH {
        Some(BlockState(RedstoneTorchBlock::FLOOR_ID_BASE))
    } else if item == ITEM_REDSTONE_BLOCK {
        Some(BlockState(RedstoneBlock::ID_BASE))
    } else if item == ITEM_REPEATER {
        Some(RedstoneRepeaterBlock::spec_default_state())
    } else if item == ITEM_COMPARATOR {
        Some(RedstoneComparatorBlock::spec_default_state())
    } else if item == ITEM_OBSERVER {
        Some(BlockState(13578))
    } else if item == ITEM_LEVER {
        Some(LeverBlock::spec_default_state())
    } else if item == ITEM_DAYLIGHT_DETECTOR {
        Some(BlockState(10016))
    } else if item == ITEM_REDSTONE_LAMP {
        Some(RedstoneLampBlock::spec_default_state())
    } else if item == ITEM_NOTE_BLOCK {
        Some(BlockState(582))
    } else if item == ITEM_STONE_BUTTON {
        Some(BlockState(5935))
    } else if item == ITEM_OAK_BUTTON {
        Some(BlockState(9405))
    } else if item == ITEM_WAXED_COPPER_BULB {
        Some(BlockState(25771))
    } else {
        None
    }
}

/// A state of the block that an item places, for the items that place
/// one.
pub fn item_to_block(item: u16) -> (r: Option<BlockState>)
    ensures
        r == spec_item_to_block(item),
{
    if item == ITEM_STONE {
        Some(BlockState(1))
    } else if item == ITEM_DIRT {
        Some(BlockState(10))
    } else if ITEM_WHITE_WOOL <= item && item < ITEM_WHITE_WOOL + 16 {
        Some(BlockState(WHITE_WOOL_STATE + (item - ITEM_WHITE_WOOL)))
    } else if item == ITEM_REDSTONE {
        Some(RedstoneWireBlock::default_state())
    } else if item == ITEM_REDSTONE_TORCH {
        Some(BlockState(RedstoneTorchBlock::FLOOR_ID_BASE))
    } else if item == ITEM_REDSTONE_BLOCK {
        Some(RedstoneBlock::default_state())
    } else if item == ITEM_REPEATER {
        Some(RedstoneRepeaterBlock::default_state())
    } else if item == ITEM_COMPARATOR {
        Some(RedstoneComparatorBlock::default_state())
    } else if item == ITEM_OBSERVER {
        Some(BlockState(13578))
    } else if item == ITEM_LEVER {
        Some(LeverBlock::default_state())
    } else if item == ITEM_DAYLIGHT_DETECTOR {
        Some(BlockState(10016))
    } else if item == ITEM_REDSTONE_LAMP {
        Some(RedstoneLampBlock::default_state())
    } else if item == ITEM_NOTE_BLOCK {
        Some(BlockState(582))
    } else if item == ITEM_STONE_BUTTON {
        Some(BlockState(5935))
    } else if item == ITEM_OAK_BUTTON {
        Some(BlockState(9405))
    } else if item == ITEM_WAXED_COPPER_BULB {
        Some(BlockState(25771))
    } else {
        None
    }
}

} // verus!
