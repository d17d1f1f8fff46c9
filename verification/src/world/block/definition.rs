//! Block definitions as they are read from the game's data, and the
//! registry that is made of them.

use crate::resloc::ResLoc;
use crate::world::block::registry::{contiguous, Block, BlockKind, BlockResLocs, Blocks};
use crate::world::block::StateId;
use vstd::prelude::*;
use vstd::string::StringSliceAdditionalSpecFns;

verus! {

/// What every property of a block has: its name and the weight of its
/// digit in the state id.
#[derive(Debug)]
pub struct PropertyDef {
    pub name: String,
    pub id_group_size: u32,
}

/// A property of a block.
#[derive(Debug)]
pub enum Property {
    Boolean { def: PropertyDef },
    Integer { def: PropertyDef, min: i32, max: i32 },
    Enum { def: PropertyDef, values: Vec<String> },
}

/// The definition of a block.
#[derive(Debug)]
pub struct BlockDef {
    pub resloc: ResLoc,
    pub default_state: u32,
    pub id_base: u32,
    pub total_states: u32,
    pub properties: Vec<Property>,
}

/// Whether two texts are the same.
pub fn str_eq(a: &str, b: &str) -> (r: bool)
    ensures
        r == (a@ == b@),
{
    let x = a.as_bytes();
    let y = b.as_bytes();
    proof {
        vstd::utf8::encode_utf8_decode_utf8(a@);
        vstd::utf8::encode_utf8_decode_utf8(b@);
    }
    if x.len() != y.len() {
        return false;
    }
    let mut i: usize = 0;
    while i < x.len()
        invariant
            i <= x@.len(),
            x@.len() == y@.len(),
            x@ == a.spec_bytes(),
            y@ == b.spec_bytes(),
            forall|k: int| 0 <= k < i ==> x@[k] == y@[k],
        decreases x@.len() - i,
    {
        if x[i] != y[i] {
            return false;
        }
        i = i + 1;
    }
    assert(x@ =~= y@);
    true
}

/// The behaviour of the block with a name in the `minecraft` namespace.
pub open spec fn kind_of_path(path: Seq<char>) -> BlockKind {
    if path == BlockResLocs::LEVER@ {
        BlockKind::Lever
    } else if path == BlockResLocs::REPEATER@ {
        BlockKind::RedstoneRepeater
    } else if path == BlockResLocs::COMPARATOR@ {
        BlockKind::RedstoneComparator
    } else if path == BlockResLocs::REDSTONE_WIRE@ {
        BlockKind::RedstoneWire
    } else if path == BlockResLocs::REDSTONE_BLOCK@ {
        BlockKind::RedstoneBlock
    } else if path == BlockResLocs::REDSTONE_TORCH@ {
        BlockKind::RedstoneTorch
    } else if path == BlockResLocs::REDSTONE_WALL_TORCH@ {
        BlockKind::RedstoneWallTorch
    } else if path == BlockResLocs::REDSTONE_LAMP@ {
        BlockKind::RedstoneLamp
    } else {
        BlockKind::Generic
    }
}

/// Whether the block with a name in the `minecraft` namespace conducts
/// redstone power: the block of iron and nine of the wools.
pub open spec fn conducts_by_path(path: Seq<char>) -> bool {
    ||| path == BlockResLocs::IRON_BLOCK@
    ||| path == BlockResLocs::WHITE_WOOL@
    ||| path == BlockResLocs::RED_WOOL@
    ||| path == BlockResLocs::ORANGE_WOOL@
    ||| path == BlockResLocs::YELLOW_WOOL@
    ||| path == BlockResLocs::GREEN_WOOL@
    ||| path == BlockResLocs::BLUE_WOOL@
    ||| path == BlockResLocs::BLACK_WOOL@
    ||| path == BlockResLocs::MAGENTA_WOOL@
}

impl BlockDef {
    /// Whether the block is one of the game's own.
    pub open spec fn spec_is_vanilla(&self) -> bool {
        self.resloc.namespace@ == crate::MINECRAFT@
    }

    /// The behaviour that the block has.
    pub open spec fn spec_kind(&self) -> BlockKind {
        if self.spec_is_vanilla() {
            kind_of_path(self.resloc.path@)
        } else {
            BlockKind::Generic
        }
    }

    /// Whether the block conducts redstone power.
    pub open spec fn spec_is_redstone_conductor(&self) -> bool {
        self.spec_is_vanilla() && conducts_by_path(self.resloc.path@)
    }

    /// Whether the definition's numbers fit the id space of block states.
    pub open spec fn spec_fits(&self) -> bool {
        self.id_base + self.total_states <= 0x1_0000 && self.total_states < 0x1_0000
            && self.default_state < 0x1_0000
    }

    /// The registry's record of the block.
    pub open spec fn spec_block(&self) -> Block {
        Block {
            resloc: self.resloc,
            id_base: self.id_base as u16,
            total_states: self.total_states as u16,
            default_state: StateId(self.default_state as u16),
            is_redstone_conductor: self.spec_is_redstone_conductor(),
            kind: self.spec_kind(),
        }
    }

    pub fn kind(&self) -> (k: BlockKind)
        ensures
            k == self.spec_kind(),
    {
        if !str_eq(self.resloc.namespace.as_str(), crate::MINECRAFT) {
            return BlockKind::Generic;
        }
        let path = self.resloc.path.as_str();
        if str_eq(path, BlockResLocs::LEVER) {
            BlockKind::Lever
        } else if str_eq(path, BlockResLocs::REPEATER) {
            BlockKind::RedstoneRepeater
        } else if str_eq(path, BlockResLocs::COMPARATOR) {
            BlockKind::RedstoneComparator
        } else if str_eq(path, BlockResLocs::REDSTONE_WIRE) {
            BlockKind::RedstoneWire
        } else if str_eq(path, BlockResLocs::REDSTONE_BLOCK) {
            BlockKind::RedstoneBlock
        } else if str_eq(path, BlockResLocs::REDSTONE_TORCH) {
            BlockKind::RedstoneTorch
        } else if str_eq(path, BlockResLocs::REDSTONE_WALL_TORCH) {
            BlockKind::RedstoneWallTorch
        } else if str_eq(path, BlockResLocs::REDSTONE_LAMP) {
            BlockKind::RedstoneLamp
        } else {
            BlockKind::Generic
        }
    }

    pub fn is_redstone_conductor(&self) -> (b: bool)
        ensures
            b == self.spec_is_redstone_conductor(),
    {
        if !str_eq(self.resloc.namespace.as_str(), crate::MINECRAFT) {
            return false;
        }
        let path = self.resloc.path.as_str();
        str_eq(path, BlockResLocs::IRON_BLOCK)
            || str_eq(path, BlockResLocs::WHITE_WOOL)
            || str_eq(path, BlockResLocs::RED_WOOL)
            || str_eq(path, BlockResLocs::ORANGE_WOOL)
            || str_eq(path, BlockResLocs::YELLOW_WOOL)
            || str_eq(path, BlockResLocs::GREEN_WOOL)
            || str_eq(path, BlockResLocs::BLUE_WOOL)
            || str_eq(path, BlockResLocs::BLACK_WOOL)
            || str_eq(path, BlockResLocs::MAGENTA_WOOL)
    }

    /// The registry's record of the block, if the definition's numbers
    /// fit the id space of block states.
    pub fn to_block(&self) -> (r: Option<Block>)
        ensures
            r is Some <==> self.spec_fits(),
            r matches Some(block) ==> block == self.spec_block(),
    {
        if self.id_base as u64 + self.total_states as u64 > 0x1_0000 || self.total_states
            >= 0x1_0000 || self.default_state >= 0x1_0000 {
            return None;
        }
        Some(
            Block {
                resloc: ResLoc {
                    namespace: self.resloc.namespace.clone(),
                    path: self.resloc.path.clone(),
                },
                id_base: self.id_base as u16,
                total_states: self.total_states as u16,
                default_state: StateId(self.default_state as u16),
                is_redstone_conductor: self.is_redstone_conductor(),
                kind: self.kind(),
            },
        )
    }
}

/// How many of the blocks stand before the place of a block with first
/// state `id_base`, when blocks are kept in the order of their first
/// states and a newcomer goes behind its equals.
pub open spec fn place_by_base(blocks: Seq<Block>, id_base: u16) -> int
    decreases blocks.len(),
{
    if blocks.len() == 0 {
        0
    } else if blocks.last().id_base <= id_base {
        blocks.len() as int
    } else {
        place_by_base(blocks.drop_last(), id_base)
    }
}

/// The records of the first `upto` definitions, in the order of their
/// first states.
pub open spec fn sorted_blocks(defs: Seq<BlockDef>, upto: int) -> Seq<Block>
    decreases upto,
{
    if upto <= 0 {
        Seq::empty()
    } else {
        let before = sorted_blocks(defs, upto - 1);
        let block = defs[upto - 1].spec_block();
        before.insert(place_by_base(before, block.id_base), block)
    }
}

/// Whether every one of the definitions fits the id space of block
/// states.
pub open spec fn all_fit(defs: Seq<BlockDef>) -> bool {
    forall|i: int| 0 <= i < defs.len() ==> (#[trigger] defs[i]).spec_fits()
}

impl Blocks {
    /// The registry of the blocks with the given definitions, in any
    /// order: every block that is known by name gets its behaviour, every
    /// other block none. There is no registry unless the definitions fit
    /// the id space, the blocks own the states from 0 up without gap or
    /// overlap, and every block with behaviour sits where that behaviour
    /// expects it.
    pub fn from_defs(defs: &Vec<BlockDef>) -> (r: Option<Blocks>)
        ensures
            r is Some <==> all_fit(defs@) && contiguous(sorted_blocks(defs@, defs@.len() as int)),
            r matches Some(blocks) ==> blocks.wf() && blocks@ == sorted_blocks(
                defs@,
                defs@.len() as int,
            ),
    {
        let mut entries: Vec<Block> = Vec::new();
        let mut i: usize = 0;
        while i < defs.len()
            invariant
                i <= defs@.len(),
                entries@ == sorted_blocks(defs@, i as int),
                forall|k: int| 0 <= k < i ==> (#[trigger] defs@[k]).spec_fits(),
            decreases defs@.len() - i,
        {
            let block = match defs[i].to_block() {
                Some(b) => b,
                None => {
                    assert(!defs@[i as int].spec_fits());
                    return None;
                },
            };
            let mut at: usize = entries.len();
            assert(entries@.take(at as int) =~= entries@);
            while at > 0 && entries[at - 1].id_base > block.id_base
                invariant
                    at <= entries@.len(),
                    place_by_base(entries@, block.id_base) == place_by_base(
                        entries@.take(at as int),
                        block.id_base,
                    ),
                decreases at,
            {
                proof {
                    let front = entries@.take(at as int);
                    assert(front.last() == entries@[at - 1]);
                    assert(front.drop_last() =~= entries@.take(at - 1));
                }
                at = at - 1;
            }
            proof {
                let front = entries@.take(at as int);
                if at > 0 {
                    assert(front.last() == entries@[at - 1]);
                }
                assert(place_by_base(front, block.id_base) == at);
            }
            entries.insert(at, block);
            i = i + 1;
        }
        Blocks::from_sorted(entries)
    }
}

} // verus!
