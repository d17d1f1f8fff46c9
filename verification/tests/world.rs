use tileglobe::direction::{Direction, HorizontalDirection};
use tileglobe::network::mc_packet::MCPacketBuffer;
use tileglobe::pos::{BlockPos, ChunkLocalPos, ChunkPos};
use tileglobe::resloc::ResLoc;
use tileglobe::world::block::blocks::lever::{LeverBlock, LeverState};
use tileglobe::world::block::blocks::redstone_comparator::{
    Mode, RedstoneComparatorBlock, RedstoneComparatorState,
};
use tileglobe::world::block::blocks::redstone_lamp::RedstoneLampState;
use tileglobe::world::block::blocks::redstone_repeater::{
    RedstoneRepeaterBlock, RedstoneRepeaterState,
};
use tileglobe::world::block::blocks::redstone_torch::RedstoneTorchState;
use tileglobe::world::block::blocks::redstone_wire::{
    Connection, RedstoneWireBlock, RedstoneWireState,
};
use tileglobe::world::block::definition::BlockDef;
use tileglobe::world::block::registry::{Block, BlockKind, BlockResLocs, Blocks, GenericBlock};
use tileglobe::world::block::{BlockState, StateId};
use tileglobe::world::chunk::{Chunk, ChunkSection};
use tileglobe::world::scheduler::{BlockTick, BlockTickScheduler};
use tileglobe::world::update_queue::BlockUpdateQueue;
use tileglobe::world::world::{
    LocalWorld, NoOverride, RedstoneOverride, SampledSignal, SampledSignals,
};

const STONE: BlockState = BlockState(1);
const WHITE_WOOL: BlockState = BlockState(2093);
const IRON_BLOCK: BlockState = BlockState(2135);
const REDSTONE_BLOCK: BlockState = BlockState(10032);

fn def(path: &str, id_base: u32, total_states: u32, default_state: u32) -> BlockDef {
    BlockDef {
        resloc: ResLoc::new("minecraft", path),
        default_state,
        id_base,
        total_states,
        properties: Vec::new(),
    }
}

fn named_defs() -> Vec<BlockDef> {
    let mut defs = vec![
        def("air", 0, 1, 0),
        def("stone", 1, 1, 0),
        def("dirt", 10, 1, 0),
        def("note_block", 581, 2, 1),
        def("iron_block", 2135, 1, 0),
        def("redstone_wire", 3042, 1296, 1160),
        def("lever", 5802, 24, 9),
        def("redstone_torch", 5916, 2, 0),
        def("redstone_wall_torch", 5918, 8, 0),
        def("stone_button", 5926, 24, 9),
        def("repeater", 6060, 64, 3),
        def("redstone_lamp", 8201, 2, 1),
        def("oak_button", 9396, 24, 9),
        def("comparator", 9984, 16, 1),
        def("daylight_detector", 10000, 32, 16),
        def("redstone_block", 10032, 1, 0),
        def("observer", 13573, 12, 5),
        def("waxed_copper_bulb", 25768, 4, 3),
    ];
    let wools = [
        "white_wool",
        "orange_wool",
        "magenta_wool",
        "light_blue_wool",
        "yellow_wool",
        "lime_wool",
        "pink_wool",
        "gray_wool",
        "light_gray_wool",
        "cyan_wool",
        "purple_wool",
        "blue_wool",
        "brown_wool",
        "green_wool",
        "red_wool",
        "black_wool",
    ];
    for (i, name) in wools.iter().enumerate() {
        defs.push(def(name, 2093 + i as u32, 1, 0));
    }
    defs
}

fn all_defs() -> Vec<BlockDef> {
    let mut named = named_defs();
    named.sort_by_key(|d| d.id_base);
    let mut defs = Vec::new();
    let mut next = 0u32;
    for d in named {
        if d.id_base > next {
            let name = format!("filler_{}", next);
            defs.push(def(&name, next, d.id_base - next, 0));
        }
        next = d.id_base + d.total_states;
        defs.push(d);
    }
    defs.reverse();
    defs
}

fn registry() -> Blocks {
    Blocks::from_defs(&all_defs()).unwrap()
}

fn empty_world() -> LocalWorld<NoOverride> {
    LocalWorld::new(registry(), -1, -1, 3, 3)
}

fn world() -> LocalWorld<NoOverride> {
    let mut w = empty_world();
    for x in -1..=1 {
        for z in -1..=1 {
            assert_eq!(w.set_chunk(ChunkPos::new(x, z), Chunk::new(-4, 19)), Ok(()));
        }
    }
    w
}

fn place<R: RedstoneOverride>(
    w: &mut LocalWorld<R>,
    item_state: BlockState,
    pos: BlockPos,
    face: Direction,
    toward: HorizontalDirection,
) -> BlockState {
    let state = w.get_state_for_placement(item_state, pos, face, toward);
    assert!(w.set_block_state(pos, state).is_ok());
    w.on_placed(pos, state);
    state
}

fn ticks<R: RedstoneOverride>(w: &mut LocalWorld<R>, n: usize) {
    for _ in 0..n {
        w.tick();
    }
}

fn wire_power<R: RedstoneOverride>(w: &LocalWorld<R>, pos: BlockPos) -> i8 {
    let bs = w.get_block_state(pos).unwrap();
    assert!(RedstoneWireBlock::is_redstone_wire(bs));
    RedstoneWireState::from(bs).power()
}

#[test]
fn registry_from_definitions_in_any_order() {
    let blocks = registry();
    assert_eq!(blocks.max_state(), 25771);
    let lever = blocks.get_block(BlockState(5811));
    assert_eq!(lever.resloc.path, "lever");
    assert_eq!(lever.id_base, 5802);
    assert_eq!(lever.total_states, 24);
    assert_eq!(lever.kind, BlockKind::Lever);
    assert_eq!(lever.default_state(), BlockState(5811));
    assert!(!lever.is_redstone_conductor);
    assert_eq!(blocks.kind_of(BlockState(3042)), BlockKind::RedstoneWire);
    assert_eq!(blocks.kind_of(BlockState(4337)), BlockKind::RedstoneWire);
    assert_eq!(blocks.kind_of(BlockState(4338)), BlockKind::Generic);
    assert_eq!(blocks.kind_of(BlockState(5916)), BlockKind::RedstoneTorch);
    assert_eq!(blocks.kind_of(BlockState(5918)), BlockKind::RedstoneWallTorch);
    assert_eq!(blocks.kind_of(BlockState(6060)), BlockKind::RedstoneRepeater);
    assert_eq!(blocks.kind_of(BlockState(8202)), BlockKind::RedstoneLamp);
    assert_eq!(blocks.kind_of(BlockState(9999)), BlockKind::RedstoneComparator);
    assert_eq!(blocks.kind_of(BlockState(10032)), BlockKind::RedstoneBlock);
    assert_eq!(blocks.kind_of(BlockState(0)), BlockKind::Generic);
    assert!(blocks.is_redstone_conductor(WHITE_WOOL));
    assert!(blocks.is_redstone_conductor(IRON_BLOCK));
    assert!(blocks.is_redstone_conductor(BlockState(2093 + 15)));
    assert!(!blocks.is_redstone_conductor(BlockState(2093 + 3)));
    assert!(!blocks.is_redstone_conductor(STONE));
    assert!(!blocks.is_redstone_conductor(BlockState(0)));
}

#[test]
fn every_state_is_owned_by_the_block_that_lookup_finds() {
    let blocks = registry();
    let max = blocks.max_state();
    for id in 0..=max {
        let bs = BlockState(id);
        let block = blocks.get_block(bs);
        assert!(block.owns(bs), "state {}", id);
        assert!(block.id_base <= id && (id as u32) < block.id_base as u32 + block.total_states as u32);
    }
    let beyond = blocks.get_block(BlockState(40000));
    assert_eq!(beyond.resloc.path, "waxed_copper_bulb");
    assert!(!beyond.owns(BlockState(40000)));
    assert_eq!(blocks.kind_of(BlockState(40000)), BlockKind::Generic);
}

#[test]
fn registry_rejects_gaps_overlaps_and_misplaced_blocks() {
    let mut gap = all_defs();
    gap.retain(|d| d.resloc.path != "stone");
    assert!(Blocks::from_defs(&gap).is_none());

    let mut overlap = all_defs();
    overlap.push(def("extra", 5, 1, 0));
    assert!(Blocks::from_defs(&overlap).is_none());

    assert!(Blocks::from_defs(&Vec::new()).is_none());
    assert!(Blocks::from_defs(&vec![def("air", 1, 1, 0)]).is_none());
    assert!(Blocks::from_defs(&vec![def("air", 0, 0, 0)]).is_none());
    assert!(Blocks::from_defs(&vec![def("air", 0, 1, 1)]).is_none());
    assert!(Blocks::from_defs(&vec![def("air", 0, 70000, 0)]).is_none());
    assert!(Blocks::from_defs(&vec![def("air", 0, 1, 0), def("lever", 1, 24, 9)]).is_none());
    assert!(Blocks::from_defs(&vec![def("air", 0, 65536, 0)]).is_none());
    assert!(Blocks::from_defs(&vec![def("air", 0, 65535, 0)]).is_some());

    let other = BlockDef {
        resloc: ResLoc::new("mod", "lever"),
        default_state: 0,
        id_base: 1,
        total_states: 24,
        properties: Vec::new(),
    };
    let blocks = Blocks::from_defs(&vec![def("air", 0, 1, 0), other]).unwrap();
    assert_eq!(blocks.len(), 2);
    assert_eq!(blocks.kind_of(BlockState(5)), BlockKind::Generic);
}

#[test]
fn registry_from_sorted_blocks() {
    let air = GenericBlock {
        resloc: ResLoc::new("minecraft", "air"),
        id_base: 0,
        num_states: 1,
        default_state: StateId(0),
    };
    assert_eq!(air.default_state(), BlockState(0));
    let stone = GenericBlock {
        resloc: ResLoc::new("minecraft", "stone"),
        id_base: 1,
        num_states: 3,
        default_state: StateId(2),
    };
    assert_eq!(stone.default_state(), BlockState(3));
    let blocks = Blocks::from_sorted(vec![air.into_block(false), stone.into_block(true)]).unwrap();
    assert_eq!(blocks.len(), 2);
    assert_eq!(blocks.max_state(), 3);
    assert_eq!(blocks.index_of(BlockState(0)), 0);
    assert_eq!(blocks.index_of(BlockState(1)), 1);
    assert_eq!(blocks.index_of(BlockState(3)), 1);
    assert!(blocks.is_redstone_conductor(BlockState(2)));
    assert!(!blocks.is_redstone_conductor(BlockState(0)));
    let misplaced = Block {
        resloc: ResLoc::new("minecraft", "lever"),
        id_base: 0,
        total_states: 24,
        default_state: StateId(9),
        is_redstone_conductor: false,
        kind: BlockKind::Lever,
    };
    assert!(Blocks::from_sorted(vec![misplaced]).is_none());
}

#[test]
fn registry_rejects_a_conducting_block_with_behaviour() {
    let air = || GenericBlock {
        resloc: ResLoc::new("minecraft", "air"),
        id_base: 0,
        num_states: 5802,
        default_state: StateId(0),
    };
    let lever = |conducts: bool| Block {
        resloc: ResLoc::new("minecraft", "lever"),
        id_base: 5802,
        total_states: 24,
        default_state: StateId(9),
        is_redstone_conductor: conducts,
        kind: BlockKind::Lever,
    };
    assert!(Blocks::from_sorted(vec![air().into_block(false), lever(false)]).is_some());
    assert!(Blocks::from_sorted(vec![air().into_block(false), lever(true)]).is_none());
}

#[test]
fn section_counts_blocks_that_are_not_air() {
    let mut section = ChunkSection::new(3);
    assert_eq!(section.section_y(), 3);
    assert_eq!(section.non_air_blocks(), 0);
    assert_eq!(section.get_block_state(0), BlockState(0));
    assert_eq!(section.set_block_state(5, STONE), BlockState(0));
    assert_eq!(section.non_air_blocks(), 1);
    assert_eq!(section.set_block_state(5, WHITE_WOOL), STONE);
    assert_eq!(section.non_air_blocks(), 1);
    assert_eq!(section.set_block_state(4095, STONE), BlockState(0));
    assert_eq!(section.non_air_blocks(), 2);
    assert_eq!(section.set_block_state(5, BlockState(0)), WHITE_WOOL);
    assert_eq!(section.non_air_blocks(), 1);
    assert_eq!(section.set_block_state(7, BlockState(0)), BlockState(0));
    assert_eq!(section.non_air_blocks(), 1);
    assert_eq!(section.get_block_state(4095), STONE);
    let data = section.get_data_array();
    assert_eq!(data.len(), 4096);
    let counted = data.iter().filter(|b| !b.is_air()).count();
    assert_eq!(counted, section.non_air_blocks() as usize);
}

#[test]
fn section_count_after_many_sets() {
    let mut section = ChunkSection::new(0);
    let mut seed: u32 = 12345;
    for _ in 0..20000 {
        seed = seed.wrapping_mul(1664525).wrapping_add(1013904223);
        let index = ((seed >> 8) % 4096) as u16;
        let state = BlockState(((seed >> 20) % 3) as u16);
        section.set_block_state(index, state);
    }
    let counted = section.get_data_array().iter().filter(|b| !b.is_air()).count();
    assert_eq!(counted, section.non_air_blocks() as usize);
}

#[test]
fn section_wire_form() {
    let mut section = ChunkSection::new(0);
    assert_eq!(section.serialized_size(), 4);
    let mut pkt = MCPacketBuffer::part(0);
    section.serialize_into(&mut pkt);
    assert_eq!(pkt.as_slice(), &[0, 0, 0, 0]);

    section.set_block_state(0, BlockState(1));
    section.set_block_state(1, BlockState(0x7fff));
    section.set_block_state(4095, BlockState(2));
    assert_eq!(section.serialized_size(), 3 + 7680);
    let mut pkt = MCPacketBuffer::part(0);
    pkt.write_u8(0xee);
    section.serialize_into(&mut pkt);
    let bytes = pkt.as_slice();
    assert_eq!(bytes.len(), 1 + 3 + 7680);
    assert_eq!(&bytes[..4], &[0xee, 0x00, 0x03, 15]);
    assert_eq!(&bytes[4..8], &[0x00, 0x03, 0xff, 0xfc]);
    assert!(bytes[8..7682].iter().all(|b| *b == 0));
    assert_eq!(&bytes[7682..], &[0x00, 0x02]);
}

#[test]
fn section_reports_changes_once() {
    let mut section = ChunkSection::new(4);
    let origin = ChunkPos::new(0, 0);
    assert!(!section.has_changes());
    assert!(section.gen_blocks_update_packet_and_clear_changes(origin).is_none());
    section.set_block_state(83, WHITE_WOOL);
    assert!(section.has_changes());
    let pkt = section.gen_blocks_update_packet_and_clear_changes(origin).unwrap();
    assert_eq!(
        pkt.as_slice(),
        &[0x4d, 0, 0, 0, 0, 0, 0, 0, 4, 1, 0x85, 0xa6, 0x8b, 0x04]
    );
    assert!(!section.has_changes());
    assert!(section.gen_blocks_update_packet_and_clear_changes(origin).is_none());
    assert_eq!(section.get_block_state(83), WHITE_WOOL);
    assert_eq!(section.non_air_blocks(), 1);
}

#[test]
fn section_reports_no_change_for_a_block_set_back() {
    let mut section = ChunkSection::new(0);
    let origin = ChunkPos::new(0, 0);
    section.set_block_state(10, STONE);
    section.set_block_state(10, BlockState(0));
    assert!(!section.has_changes());
    assert!(section.gen_blocks_update_packet_and_clear_changes(origin).is_none());
    section.set_block_state(10, STONE);
    assert!(section.gen_blocks_update_packet_and_clear_changes(origin).is_some());
    section.set_block_state(10, STONE);
    assert!(!section.has_changes());
    section.set_block_state(10, WHITE_WOOL);
    section.set_block_state(10, STONE);
    assert!(section.gen_blocks_update_packet_and_clear_changes(origin).is_none());
}

#[test]
fn section_update_packet_lists_changes_in_index_order() {
    let mut section = ChunkSection::new(-4);
    section.set_block_state(4095, BlockState(1));
    section.set_block_state(256 + 2 * 16 + 1, BlockState(10));
    let pkt = section
        .gen_blocks_update_packet_and_clear_changes(ChunkPos::new(-1, 2))
        .unwrap();
    assert_eq!(
        pkt.as_slice(),
        &[
            0x4d, 0xff, 0xff, 0xfc, 0x00, 0x00, 0x2f, 0xff, 0xfc, 2, 0x92, 0xc2, 0x02, 0xff, 0x3f
        ]
    );
}

#[test]
fn chunk_sections_and_blocks() {
    let mut chunk = Chunk::new(-4, 19);
    assert_eq!(chunk.section_count(), 24);
    assert_eq!(chunk.bottom_section(), -4);
    assert!(chunk.get_section(-4).is_ok());
    assert!(chunk.get_section(19).is_ok());
    assert!(chunk.get_section(20).is_err());
    assert!(chunk.get_section(-5).is_err());
    assert_eq!(chunk.get_section(7).unwrap().section_y(), 7);
    let at = ChunkLocalPos::new(3, 64, 5);
    assert_eq!(chunk.get_block_state(at), Ok(BlockState(0)));
    assert_eq!(chunk.set_block_state(at, STONE), Ok(BlockState(0)));
    assert_eq!(chunk.get_block_state(at), Ok(STONE));
    assert_eq!(chunk.get_section(4).unwrap().get_block_state(83), STONE);
    assert_eq!(chunk.get_section(4).unwrap().non_air_blocks(), 1);
    assert_eq!(chunk.get_section(3).unwrap().non_air_blocks(), 0);
    let low = ChunkLocalPos::new(0, -64, 0);
    assert_eq!(chunk.set_block_state(low, WHITE_WOOL), Ok(BlockState(0)));
    let below = ChunkLocalPos::new(0, -65, 0);
    assert_eq!(chunk.get_block_state(below), Err(()));
    assert_eq!(chunk.set_block_state(below, STONE), Err(()));
    let above = ChunkLocalPos::new(0, 320, 0);
    assert_eq!(chunk.set_block_state(above, STONE), Err(()));
    let far = ChunkLocalPos::new(0, 4096 + 64, 0);
    assert_eq!(chunk.get_block_state(far), Err(()));
    let packets = chunk.gen_blocks_update_packets_and_clear_changes(ChunkPos::new(0, 0));
    assert_eq!(packets.len(), 2);
    assert_eq!(packets[0].as_slice()[1..9], [0x00, 0x00, 0x00, 0x00, 0x00, 0x0f, 0xff, 0xfc]);
    assert_eq!(packets[1].as_slice()[1..9], [0, 0, 0, 0, 0, 0, 0, 4]);
    assert!(chunk.gen_blocks_update_packets_and_clear_changes(ChunkPos::new(0, 0)).is_empty());
    let empty = Chunk::new(3, 2);
    assert_eq!(empty.section_count(), 0);
    assert!(empty.get_section(3).is_err());
}

#[test]
fn scheduling_twice_leaves_one_tick() {
    let mut s = BlockTickScheduler::new();
    let p = BlockPos::new(1, 2, 3);
    assert!(!s.is_scheduled(p));
    s.schedule(p, 10, 0);
    assert!(s.is_scheduled(p));
    s.schedule(p, 12, 5);
    s.schedule(p, 3, -2);
    assert_eq!(s.len(), 1);
    assert_eq!(s.pop_at_or_before(9), None);
    assert_eq!(
        s.pop_at_or_before(10),
        Some(BlockTick { pos: p, tick: 10, priority: 0, sequence: 0 })
    );
    assert_eq!(s.len(), 0);
    assert!(!s.is_scheduled(p));
    s.schedule(p, 12, 5);
    assert_eq!(
        s.pop_at_or_before(12),
        Some(BlockTick { pos: p, tick: 12, priority: 5, sequence: 1 })
    );
    assert_eq!(s.pop_at_or_before(100), None);
}

#[test]
fn ticks_come_out_by_time_then_priority_then_sequence() {
    let mut s = BlockTickScheduler::new();
    let at = |i: i16| BlockPos::new(i, 0, 0);
    s.schedule(at(0), 5, 0);
    s.schedule(at(1), 3, 0);
    s.schedule(at(2), 5, 2);
    s.schedule(at(3), 3, -1);
    s.schedule(at(4), 5, 0);
    s.schedule(at(5), 1, -5);
    s.schedule(at(6), 5, 2);
    s.schedule(at(7), 9, 127);
    let mut order = Vec::new();
    while let Some(t) = s.pop_at_or_before(5) {
        order.push(t.pos.x);
    }
    assert_eq!(order, vec![5, 1, 3, 2, 6, 0, 4]);
    assert_eq!(s.len(), 1);
    assert_eq!(s.pop_at_or_before(8), None);
    assert_eq!(s.pop_at_or_before(9).map(|t| t.pos.x), Some(7));
}

#[test]
fn update_queue_is_first_in_first_out() {
    let mut q = BlockUpdateQueue::new();
    assert_eq!(q.len(), 0);
    assert_eq!(q.pop(), None);
    for i in 0..2000 {
        q.push(BlockPos::new(i, -i, 7));
    }
    assert_eq!(q.len(), 2000);
    for i in 0..2000 {
        assert_eq!(q.pop(), Some(BlockPos::new(i, -i, 7)));
    }
    assert_eq!(q.pop(), None);
    assert_eq!(q.len(), 0);
}

#[test]
fn world_blocks_and_missing_chunks() {
    let mut w = empty_world();
    let p = BlockPos::new(3, 64, 5);
    assert_eq!(w.get_block_state(p), Err(()));
    assert_eq!(w.set_block_state(p, STONE), Err(()));
    assert!(!w.has_chunk(ChunkPos::new(0, 0)));
    assert!(w.get_chunk(ChunkPos::new(0, 0)).is_err());
    assert_eq!(w.set_chunk(ChunkPos::new(0, 0), Chunk::new(-4, 19)), Ok(()));
    assert_eq!(w.set_chunk(ChunkPos::new(2, 0), Chunk::new(-4, 19)), Err(()));
    assert_eq!(w.set_chunk(ChunkPos::new(0, -2), Chunk::new(-4, 19)), Err(()));
    assert!(w.has_chunk(ChunkPos::new(0, 0)));
    assert_eq!(w.get_block_state(p), Ok(BlockState(0)));
    assert_eq!(w.set_block_state(p, STONE), Ok(BlockState(0)));
    assert_eq!(w.set_block_state(p, WHITE_WOOL), Ok(STONE));
    assert_eq!(w.get_block_state(p), Ok(WHITE_WOOL));
    assert_eq!(w.get_block_state(BlockPos::new(16, 64, 5)), Err(()));
    assert_eq!(w.get_block_state(BlockPos::new(-1, 64, 5)), Err(()));
    assert_eq!(w.get_block_state(BlockPos::new(3, 320, 5)), Err(()));
    assert_eq!(w.get_block_state(BlockPos::new(3, -65, 5)), Err(()));
    assert_eq!(w.get_signal(BlockPos::new(16, 64, 5), Direction::UP), 0);
    assert_eq!(w.get_strong_signal(BlockPos::new(16, 64, 5), Direction::UP), 0);
    assert_eq!(w.get_signal_to(BlockPos::new(-20, 64, 5)), 0);
}

#[test]
fn world_blocks_in_every_chunk() {
    let mut w = world();
    let spots = [
        BlockPos::new(-16, -64, -16),
        BlockPos::new(-1, 0, -1),
        BlockPos::new(0, 0, 0),
        BlockPos::new(15, 319, 15),
        BlockPos::new(16, 64, -1),
        BlockPos::new(31, 100, 31),
        BlockPos::new(-16, 5, 31),
    ];
    for (i, p) in spots.iter().enumerate() {
        assert_eq!(w.set_block_state(*p, BlockState(i as u16 + 1)), Ok(BlockState(0)));
    }
    for (i, p) in spots.iter().enumerate() {
        assert_eq!(w.get_block_state(*p), Ok(BlockState(i as u16 + 1)));
    }
    assert_eq!(w.get_block_state(BlockPos::new(32, 0, 0)), Err(()));
    assert_eq!(w.get_block_state(BlockPos::new(0, 0, -17)), Err(()));
}

#[test]
fn tick_counter_and_scheduling() {
    let mut w = world();
    assert_eq!(w.tick_number(), 0);
    w.tick();
    w.tick();
    assert_eq!(w.tick_number(), 2);
    let p = BlockPos::new(0, 64, 0);
    w.schedule_tick(p, 4, 0);
    w.schedule_tick(p, 1, 0);
    assert_eq!(w.pending_ticks(), 1);
    ticks(&mut w, 4);
    assert_eq!(w.pending_ticks(), 1);
    w.tick();
    assert_eq!(w.pending_ticks(), 0);
    assert_eq!(w.tick_number(), 7);
}

#[test]
fn neighbour_updates_are_queued_and_drained() {
    let mut w = world();
    let p = BlockPos::new(0, 64, 0);
    w.update_block(p);
    assert_eq!(w.pending_updates(), 1);
    w.update_neighbors(p);
    assert_eq!(w.pending_updates(), 7);
    w.update_neighbors_except_for_direction(p, Direction::UP);
    assert_eq!(w.pending_updates(), 12);
    assert_eq!(w.pop_update(), Some(p));
    assert_eq!(w.pop_update(), Some(BlockPos::new(0, 63, 0)));
    assert_eq!(w.pop_update(), Some(BlockPos::new(0, 65, 0)));
    assert_eq!(w.pop_update(), Some(BlockPos::new(0, 64, -1)));
    assert_eq!(w.pop_update(), Some(BlockPos::new(0, 64, 1)));
    assert_eq!(w.pop_update(), Some(BlockPos::new(-1, 64, 0)));
    assert_eq!(w.pop_update(), Some(BlockPos::new(1, 64, 0)));
    assert_eq!(w.pop_update(), Some(BlockPos::new(0, 63, 0)));
    assert_eq!(w.pop_update(), Some(BlockPos::new(0, 64, -1)));
    w.tick();
    assert_eq!(w.pending_updates(), 0);
}

#[test]
fn wire_tells_twenty_four_positions() {
    let mut w = world();
    let p = BlockPos::new(0, 64, 0);
    RedstoneWireBlock::update_neighbors(&mut w, p);
    assert_eq!(w.pending_updates(), 24);
    assert_eq!(w.pop_update(), Some(BlockPos::new(-2, 64, 0)));
    assert_eq!(w.pop_update(), Some(BlockPos::new(-1, 63, 0)));
    assert_eq!(w.pop_update(), Some(BlockPos::new(-1, 64, -1)));
    let mut last = p;
    while let Some(q) = w.pop_update() {
        let d = (q.x - p.x).abs() + (q.y - p.y).abs() + (q.z - p.z).abs();
        assert!(d == 1 || d == 2);
        last = q;
    }
    assert_eq!(last, BlockPos::new(2, 64, 0));
}

#[test]
fn lever_toggles() {
    let mut w = world();
    let stone = BlockPos::new(0, 64, 0);
    let lever = BlockPos::new(1, 64, 0);
    assert!(w.set_block_state(stone, STONE).is_ok());
    let placed = place(&mut w, LeverBlock::default_state(), lever, Direction::EAST, HorizontalDirection::NORTH);
    assert_eq!(placed, BlockState(5817));
    assert_eq!(w.get_signal(lever, Direction::WEST), 0);
    let before = w.get_block_state(lever).unwrap();
    w.on_use_without_item(lever, before);
    w.tick();
    let after = w.get_block_state(lever).unwrap();
    let state = LeverState::from(after);
    assert!(state.powered());
    assert_eq!(LeverBlock::facing_direction(state), Direction::WEST);
    for d in [
        Direction::DOWN,
        Direction::UP,
        Direction::NORTH,
        Direction::SOUTH,
        Direction::WEST,
        Direction::EAST,
    ] {
        assert_eq!(w.get_signal(lever, d), 15);
    }
    assert_eq!(w.block_strong_signal(lever, after, Direction::WEST), 15);
    assert_eq!(w.block_strong_signal(lever, after, Direction::EAST), 0);
    assert_eq!(w.get_signal_to(stone), 15);
    w.on_use_without_item(lever, after);
    assert_eq!(w.get_signal(lever, Direction::WEST), 0);
    assert_eq!(w.get_block_state(lever), Ok(before));
}

#[test]
fn lever_powers_a_conductor_strongly() {
    let mut w = world();
    let wool = BlockPos::new(0, 64, 0);
    let lever = BlockPos::new(1, 64, 0);
    assert!(w.set_block_state(wool, WHITE_WOOL).is_ok());
    place(&mut w, LeverBlock::default_state(), lever, Direction::EAST, HorizontalDirection::NORTH);
    assert_eq!(w.get_strong_signal(wool, Direction::WEST), 0);
    assert_eq!(w.get_signal(wool, Direction::WEST), 0);
    let bs = w.get_block_state(lever).unwrap();
    w.on_use_without_item(lever, bs);
    assert_eq!(w.get_strong_signal(wool, Direction::WEST), 15);
    assert_eq!(w.get_strong_signal(wool, Direction::UP), 15);
    assert_eq!(w.get_strong_signal(wool, Direction::EAST), 0);
    assert_eq!(w.get_signal(wool, Direction::WEST), 15);
    assert_eq!(w.get_signal(wool, Direction::EAST), 0);
    assert!(w.set_block_state(wool, STONE).is_ok());
    assert_eq!(w.get_strong_signal(wool, Direction::WEST), 0);
    assert_eq!(w.get_signal(wool, Direction::WEST), 0);
}

#[test]
fn wire_propagation() {
    let mut w = world();
    assert!(w.set_block_state(BlockPos::new(-10, 64, 0), REDSTONE_BLOCK).is_ok());
    for i in 0..16 {
        place(
            &mut w,
            RedstoneWireBlock::default_state(),
            BlockPos::new(-9 + i, 64, 0),
            Direction::UP,
            HorizontalDirection::NORTH,
        );
    }
    w.tick();
    for i in 0..16i16 {
        let expected = 15 - i;
        assert_eq!(wire_power(&w, BlockPos::new(-9 + i, 64, 0)), expected.max(0) as i8, "wire {}", i);
    }
    assert_eq!(wire_power(&w, BlockPos::new(6, 64, 0)), 0);
    assert_eq!(w.pending_updates(), 0);
    let middle = RedstoneWireState::from(w.get_block_state(BlockPos::new(0, 64, 0)).unwrap());
    assert_eq!(middle.connection(HorizontalDirection::WEST), Connection::SIDE);
    assert_eq!(middle.connection(HorizontalDirection::EAST), Connection::SIDE);
    assert_eq!(middle.connection(HorizontalDirection::NORTH), Connection::NONE);
    assert_eq!(middle.connection(HorizontalDirection::SOUTH), Connection::NONE);
}

#[test]
fn wire_loses_power_when_its_source_goes() {
    let mut w = world();
    let source = BlockPos::new(0, 64, 0);
    assert!(w.set_block_state(source, REDSTONE_BLOCK).is_ok());
    for i in 1..=5 {
        place(
            &mut w,
            RedstoneWireBlock::default_state(),
            BlockPos::new(i, 64, 0),
            Direction::UP,
            HorizontalDirection::NORTH,
        );
    }
    w.tick();
    assert_eq!(wire_power(&w, BlockPos::new(5, 64, 0)), 11);
    let previous = w.set_block_state(source, BlockState(0)).unwrap();
    w.on_destroyed(source, previous);
    w.update_neighbors(source);
    w.tick();
    w.tick();
    for i in 1..=5 {
        assert_eq!(wire_power(&w, BlockPos::new(i, 64, 0)), 0);
    }
}

#[test]
fn lone_wire_is_a_cross_and_climbs() {
    let mut w = world();
    let p = BlockPos::new(0, 64, 0);
    let placed = place(&mut w, RedstoneWireBlock::default_state(), p, Direction::UP, HorizontalDirection::NORTH);
    assert!(RedstoneWireState::from(placed).is_star());
    assert!(w.set_block_state(BlockPos::new(1, 64, 0), STONE).is_ok());
    place(
        &mut w,
        RedstoneWireBlock::default_state(),
        BlockPos::new(1, 65, 0),
        Direction::UP,
        HorizontalDirection::NORTH,
    );
    let low = RedstoneWireState::from(w.get_block_state(p).unwrap());
    assert_eq!(low.connection(HorizontalDirection::EAST), Connection::UP);
    assert_eq!(low.connection(HorizontalDirection::WEST), Connection::SIDE);
    let high = RedstoneWireState::from(w.get_block_state(BlockPos::new(1, 65, 0)).unwrap());
    assert_eq!(high.connection(HorizontalDirection::WEST), Connection::SIDE);
    assert!(w.set_block_state(BlockPos::new(0, 65, 0), WHITE_WOOL).is_ok());
    w.update_block_shape(p);
    let blocked = RedstoneWireState::from(w.get_block_state(p).unwrap());
    assert!(blocked.is_star());
}

#[test]
fn repeater_delay() {
    let mut w = world();
    let lever = BlockPos::new(0, 64, 0);
    let repeater = BlockPos::new(1, 64, 0);
    place(&mut w, LeverBlock::default_state(), lever, Direction::UP, HorizontalDirection::NORTH);
    let mut state = RedstoneRepeaterState::from(
        RedstoneRepeaterBlock::get_state_for_placement(HorizontalDirection::EAST),
    );
    assert_eq!(state.facing(), HorizontalDirection::WEST);
    state.set_delay(3);
    assert!(w.set_block_state(repeater, state.block_state()).is_ok());
    w.on_placed(repeater, state.block_state());
    w.tick();
    assert_eq!(w.get_signal(repeater, Direction::EAST), 0);

    let bs = w.get_block_state(lever).unwrap();
    w.on_use_without_item(lever, bs);
    w.tick();
    for _ in 0..5 {
        w.tick();
        assert_eq!(w.get_signal(repeater, Direction::EAST), 0);
    }
    w.tick();
    assert_eq!(w.get_signal(repeater, Direction::EAST), 15);
    assert_eq!(w.get_signal(repeater, Direction::WEST), 0);
    assert_eq!(w.get_signal(repeater, Direction::UP), 0);
    ticks(&mut w, 10);
    assert_eq!(w.get_signal(repeater, Direction::EAST), 15);

    let bs = w.get_block_state(lever).unwrap();
    w.on_use_without_item(lever, bs);
    w.tick();
    for _ in 0..5 {
        w.tick();
        assert_eq!(w.get_signal(repeater, Direction::EAST), 15);
    }
    w.tick();
    assert_eq!(w.get_signal(repeater, Direction::EAST), 0);
    ticks(&mut w, 10);
    assert_eq!(w.get_signal(repeater, Direction::EAST), 0);
    assert_eq!(w.pending_ticks(), 0);
}

#[test]
fn repeater_use_cycles_delay() {
    let mut w = world();
    let p = BlockPos::new(0, 64, 0);
    place(&mut w, RedstoneRepeaterBlock::default_state(), p, Direction::UP, HorizontalDirection::SOUTH);
    for expected in [2, 3, 4, 1, 2] {
        let bs = w.get_block_state(p).unwrap();
        w.on_use_without_item(p, bs);
        assert_eq!(RedstoneRepeaterState::from(w.get_block_state(p).unwrap()).delay(), expected);
    }
}

#[test]
fn comparator_subtract_and_compare() {
    let mut w = world();
    let c = BlockPos::new(0, 64, 0);
    assert!(w.set_block_state(BlockPos::new(-7, 64, 0), REDSTONE_BLOCK).is_ok());
    for x in -6..=-1 {
        place(
            &mut w,
            RedstoneWireBlock::default_state(),
            BlockPos::new(x, 64, 0),
            Direction::UP,
            HorizontalDirection::NORTH,
        );
    }
    assert!(w.set_block_state(BlockPos::new(0, 64, -13), REDSTONE_BLOCK).is_ok());
    for z in -12..=-1 {
        place(
            &mut w,
            RedstoneWireBlock::default_state(),
            BlockPos::new(0, 64, z),
            Direction::UP,
            HorizontalDirection::NORTH,
        );
    }
    let placed = place(&mut w, RedstoneComparatorBlock::default_state(), c, Direction::UP, HorizontalDirection::EAST);
    assert_eq!(RedstoneComparatorState::from(placed).facing(), HorizontalDirection::WEST);
    w.update_block(c);
    RedstoneWireBlock::update_neighbors_shape(&mut w, c);
    ticks(&mut w, 4);
    assert_eq!(wire_power(&w, BlockPos::new(-1, 64, 0)), 10);
    assert_eq!(wire_power(&w, BlockPos::new(0, 64, -1)), 4);
    assert_eq!(RedstoneComparatorBlock::get_input(&w, c, HorizontalDirection::WEST), 10);
    assert_eq!(RedstoneComparatorBlock::get_side_input(&w, c, HorizontalDirection::NORTH), 4);
    assert_eq!(RedstoneComparatorBlock::get_side_input(&w, c, HorizontalDirection::SOUTH), 0);
    assert_eq!(w.comparator_output(c), 10);
    assert_eq!(w.get_signal(c, Direction::EAST), 10);

    let bs = w.get_block_state(c).unwrap();
    w.on_use_without_item(c, bs);
    assert_eq!(RedstoneComparatorState::from(w.get_block_state(c).unwrap()).mode(), Mode::SUBTRACT);
    ticks(&mut w, 4);
    assert_eq!(w.comparator_output(c), 6);
    assert_eq!(w.get_signal(c, Direction::EAST), 6);
    assert_eq!(w.get_signal(c, Direction::WEST), 0);
    assert_eq!(w.get_signal(c, Direction::NORTH), 0);
    assert!(RedstoneComparatorState::from(w.get_block_state(c).unwrap()).powered());

    let bs = w.get_block_state(c).unwrap();
    w.on_use_without_item(c, bs);
    ticks(&mut w, 4);
    assert_eq!(RedstoneComparatorState::from(w.get_block_state(c).unwrap()).mode(), Mode::COMPARE);
    assert_eq!(w.comparator_output(c), 10);
    assert_eq!(w.get_signal(c, Direction::EAST), 10);

    let previous = w.set_block_state(c, BlockState(0)).unwrap();
    w.on_destroyed(c, previous);
    assert_eq!(w.comparator_output(c), 0);
}

#[test]
fn torch_on_a_redstone_block_goes_dark() {
    let mut w = world();
    let block = BlockPos::new(0, 64, 0);
    let torch = BlockPos::new(0, 65, 0);
    assert!(w.set_block_state(block, REDSTONE_BLOCK).is_ok());
    let placed = place(&mut w, BlockState(5916), torch, Direction::UP, HorizontalDirection::NORTH);
    assert_eq!(placed, BlockState(5916));
    assert!(RedstoneTorchState::from(w.get_block_state(torch).unwrap()).lit);
    w.tick();
    ticks(&mut w, 2);
    assert!(!RedstoneTorchState::from(w.get_block_state(torch).unwrap()).lit);
    for _ in 0..12 {
        w.tick();
        assert!(!RedstoneTorchState::from(w.get_block_state(torch).unwrap()).lit);
    }
    assert_eq!(w.get_signal(torch, Direction::UP), 0);
    assert_eq!(w.pending_ticks(), 0);
}

#[test]
fn torch_on_stone_stays_lit_and_powers_upward() {
    let mut w = world();
    let stone = BlockPos::new(0, 64, 0);
    let torch = BlockPos::new(0, 65, 0);
    let above = BlockPos::new(0, 66, 0);
    assert!(w.set_block_state(stone, STONE).is_ok());
    assert!(w.set_block_state(above, WHITE_WOOL).is_ok());
    place(&mut w, BlockState(5916), torch, Direction::UP, HorizontalDirection::NORTH);
    ticks(&mut w, 5);
    assert!(RedstoneTorchState::from(w.get_block_state(torch).unwrap()).lit);
    assert_eq!(w.get_signal(torch, Direction::EAST), 15);
    assert_eq!(w.get_signal(torch, Direction::DOWN), 0);
    assert_eq!(w.get_strong_signal(above, Direction::UP), 15);
    assert_eq!(w.get_strong_signal(above, Direction::DOWN), 0);
}

#[test]
fn lamp_lights_at_once_and_goes_dark_late() {
    let mut w = world();
    let lever = BlockPos::new(0, 64, 0);
    let lamp = BlockPos::new(1, 64, 0);
    place(&mut w, LeverBlock::default_state(), lever, Direction::UP, HorizontalDirection::NORTH);
    place(&mut w, BlockState(8202), lamp, Direction::UP, HorizontalDirection::NORTH);
    w.tick();
    assert!(!RedstoneLampState::from(w.get_block_state(lamp).unwrap()).lit());
    let bs = w.get_block_state(lever).unwrap();
    w.on_use_without_item(lever, bs);
    w.tick();
    assert!(RedstoneLampState::from(w.get_block_state(lamp).unwrap()).lit());
    let bs = w.get_block_state(lever).unwrap();
    w.on_use_without_item(lever, bs);
    w.tick();
    for _ in 0..3 {
        w.tick();
        assert!(RedstoneLampState::from(w.get_block_state(lamp).unwrap()).lit());
    }
    w.tick();
    assert!(!RedstoneLampState::from(w.get_block_state(lamp).unwrap()).lit());
}

struct PinnedSignal {
    pos: BlockPos,
    value: u8,
}

impl RedstoneOverride for PinnedSignal {
    fn answer(
        &self,
        pos: BlockPos,
        blockstate: BlockState,
        direction: Direction,
        strong: bool,
    ) -> Option<u8> {
        self.redstone_override(pos, blockstate, direction, strong)
    }

    fn redstone_override(
        &self,
        pos: BlockPos,
        _blockstate: BlockState,
        _direction: Direction,
        _strong: bool,
    ) -> Option<u8> {
        if pos == self.pos {
            Some(self.value)
        } else {
            None
        }
    }
}

#[test]
fn redstone_override_answers_first() {
    let mut w: LocalWorld<PinnedSignal> = LocalWorld::new(registry(), 0, 0, 1, 1);
    assert_eq!(w.set_chunk(ChunkPos::new(0, 0), Chunk::new(-4, 19)), Ok(()));
    let pin = BlockPos::new(2, 64, 2);
    assert!(w.set_block_state(pin, STONE).is_ok());
    assert_eq!(w.get_signal(pin, Direction::UP), 0);
    w.set_redstone_override(Some(PinnedSignal { pos: pin, value: 9 }));
    assert!(w.redstone_override().is_some());
    assert_eq!(w.get_signal(pin, Direction::UP), 9);
    assert_eq!(w.get_strong_signal(pin, Direction::EAST), 9);
    assert_eq!(w.get_signal_to(BlockPos::new(3, 64, 2)), 9);
    assert_eq!(w.get_signal(BlockPos::new(3, 64, 2), Direction::UP), 0);
    assert!(w.set_block_state(pin, BlockState(0)).is_ok());
    assert_eq!(w.get_signal(pin, Direction::UP), 9);
    w.set_redstone_override(None);
    assert_eq!(w.get_signal(pin, Direction::UP), 0);
}

#[test]
fn sampled_signals_answer_by_block_state() {
    let mut w: LocalWorld<SampledSignals> = LocalWorld::new(registry(), 0, 0, 1, 1);
    assert_eq!(w.set_chunk(ChunkPos::new(0, 0), Chunk::new(-4, 19)), Ok(()));
    let red_wool = BlockState(2093 + 14);
    let a = BlockPos::new(1, 64, 1);
    let wire = BlockPos::new(2, 64, 1);
    assert!(w.set_block_state(a, red_wool).is_ok());
    w.set_redstone_override(Some(SampledSignals {
        entries: vec![
            SampledSignal { blockstate: red_wool, signal: 7 },
            SampledSignal { blockstate: red_wool, signal: 3 },
            SampledSignal { blockstate: STONE, signal: 15 },
        ],
    }));
    assert_eq!(w.get_signal(a, Direction::EAST), 7);
    assert_eq!(w.get_strong_signal(a, Direction::EAST), 7);
    assert_eq!(w.get_signal(wire, Direction::EAST), 0);
    place(&mut w, RedstoneWireBlock::default_state(), wire, Direction::UP, HorizontalDirection::NORTH);
    w.tick();
    assert_eq!(wire_power(&w, wire), 7);
    w.set_redstone_override(Some(SampledSignals {
        entries: vec![SampledSignal { blockstate: red_wool, signal: 200 }],
    }));
    w.update_block(wire);
    w.tick();
    assert_eq!(wire_power(&w, wire), 15);
    w.set_redstone_override(Some(SampledSignals { entries: Vec::new() }));
    w.update_block(wire);
    w.tick();
    assert_eq!(wire_power(&w, wire), 0);
}

#[test]
fn world_update_packets() {
    let mut w = world();
    assert!(w.gen_blocks_update_packets_and_clear_changes().is_empty());
    assert!(w.set_block_state(BlockPos::new(3, 64, 5), WHITE_WOOL).is_ok());
    assert!(w.set_block_state(BlockPos::new(-16, -64, 31), STONE).is_ok());
    let packets = w.gen_blocks_update_packets_and_clear_changes();
    assert_eq!(packets.len(), 2);
    assert_eq!(
        packets[0].as_slice(),
        &[0x4d, 0xff, 0xff, 0xfc, 0x00, 0x00, 0x1f, 0xff, 0xfc, 1, 0x8f, 0x20]
    );
    assert_eq!(
        packets[1].as_slice(),
        &[0x4d, 0, 0, 0, 0, 0, 0, 0, 4, 1, 0x85, 0xa6, 0x8b, 0x04]
    );
    assert!(w.gen_blocks_update_packets_and_clear_changes().is_empty());
    assert_eq!(w.get_block_state(BlockPos::new(3, 64, 5)), Ok(WHITE_WOOL));
}

#[test]
fn net_chunk_of_air_and_of_a_missing_chunk() {
    let w = world();
    let mut pkt = MCPacketBuffer::part(0);
    w.write_net_chunk(ChunkPos::new(0, 0), &mut pkt);
    let mut expected = vec![0u8, 144, 1];
    for _ in 0..24 {
        expected.extend_from_slice(&[0, 0, 0, 0, 0, 0]);
    }
    expected.push(0);
    expected.extend_from_slice(&[1, 0, 0, 0, 0, 0, 0, 0, 0]);
    expected.extend_from_slice(&[1, 0, 0, 0, 0, 0, 0, 0, 0]);
    expected.extend_from_slice(&[1, 0xff, 0xff, 0xff, 0, 0, 0, 0, 0]);
    expected.extend_from_slice(&[1, 0xff, 0xff, 0xff, 0, 0, 0, 0, 0]);
    expected.extend_from_slice(&[0, 0]);
    assert_eq!(pkt.as_slice(), expected.as_slice());
    let mut missing = MCPacketBuffer::part(0);
    w.write_net_chunk(ChunkPos::new(9, 9), &mut missing);
    assert_eq!(missing.as_slice(), expected.as_slice());
}

#[test]
fn net_chunk_with_a_block() {
    let mut w = world();
    assert!(w.set_block_state(BlockPos::new(0, -64, 0), STONE).is_ok());
    let mut pkt = MCPacketBuffer::part(0);
    w.write_net_chunk(ChunkPos::new(0, 0), &mut pkt);
    let bytes = pkt.as_slice();
    let payload = 7683 + 2 + 23 * 6;
    assert_eq!(bytes.len(), 1 + 2 + payload + 39);
    assert_eq!(&bytes[..3], &[0, (payload & 0x7f) as u8 | 0x80, (payload >> 7) as u8]);
    assert_eq!(&bytes[3..8], &[0, 1, 15, 0x00, 0x02]);
}

#[test]
fn chunk_section_can_be_changed_in_place() {
    let mut chunk = Chunk::new(0, 1);
    assert!(chunk.get_section_mut(2).is_err());
    assert!(chunk.get_section_mut(-1).is_err());
    match chunk.get_section_mut(1) {
        Ok(section) => {
            assert_eq!(section.section_y(), 1);
            assert_eq!(section.set_block_state(7, STONE), BlockState(0));
        }
        Err(()) => panic!("no section"),
    }
    assert_eq!(chunk.get_block_state(ChunkLocalPos::new(7, 16, 0)), Ok(STONE));
    assert_eq!(chunk.get_section(1).unwrap().non_air_blocks(), 1);
    assert_eq!(chunk.get_section(0).unwrap().non_air_blocks(), 0);
}

#[test]
fn block_names() {
    let loc = BlockResLocs::resloc(BlockResLocs::REDSTONE_WIRE);
    assert_eq!(loc.to_string(), "minecraft:redstone_wire");
    assert_eq!(BlockResLocs::LEVER, "lever");
    assert_eq!(BlockResLocs::REDSTONE_WALL_TORCH, "redstone_wall_torch");
}

fn powers_along_a_run(source: u8) -> Vec<i8> {
    let mut w: LocalWorld<SampledSignals> = LocalWorld::new(registry(), 0, 0, 1, 1);
    assert_eq!(w.set_chunk(ChunkPos::new(0, 0), Chunk::new(-4, 19)), Ok(()));
    let red_wool = BlockState(2093 + 14);
    assert!(w.set_block_state(BlockPos::new(0, 64, 8), red_wool).is_ok());
    w.set_redstone_override(Some(SampledSignals {
        entries: vec![SampledSignal { blockstate: red_wool, signal: source }],
    }));
    for x in 1..=12 {
        place(
            &mut w,
            RedstoneWireBlock::default_state(),
            BlockPos::new(x, 64, 8),
            Direction::UP,
            HorizontalDirection::NORTH,
        );
    }
    place(
        &mut w,
        RedstoneWireBlock::default_state(),
        BlockPos::new(6, 64, 9),
        Direction::UP,
        HorizontalDirection::NORTH,
    );
    ticks(&mut w, 3);
    assert_eq!(w.pending_updates(), 0);
    let mut powers: Vec<i8> = (1..=12).map(|x| wire_power(&w, BlockPos::new(x, 64, 8))).collect();
    powers.push(wire_power(&w, BlockPos::new(6, 64, 9)));
    powers
}

#[test]
fn less_input_gives_no_more_power_anywhere() {
    let levels = [0u8, 1, 5, 9, 14, 15];
    let mut last: Option<Vec<i8>> = None;
    for source in levels {
        let powers = powers_along_a_run(source);
        for (i, p) in powers.iter().take(12).enumerate() {
            assert_eq!(*p as i32, (source as i32 - i as i32).max(0));
        }
        assert_eq!(powers[12] as i32, (source as i32 - 6).max(0));
        if let Some(previous) = &last {
            for (lower, higher) in previous.iter().zip(powers.iter()) {
                assert!(lower <= higher);
            }
        }
        last = Some(powers);
    }
}

#[test]
fn a_run_at_rest_is_left_alone_by_updates() {
    let mut w = world();
    assert!(w.set_block_state(BlockPos::new(-10, 64, 0), REDSTONE_BLOCK).is_ok());
    for i in 0..16 {
        place(
            &mut w,
            RedstoneWireBlock::default_state(),
            BlockPos::new(-9 + i, 64, 0),
            Direction::UP,
            HorizontalDirection::NORTH,
        );
    }
    ticks(&mut w, 2);
    assert_eq!(w.pending_updates(), 0);
    let _ = w.gen_blocks_update_packets_and_clear_changes();
    for i in 0..16 {
        let pos = BlockPos::new(-9 + i, 64, 0);
        let before = w.get_block_state(pos).unwrap();
        w.update_block_now(pos, before);
        assert_eq!(w.get_block_state(pos), Ok(before));
        assert_eq!(w.pending_updates(), 0);
    }
    assert!(w.gen_blocks_update_packets_and_clear_changes().is_empty());
}

#[test]
fn wire_carries_power_up_a_step() {
    let mut w = world();
    let lower = BlockPos::new(1, 63, 0);
    let upper = BlockPos::new(0, 64, 0);
    assert!(w.set_block_state(BlockPos::new(2, 63, 0), REDSTONE_BLOCK).is_ok());
    place(&mut w, RedstoneWireBlock::default_state(), lower, Direction::UP, HorizontalDirection::NORTH);
    place(&mut w, RedstoneWireBlock::default_state(), upper, Direction::UP, HorizontalDirection::NORTH);
    ticks(&mut w, 3);
    assert_eq!(w.pending_updates(), 0);
    let above = RedstoneWireState::from(w.get_block_state(upper).unwrap());
    let below = RedstoneWireState::from(w.get_block_state(lower).unwrap());
    assert_eq!(above.connection(HorizontalDirection::EAST), Connection::SIDE);
    assert_eq!(below.connection(HorizontalDirection::WEST), Connection::UP);
    assert_eq!(below.power(), 15);
    assert_eq!(above.power(), 14);
    assert_eq!(RedstoneWireBlock::calculate_power(&w, upper, above.block_state()), 14);
}

#[test]
fn wire_carries_power_down_a_step() {
    let mut w = world();
    let lower = BlockPos::new(1, 63, 0);
    let upper = BlockPos::new(0, 64, 0);
    assert!(w.set_block_state(BlockPos::new(-1, 64, 0), REDSTONE_BLOCK).is_ok());
    place(&mut w, RedstoneWireBlock::default_state(), upper, Direction::UP, HorizontalDirection::NORTH);
    place(&mut w, RedstoneWireBlock::default_state(), lower, Direction::UP, HorizontalDirection::NORTH);
    ticks(&mut w, 3);
    assert_eq!(w.pending_updates(), 0);
    assert_eq!(wire_power(&w, upper), 15);
    assert_eq!(wire_power(&w, lower), 14);
}

#[test]
fn a_conductor_beside_a_wire_cuts_it_from_the_wire_below() {
    let mut w = world();
    let lower = BlockPos::new(1, 63, 0);
    let upper = BlockPos::new(0, 64, 0);
    let between = BlockPos::new(1, 64, 0);
    assert!(w.set_block_state(BlockPos::new(2, 63, 0), REDSTONE_BLOCK).is_ok());
    assert!(w.set_block_state(between, BlockState(2093)).is_ok());
    place(&mut w, RedstoneWireBlock::default_state(), lower, Direction::UP, HorizontalDirection::NORTH);
    place(&mut w, RedstoneWireBlock::default_state(), upper, Direction::UP, HorizontalDirection::NORTH);
    ticks(&mut w, 3);
    assert_eq!(wire_power(&w, lower), 15);
    assert_eq!(wire_power(&w, upper), 0);
}
