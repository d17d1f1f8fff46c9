use tileglobe::color::RGBA8;
use tileglobe::direction::{Direction, HorizontalDirection};
use tileglobe::pos::{floor_div_16, floor_mod_16, BlockPos, ChunkLocalPos, ChunkPos};
use tileglobe::resloc::{ResLoc, ResLocError};
use tileglobe::world::block::blocks::lever::{LeverBlock, LeverState};
use tileglobe::world::block::blocks::redstone_block::RedstoneBlock;
use tileglobe::world::block::blocks::redstone_comparator::{
    Mode, RedstoneComparatorBlock, RedstoneComparatorState,
};
use tileglobe::world::block::blocks::redstone_lamp::{RedstoneLampBlock, RedstoneLampState};
use tileglobe::world::block::blocks::redstone_repeater::{
    RedstoneRepeaterBlock, RedstoneRepeaterState,
};
use tileglobe::world::block::blocks::redstone_torch::{
    RedstoneTorchBlock, RedstoneTorchState, RedstoneTorchType,
};
use tileglobe::world::block::blocks::redstone_wire::{
    Connection, RedstoneWireBlock, RedstoneWireState,
};
use tileglobe::world::block::blocks::AttachFace;
use tileglobe::world::block::misc::MapColor;
use tileglobe::world::block::{
    BlockState, BoolProperty, IndexedEnum, Property, SimpleBlockState, StateId,
};

const ALL_DIRECTIONS: [Direction; 6] = [
    Direction::DOWN,
    Direction::UP,
    Direction::NORTH,
    Direction::SOUTH,
    Direction::WEST,
    Direction::EAST,
];

const ALL_HORIZONTALS: [HorizontalDirection; 4] = [
    HorizontalDirection::NORTH,
    HorizontalDirection::SOUTH,
    HorizontalDirection::WEST,
    HorizontalDirection::EAST,
];

#[test]
fn rgba_channels() {
    let c = RGBA8::new(0x11, 0x22, 0x33, 0x44);
    assert_eq!(c.0, 0x4433_2211);
    assert_eq!((c.r(), c.g(), c.b(), c.a()), (0x11, 0x22, 0x33, 0x44));
    let white = RGBA8::new(0xff, 0xff, 0xff, 0);
    assert_eq!(white.0, 0x00ff_ffff);
    assert_eq!(MapColor::new(white).color().0, 0x00ff_ffff);
}

#[test]
fn direction_names_and_indices() {
    let names = ["down", "up", "north", "south", "west", "east"];
    for (i, d) in ALL_DIRECTIONS.iter().enumerate() {
        assert_eq!(d.name(), names[i]);
        assert_eq!(d.index() as usize, i);
        assert_eq!(Direction::from_index(i as u8), Some(*d));
    }
    assert_eq!(Direction::from_index(6), None);
    assert_eq!(Direction::from_index(255), None);
}

#[test]
fn direction_opposites_and_normals() {
    assert_eq!(Direction::DOWN.opposite(), Direction::UP);
    assert_eq!(Direction::NORTH.opposite(), Direction::SOUTH);
    assert_eq!(Direction::WEST.opposite(), Direction::EAST);
    assert_eq!(Direction::DOWN.normal_i16(), (0, -1, 0));
    assert_eq!(Direction::UP.normal_i16(), (0, 1, 0));
    assert_eq!(Direction::NORTH.normal_i16(), (0, 0, -1));
    assert_eq!(Direction::SOUTH.normal_i16(), (0, 0, 1));
    assert_eq!(Direction::WEST.normal_i16(), (-1, 0, 0));
    assert_eq!(Direction::EAST.normal_i16(), (1, 0, 0));
    for d in ALL_DIRECTIONS {
        assert_eq!(d.opposite().opposite(), d);
        let n = d.normal_i16();
        let o = d.opposite().normal_i16();
        assert_eq!((n.0 + o.0, n.1 + o.1, n.2 + o.2), (0, 0, 0));
    }
}

#[test]
fn horizontal_turns() {
    assert_eq!(HorizontalDirection::NORTH.cw(), HorizontalDirection::EAST);
    assert_eq!(HorizontalDirection::EAST.cw(), HorizontalDirection::SOUTH);
    assert_eq!(HorizontalDirection::NORTH.ccw(), HorizontalDirection::WEST);
    for h in ALL_HORIZONTALS {
        assert_eq!(h.cw().ccw(), h);
        assert_eq!(h.cw().cw(), h.opposite());
        assert_eq!(h.direction().horizontal(), Some(h));
        assert_eq!(h.opposite().direction(), h.direction().opposite());
        assert_eq!(HorizontalDirection::from_index(h.index()), h);
    }
    assert_eq!(Direction::UP.horizontal(), None);
    assert_eq!(Direction::DOWN.horizontal(), None);
}

#[test]
fn floor_division_of_coordinates() {
    assert_eq!(floor_div_16(0), 0);
    assert_eq!(floor_div_16(15), 0);
    assert_eq!(floor_div_16(16), 1);
    assert_eq!(floor_div_16(-1), -1);
    assert_eq!(floor_div_16(-16), -1);
    assert_eq!(floor_div_16(-17), -2);
    assert_eq!(floor_div_16(i16::MIN), -2048);
    assert_eq!(floor_div_16(i16::MAX), 2047);
    assert_eq!(floor_mod_16(-1), 15);
    assert_eq!(floor_mod_16(-17), 15);
    assert_eq!(floor_mod_16(35), 3);
    assert_eq!(floor_mod_16(i16::MIN), 0);
}

#[test]
fn block_pos_chunk_and_local() {
    let p = BlockPos::new(-1, 70, -17);
    assert_eq!(p.chunk_pos(), ChunkPos::new(-1, -2));
    let l = p.chunk_local_pos();
    assert_eq!((l.x(), l.y(), l.z()), (15, 70, 15));
    let q = BlockPos::new(3, 64, 5);
    assert_eq!(q.chunk_pos(), ChunkPos { x: 0, z: 0 });
    assert_eq!(q.chunk_local_pos(), ChunkLocalPos(16467));
}

#[test]
fn block_pos_offsets() {
    let p = BlockPos::new(1, 2, 3);
    assert_eq!(p.offset_dir(Direction::DOWN), BlockPos::new(1, 1, 3));
    assert_eq!(p.offset_dir(Direction::UP), BlockPos::new(1, 3, 3));
    assert_eq!(p.offset_dir(Direction::NORTH), BlockPos::new(1, 2, 2));
    assert_eq!(p.offset_dir(Direction::SOUTH), BlockPos::new(1, 2, 4));
    assert_eq!(p.offset_dir(Direction::WEST), BlockPos::new(0, 2, 3));
    assert_eq!(p.offset_dir(Direction::EAST), BlockPos::new(2, 2, 3));
    assert_eq!(p.offset(-2, 2, 0), BlockPos::new(-1, 4, 3));
    let edge = BlockPos::new(i16::MAX, i16::MIN, 0);
    assert_eq!(edge.offset_dir(Direction::EAST), BlockPos::new(i16::MIN, i16::MIN, 0));
    assert_eq!(edge.offset_dir(Direction::DOWN), BlockPos::new(i16::MAX, i16::MAX, 0));
}

#[test]
fn chunk_local_pos_packing() {
    let l = ChunkLocalPos::new(3, 64, 5);
    assert_eq!(l.0, 16467);
    assert_eq!((l.x(), l.y(), l.z()), (3, 64, 5));
    assert_eq!(l.section(), 4);
    assert_eq!(l.section_block_index(), 83);
    let m = ChunkLocalPos::new(0xff, -1, 0x1f);
    assert_eq!(m.0, 0x00ff_ffff);
    assert_eq!((m.x(), m.y(), m.z()), (15, -1, 15));
    assert_eq!(m.section(), -1);
    assert_eq!(m.section_block_index(), 4095);
    let low = ChunkLocalPos::new(0, -64, 0);
    assert_eq!(low.section(), -4);
    assert_eq!(low.section_block_index(), 0);
    let high = ChunkLocalPos::new(1, 4096, 2);
    assert_eq!(high.section(), 256);
    assert_eq!(high.y(), 4096);
}

#[test]
fn resloc_validation() {
    assert!(ResLoc::is_valid_namespace("minecraft"));
    assert!(ResLoc::is_valid_namespace("a-b_c.9"));
    assert!(!ResLoc::is_valid_namespace(""));
    assert!(!ResLoc::is_valid_namespace("Minecraft"));
    assert!(!ResLoc::is_valid_namespace("a/b"));
    assert!(!ResLoc::is_valid_namespace("a:b"));
    assert!(!ResLoc::is_valid_namespace("é"));
    assert!(ResLoc::is_valid_path("worldgen/biome"));
    assert!(ResLoc::is_valid_path("redstone_wire"));
    assert!(!ResLoc::is_valid_path(""));
    assert!(!ResLoc::is_valid_path("a b"));
    assert!(!ResLoc::is_valid_path("A"));
}

#[test]
fn resloc_constructors() {
    let loc = ResLoc::new("minecraft", "stone");
    assert_eq!(loc.namespace, "minecraft");
    assert_eq!(loc.path, "stone");
    assert_eq!(loc.validate(), Ok(()));
    let owned = ResLoc::new_owned(String::from("x"), String::from("y/z")).into_owned();
    assert_eq!((owned.namespace.as_str(), owned.path.as_str()), ("x", "y/z"));
    assert!(ResLoc::new_checked("minecraft", "lever").is_ok());
    assert_eq!(
        ResLoc::new_checked("Bad", "lever").err(),
        Some(ResLocError::InvalidNamespace)
    );
    assert_eq!(
        ResLoc::new_checked("minecraft", "Bad").err(),
        Some(ResLocError::InvalidPath)
    );
    assert_eq!(
        ResLoc::new_checked("", "").err(),
        Some(ResLocError::InvalidNamespace)
    );
    assert_eq!(
        ResLoc::new_owned_checked(String::from("ok"), String::from("")).err(),
        Some(ResLocError::InvalidPath)
    );
    assert!(ResLoc::new_owned_checked(String::from("ok"), String::from("a/b")).is_ok());
    assert_eq!(ResLoc::new("NO", "x").validate(), Err(ResLocError::InvalidNamespace));
}

#[test]
fn air_is_state_zero() {
    assert_eq!(BlockState::default(), BlockState(0));
    assert!(BlockState(0).is_air());
    assert!(!BlockState(1).is_air());
    assert!(BlockState(5).in_range(5, 1));
    assert!(!BlockState(6).in_range(5, 1));
    assert!(!BlockState(4).in_range(5, 1));
    assert!(BlockState(65535).in_range(65530, 6));
}

#[test]
fn indexed_enums() {
    assert_eq!(<AttachFace as IndexedEnum>::variant_count(), 3);
    assert_eq!(AttachFace::CEILING.to_index(), 2);
    assert_eq!(<AttachFace as IndexedEnum>::of_index(1), AttachFace::WALL);
    assert_eq!(<Connection as IndexedEnum>::variant_count(), 3);
    assert_eq!(Connection::NONE.to_index(), 2);
    assert_eq!(<Mode as IndexedEnum>::of_index(1), Mode::SUBTRACT);
    assert_eq!(<HorizontalDirection as IndexedEnum>::variant_count(), 4);
    assert_eq!(
        <HorizontalDirection as IndexedEnum>::of_index(2),
        HorizontalDirection::WEST
    );
}

#[test]
fn property_raw_digits() {
    let mut s = LeverState::from_state_id(StateId(9));
    assert_eq!(s.state_id(), StateId(9));
    assert_eq!(<LeverState as Property<2, 1>>::get_raw(s), 1);
    assert_eq!(<LeverState as Property<4, 2>>::get_raw(s), 0);
    assert_eq!(<LeverState as Property<3, 8>>::get_raw(s), 1);
    <LeverState as Property<4, 2>>::set_raw(&mut s, 3);
    assert_eq!(s.state_id(), StateId(15));
    <LeverState as BoolProperty<1>>::set(&mut s, true);
    assert_eq!(s.state_id(), StateId(14));
    assert!(<LeverState as BoolProperty<1>>::get(s));
    s.set_state_id(StateId(23));
    assert_eq!(<LeverState as Property<3, 8>>::get_raw(s), 2);
}

#[test]
fn property_round_trip_over_all_lever_states() {
    for id in 0..24u16 {
        let given = LeverState(StateId(id));
        let mut s = given;
        s.set_powered(given.powered());
        assert_eq!(s, given);
        s.set_facing(given.facing());
        assert_eq!(s, given);
        s.set_face(given.face());
        assert_eq!(s, given);
        assert_eq!(LeverState::from(given.block_state()), given);
    }
}

#[test]
fn property_round_trip_over_all_repeater_and_comparator_states() {
    for id in 0..64u16 {
        let given = RedstoneRepeaterState(StateId(id));
        let mut s = given;
        s.set_powered(given.powered());
        s.set_locked(given.locked());
        s.set_facing(given.facing());
        s.set_delay(given.delay());
        assert_eq!(s, given);
    }
    for id in 0..16u16 {
        let given = RedstoneComparatorState(StateId(id));
        let mut s = given;
        s.set_powered(given.powered());
        s.set_mode(given.mode());
        s.set_facing(given.facing());
        assert_eq!(s, given);
    }
    for id in 0..2u16 {
        let given = RedstoneLampState(StateId(id));
        let mut s = given;
        s.set_lit(given.lit());
        assert_eq!(s, given);
    }
}

#[test]
fn property_round_trip_over_all_wire_states() {
    for id in 0..1296u16 {
        let given = RedstoneWireState(StateId(id));
        let mut s = given;
        s.set_power(given.power());
        for h in ALL_HORIZONTALS {
            s.set_connection(h, given.connection(h));
        }
        assert_eq!(s, given);
    }
}

#[test]
fn setting_one_property_leaves_the_others() {
    for id in 0..1296u16 {
        let given = RedstoneWireState(StateId(id));
        let mut s = given;
        s.set_power(7);
        assert_eq!(s.power(), 7);
        for h in ALL_HORIZONTALS {
            assert_eq!(s.connection(h), given.connection(h));
        }
        let mut t = given;
        t.set_connection(HorizontalDirection::NORTH, Connection::UP);
        assert_eq!(t.connection(HorizontalDirection::NORTH), Connection::UP);
        assert_eq!(t.power(), given.power());
        assert_eq!(
            t.connection(HorizontalDirection::EAST),
            given.connection(HorizontalDirection::EAST)
        );
        assert_eq!(
            t.connection(HorizontalDirection::WEST),
            given.connection(HorizontalDirection::WEST)
        );
        assert!(t.0 .0 < 1296);
    }
}

#[test]
fn lever_states() {
    let default = LeverBlock::default_state();
    assert_eq!(default, BlockState(5811));
    let s = LeverState::from(default);
    assert!(!s.powered());
    assert_eq!(s.facing(), HorizontalDirection::NORTH);
    assert_eq!(s.face(), AttachFace::WALL);
    assert_eq!(LeverBlock::facing_direction(s), Direction::SOUTH);
    assert!(LeverBlock::is_lever(BlockState(5802)));
    assert!(LeverBlock::is_lever(BlockState(5825)));
    assert!(!LeverBlock::is_lever(BlockState(5826)));
    assert!(!LeverBlock::is_lever(BlockState(5801)));
    assert_eq!(LeverBlock::toggled(default), BlockState(5810));
    assert_eq!(LeverBlock::toggled(BlockState(5810)), default);
}

#[test]
fn lever_placement() {
    assert_eq!(LeverBlock::get_state_for_placement(Direction::UP), BlockState(5803));
    assert_eq!(LeverBlock::get_state_for_placement(Direction::NORTH), BlockState(5811));
    assert_eq!(LeverBlock::get_state_for_placement(Direction::EAST), BlockState(5817));
    let ceiling = LeverState::from(LeverBlock::get_state_for_placement(Direction::DOWN));
    assert_eq!(ceiling.face(), AttachFace::CEILING);
    assert_eq!(ceiling.facing(), HorizontalDirection::NORTH);
    assert_eq!(LeverBlock::facing_direction(ceiling), Direction::UP);
    let floor = LeverState::from(BlockState(5803));
    assert_eq!(LeverBlock::facing_direction(floor), Direction::DOWN);
    let east_wall = LeverState::from(BlockState(5817));
    assert_eq!(LeverBlock::facing_direction(east_wall), Direction::WEST);
}

#[test]
fn lever_signals() {
    let off = BlockState(5811);
    let on = BlockState(5810);
    for d in ALL_DIRECTIONS {
        assert_eq!(LeverBlock::get_signal(off, d), 0);
        assert_eq!(LeverBlock::get_signal(on, d), 15);
        assert_eq!(LeverBlock::get_strong_signal(off, d), 0);
        let expected = if d == Direction::SOUTH { 15 } else { 0 };
        assert_eq!(LeverBlock::get_strong_signal(on, d), expected);
    }
}

#[test]
fn repeater_states() {
    let default = RedstoneRepeaterBlock::default_state();
    assert_eq!(default, BlockState(6063));
    let s = RedstoneRepeaterState::from(default);
    assert!(!s.powered());
    assert!(!s.locked());
    assert_eq!(s.delay(), 1);
    assert_eq!(s.facing(), HorizontalDirection::NORTH);
    assert_eq!(RedstoneRepeaterBlock::delay_ticks(default), 2);
    assert_eq!(RedstoneRepeaterBlock::cycled(default), BlockState(6079));
    assert_eq!(RedstoneRepeaterBlock::delay_ticks(BlockState(6079)), 4);
    assert_eq!(RedstoneRepeaterBlock::cycled(BlockState(6111)), default);
    assert_eq!(RedstoneRepeaterBlock::delay_ticks(BlockState(6111)), 8);
    assert!(RedstoneRepeaterBlock::is_redstone_repeater(BlockState(6060)));
    assert!(RedstoneRepeaterBlock::is_redstone_repeater(BlockState(6123)));
    assert!(!RedstoneRepeaterBlock::is_redstone_repeater(BlockState(6124)));
}

#[test]
fn repeater_placement_and_signal() {
    assert_eq!(
        RedstoneRepeaterBlock::get_state_for_placement(HorizontalDirection::SOUTH),
        BlockState(6063)
    );
    assert_eq!(
        RedstoneRepeaterBlock::get_state_for_placement(HorizontalDirection::NORTH),
        BlockState(6067)
    );
    let on = RedstoneRepeaterBlock::ticked(BlockState(6063), true);
    assert_eq!(on, BlockState(6062));
    assert_eq!(RedstoneRepeaterBlock::ticked(on, true), on);
    assert_eq!(RedstoneRepeaterBlock::ticked(on, false), BlockState(6063));
    assert_eq!(RedstoneRepeaterBlock::ticked(BlockState(6063), false), BlockState(6063));
    for d in ALL_DIRECTIONS {
        let expected = if d == Direction::SOUTH { 15 } else { 0 };
        assert_eq!(RedstoneRepeaterBlock::get_signal(on, d), expected);
        assert_eq!(RedstoneRepeaterBlock::get_strong_signal(on, d), expected);
        assert_eq!(RedstoneRepeaterBlock::get_signal(BlockState(6063), d), 0);
    }
    assert!(RedstoneRepeaterBlock::is_attract_redstone_wire_connection(
        on,
        HorizontalDirection::NORTH
    ));
    assert!(RedstoneRepeaterBlock::is_attract_redstone_wire_connection(
        on,
        HorizontalDirection::SOUTH
    ));
    assert!(!RedstoneRepeaterBlock::is_attract_redstone_wire_connection(
        on,
        HorizontalDirection::EAST
    ));
}

#[test]
fn comparator_states_and_output() {
    let default = RedstoneComparatorBlock::default_state();
    assert_eq!(default, BlockState(9985));
    let s = RedstoneComparatorState::from(default);
    assert!(!s.powered());
    assert_eq!(s.mode(), Mode::COMPARE);
    assert_eq!(RedstoneComparatorBlock::toggled(default), BlockState(9987));
    assert_eq!(RedstoneComparatorBlock::toggled(BlockState(9987)), default);
    assert_eq!(RedstoneComparatorBlock::with_powered(default, true), BlockState(9984));
    assert!(RedstoneComparatorBlock::is_redstone_comparator(BlockState(9999)));
    assert!(!RedstoneComparatorBlock::is_redstone_comparator(BlockState(10000)));
    assert_eq!(RedstoneComparatorBlock::output(Mode::SUBTRACT, 10, 4), 6);
    assert_eq!(RedstoneComparatorBlock::output(Mode::SUBTRACT, 4, 10), 0);
    assert_eq!(RedstoneComparatorBlock::output(Mode::COMPARE, 10, 4), 10);
    assert_eq!(RedstoneComparatorBlock::output(Mode::COMPARE, 4, 4), 4);
    assert_eq!(RedstoneComparatorBlock::output(Mode::COMPARE, 3, 4), 0);
    assert_eq!(
        RedstoneComparatorBlock::get_state_for_placement(HorizontalDirection::EAST),
        BlockState(9984 + 2 * 4 + 1)
    );
    assert_eq!(RedstoneComparatorBlock::get_signal(default, Direction::SOUTH, 9), 9);
    assert_eq!(RedstoneComparatorBlock::get_signal(default, Direction::NORTH, 9), 0);
    assert_eq!(RedstoneComparatorBlock::get_signal(default, Direction::UP, 9), 0);
}

#[test]
fn torch_states() {
    let floor = RedstoneTorchBlock { torch_type: RedstoneTorchType::Floor };
    let wall = RedstoneTorchBlock { torch_type: RedstoneTorchType::Wall };
    assert_eq!(floor.default_state(), BlockState(5916));
    assert_eq!(wall.default_state(), BlockState(5918));
    assert_eq!(
        RedstoneTorchState::from(BlockState(5916)),
        RedstoneTorchState { facing: Direction::DOWN, lit: true }
    );
    assert_eq!(
        RedstoneTorchState::from(BlockState(5917)),
        RedstoneTorchState { facing: Direction::DOWN, lit: false }
    );
    assert_eq!(
        RedstoneTorchState::from(BlockState(5918)),
        RedstoneTorchState { facing: Direction::SOUTH, lit: true }
    );
    assert_eq!(
        RedstoneTorchState { facing: Direction::NORTH, lit: true }.block_state(),
        BlockState(5920)
    );
    for id in 5916..5926u16 {
        assert!(RedstoneTorchBlock::is_redstone_torch(BlockState(id)));
        let state = RedstoneTorchState::from(BlockState(id));
        assert_eq!(state.block_state(), BlockState(id));
    }
    assert!(!RedstoneTorchBlock::is_redstone_torch(BlockState(5926)));
    assert!(!RedstoneTorchBlock::is_redstone_torch(BlockState(5915)));
}

#[test]
fn torch_placement_and_signals() {
    assert_eq!(RedstoneTorchBlock::get_state_for_placement(Direction::UP), BlockState(5916));
    assert_eq!(RedstoneTorchBlock::get_state_for_placement(Direction::DOWN), BlockState(5916));
    assert_eq!(RedstoneTorchBlock::get_state_for_placement(Direction::EAST), BlockState(5924));
    assert_eq!(RedstoneTorchBlock::with_lit(BlockState(5924), false), BlockState(5925));
    assert_eq!(RedstoneTorchBlock::with_lit(BlockState(5925), true), BlockState(5924));
    for d in ALL_DIRECTIONS {
        let expected = if d == Direction::DOWN { 0 } else { 15 };
        assert_eq!(RedstoneTorchBlock::get_signal(BlockState(5916), d), expected);
        assert_eq!(RedstoneTorchBlock::get_signal(BlockState(5917), d), 0);
        let strong = if d == Direction::UP { 15 } else { 0 };
        assert_eq!(RedstoneTorchBlock::get_strong_signal(BlockState(5916), d), strong);
        assert_eq!(RedstoneTorchBlock::get_strong_signal(BlockState(5917), d), 0);
        let wall = if d == Direction::WEST { 0 } else { 15 };
        assert_eq!(RedstoneTorchBlock::get_signal(BlockState(5924), d), wall);
    }
}

#[test]
fn lamp_and_redstone_block() {
    assert_eq!(RedstoneLampBlock::default_state(), BlockState(8202));
    assert!(!RedstoneLampState::from(BlockState(8202)).lit());
    assert!(RedstoneLampState::from(BlockState(8201)).lit());
    assert_eq!(RedstoneLampBlock::with_lit(BlockState(8202), true), BlockState(8201));
    assert!(RedstoneLampBlock::is_redstone_lamp(BlockState(8201)));
    assert!(!RedstoneLampBlock::is_redstone_lamp(BlockState(8203)));
    assert_eq!(RedstoneBlock::default_state(), BlockState(10032));
    assert!(RedstoneBlock::is_redstone_block(BlockState(10032)));
    assert!(!RedstoneBlock::is_redstone_block(BlockState(10033)));
    for d in ALL_DIRECTIONS {
        assert_eq!(RedstoneBlock::get_signal(BlockState(10032), d), 15);
    }
}

#[test]
fn wire_states() {
    let default = RedstoneWireBlock::default_state();
    assert_eq!(default, BlockState(4202));
    let s = RedstoneWireState::from(default);
    assert_eq!(s.power(), 0);
    assert!(s.is_dot());
    assert!(!s.is_star());
    assert_eq!(RedstoneWireBlock::with_power(default, 15), BlockState(4337));
    assert_eq!(RedstoneWireState::from(BlockState(4337)).power(), 15);
    let mut star = s;
    star.set_all(Connection::SIDE);
    assert_eq!(star.block_state(), BlockState(3622));
    assert!(star.is_star());
    assert!(!star.is_dot());
    assert!(RedstoneWireBlock::is_redstone_wire(BlockState(3042)));
    assert!(RedstoneWireBlock::is_redstone_wire(BlockState(4337)));
    assert!(!RedstoneWireBlock::is_redstone_wire(BlockState(4338)));
    assert!(!RedstoneWireBlock::is_redstone_wire(BlockState(3041)));
}

#[test]
fn wire_use_toggles_dot_and_cross() {
    assert_eq!(RedstoneWireBlock::used(BlockState(4202)), BlockState(3622));
    assert_eq!(RedstoneWireBlock::used(BlockState(3622)), BlockState(4202));
    assert_eq!(RedstoneWireBlock::used(BlockState(3769)), BlockState(3769));
    let powered_dot = RedstoneWireBlock::with_power(BlockState(4202), 9);
    let powered_star = RedstoneWireBlock::used(powered_dot);
    assert_eq!(RedstoneWireState::from(powered_star).power(), 9);
    assert!(RedstoneWireState::from(powered_star).is_star());
}

#[test]
fn wire_shapes() {
    let none = Connection::NONE;
    let side = Connection::SIDE;
    let up = Connection::UP;
    let base = BlockState(4202);
    assert_eq!(RedstoneWireBlock::shaped(base, none, none, none, none), BlockState(3622));
    assert_eq!(RedstoneWireBlock::shaped(base, none, none, none, side), BlockState(3769));
    let line = RedstoneWireState::from(RedstoneWireBlock::shaped(base, up, none, none, none));
    assert_eq!(line.connection(HorizontalDirection::NORTH), up);
    assert_eq!(line.connection(HorizontalDirection::SOUTH), side);
    assert_eq!(line.connection(HorizontalDirection::WEST), none);
    assert_eq!(line.connection(HorizontalDirection::EAST), none);
    let corner = RedstoneWireState::from(RedstoneWireBlock::shaped(base, side, none, side, none));
    assert_eq!(corner.connection(HorizontalDirection::NORTH), side);
    assert_eq!(corner.connection(HorizontalDirection::WEST), side);
    assert_eq!(corner.connection(HorizontalDirection::SOUTH), none);
    assert_eq!(corner.connection(HorizontalDirection::EAST), none);
    let from_star = RedstoneWireBlock::shaped(BlockState(3622), none, side, none, none);
    let s = RedstoneWireState::from(from_star);
    assert_eq!(s.connection(HorizontalDirection::SOUTH), side);
    assert_eq!(s.connection(HorizontalDirection::NORTH), side);
    assert_eq!(s.connection(HorizontalDirection::EAST), none);
}

#[test]
fn wire_signals() {
    let line = RedstoneWireBlock::with_power(
        RedstoneWireBlock::shaped(BlockState(4202), Connection::NONE, Connection::NONE, Connection::NONE, Connection::SIDE),
        11,
    );
    assert_eq!(RedstoneWireBlock::get_signal(line, Direction::EAST), 11);
    assert_eq!(RedstoneWireBlock::get_signal(line, Direction::WEST), 11);
    assert_eq!(RedstoneWireBlock::get_signal(line, Direction::NORTH), 0);
    assert_eq!(RedstoneWireBlock::get_signal(line, Direction::SOUTH), 0);
    assert_eq!(RedstoneWireBlock::get_signal(line, Direction::DOWN), 11);
    assert_eq!(RedstoneWireBlock::get_signal(line, Direction::UP), 0);
    let climbing = RedstoneWireBlock::with_power(
        RedstoneWireBlock::shaped(BlockState(4202), Connection::UP, Connection::SIDE, Connection::NONE, Connection::NONE),
        5,
    );
    assert_eq!(RedstoneWireBlock::get_signal(climbing, Direction::NORTH), 0);
    assert_eq!(RedstoneWireBlock::get_signal(climbing, Direction::SOUTH), 5);
}

#[test]
fn resloc_from_text() {
    let full = ResLoc::try_from("minecraft:stone").unwrap();
    assert_eq!((full.namespace.as_str(), full.path.as_str()), ("minecraft", "stone"));
    let short = ResLoc::try_from("worldgen/biome").unwrap();
    assert_eq!((short.namespace.as_str(), short.path.as_str()), ("minecraft", "worldgen/biome"));
    let other = ResLoc::try_from("my-mod.x:a/b.c").unwrap();
    assert_eq!((other.namespace.as_str(), other.path.as_str()), ("my-mod.x", "a/b.c"));
    assert_eq!(ResLoc::try_from("").err(), Some(ResLocError::InvalidPath));
    assert_eq!(ResLoc::try_from(":stone").err(), Some(ResLocError::InvalidNamespace));
    assert_eq!(ResLoc::try_from("minecraft:").err(), Some(ResLocError::InvalidPath));
    assert_eq!(ResLoc::try_from("a:b:c").err(), Some(ResLocError::InvalidPath));
    assert_eq!(ResLoc::try_from("A:b").err(), Some(ResLocError::InvalidNamespace));
    assert_eq!(ResLoc::try_from("a/b:c").err(), Some(ResLocError::InvalidNamespace));
    assert_eq!(ResLoc::try_from("Stone").err(), Some(ResLocError::InvalidPath));
    assert_eq!(ResLoc::try_from("a:\u{e9}").err(), Some(ResLocError::InvalidPath));
    assert_eq!(ResLoc::try_from("\u{e9}:a").err(), Some(ResLocError::InvalidNamespace));
    assert_eq!(ResLoc::new("minecraft", "lever").to_string(), "minecraft:lever");
    assert_eq!(ResLoc::try_from("x:y/z").unwrap().to_string(), "x:y/z");
}
