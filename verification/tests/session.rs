use tileglobe::client::acks::AckQueue;
use tileglobe::client::error::{DataFault, MCClientError, ProtocolViolation};
use tileglobe::client::float::f32_bits_from_u32;
use tileglobe::client::items::item_to_block;
use tileglobe::client::mc_client::{
    parse_play_packet, use_item_cursor, ClientPhase, MCClient, PlayPacket, PlayerData,
};
use tileglobe::client::packets;
use tileglobe::client::parse::{
    hotbar_slot, intent_of, parse_handshake, parse_set_creative_mode_slot, ClientIntent,
    PlayerAction, SetCreativeModeSlot, UseItemOn,
};
use tileglobe::client::registry_data::{registry_packets, REGISTRY_PACKETS_DATA};
use tileglobe::direction::{Direction, HorizontalDirection};
use tileglobe::mc_server::{Admission, MCServer};
use tileglobe::network::block_pos::encode_block_pos;
use tileglobe::network::mc_packet::MCPacketBuffer;
use tileglobe::network::reader::{EIOReadExactError, PacketReader, ReadUTF8, ReadVarInt};
use tileglobe::player::Player;
use tileglobe::pos::{BlockPos, ChunkPos};
use tileglobe::resloc::ResLoc;
use tileglobe::utils::MCPlayerUUID;
use tileglobe::world::block::blocks::lever::LeverState;
use tileglobe::world::block::definition::BlockDef;
use tileglobe::world::block::registry::Blocks;
use tileglobe::world::block::BlockState;
use tileglobe::world::chunk::Chunk;
use tileglobe::world::world::{LocalWorld, NoOverride};

fn def(path: &str, id_base: u32, total_states: u32, default_state: u32) -> BlockDef {
    BlockDef {
        resloc: ResLoc::new("minecraft", path),
        default_state,
        id_base,
        total_states,
        properties: Vec::new(),
    }
}

fn registry() -> Blocks {
    let defs = vec![
        def("air", 0, 1, 0),
        def("stone", 1, 1, 0),
        def("filler_a", 2, 2091, 0),
        def("white_wool", 2093, 1, 0),
        def("filler_b", 2094, 948, 0),
        def("redstone_wire", 3042, 1296, 1160),
        def("filler_c", 4338, 1464, 0),
        def("lever", 5802, 24, 9),
        def("filler_d", 5826, 90, 0),
        def("redstone_torch", 5916, 2, 0),
        def("redstone_wall_torch", 5918, 8, 0),
        def("filler_e", 5926, 134, 0),
        def("repeater", 6060, 64, 3),
        def("filler_f", 6124, 3860, 0),
        def("comparator", 9984, 16, 1),
        def("filler_g", 10000, 32, 0),
        def("redstone_block", 10032, 1, 0),
    ];
    Blocks::from_defs(&defs).unwrap()
}

fn world() -> LocalWorld<NoOverride> {
    let mut w = LocalWorld::new(registry(), -1, -1, 3, 3);
    for x in -1..=1 {
        for z in -1..=1 {
            assert_eq!(w.set_chunk(ChunkPos::new(x, z), Chunk::new(-4, 19)), Ok(()));
        }
    }
    w
}

fn handshake_body(packet_id: i32, intent: i32) -> Vec<u8> {
    let mut pkt = MCPacketBuffer::new(packet_id);
    pkt.write_varint(772);
    pkt.write_utf8("localhost");
    pkt.write_be_u16(25565);
    pkt.write_varint(intent);
    pkt.as_slice().to_vec()
}

fn hello_body(name: &str) -> Vec<u8> {
    let mut pkt = MCPacketBuffer::new(0);
    pkt.write_utf8(name);
    pkt.write_uuid(0);
    pkt.as_slice().to_vec()
}

fn use_item_on_body(hand: u32, pos: BlockPos, face: u8, sequence: i32) -> Vec<u8> {
    let mut pkt = MCPacketBuffer::new(63);
    pkt.write_varint_u32(hand);
    pkt.write_be_u64(encode_block_pos(pos.x as i32, pos.y as i32, pos.z as i32));
    pkt.write_u8(face);
    pkt.write_be_u32(0x3f00_0000);
    pkt.write_be_u32(0x3f80_0000);
    pkt.write_be_u32(0x3e80_0000);
    pkt.write_bool(false);
    pkt.write_bool(false);
    pkt.write_varint(sequence);
    pkt.as_slice().to_vec()
}

fn creative_slot_body(slot: i16, item: i32) -> Vec<u8> {
    let mut pkt = MCPacketBuffer::new(55);
    pkt.write_be_u16(slot as u16);
    if item != 0 {
        pkt.write_varint_u32(1);
        pkt.write_varint(item);
        pkt.write_varint_u32(0);
        pkt.write_varint_u32(0);
    } else {
        pkt.write_varint_u32(0);
    }
    pkt.as_slice().to_vec()
}

fn play_client(w: &mut LocalWorld<NoOverride>, name: &str) -> MCClient {
    let mut client = MCClient::new();
    assert_eq!(client.handle_frame(w, &handshake_body(0, 2), HorizontalDirection::NORTH), Ok(Vec::new()));
    assert_eq!(client.phase(), ClientPhase::Login);
    assert!(client.handle_frame(w, &hello_body(name), HorizontalDirection::NORTH).is_ok());
    assert!(client.handle_frame(w, &[3], HorizontalDirection::NORTH).is_ok());
    assert_eq!(client.phase(), ClientPhase::Configuration);
    assert!(client.handle_frame(w, &[3], HorizontalDirection::NORTH).is_ok());
    assert_eq!(client.phase(), ClientPhase::Play);
    client
}

#[test]
fn offline_uuid_of_known_names() {
    assert_eq!(
        <u128 as MCPlayerUUID>::new_mc_offline_player("Notch"),
        0xb50ad385_829d_3141_a216_7e7d7539ba7f
    );
    assert_eq!(
        <u128 as MCPlayerUUID>::new_mc_offline_player("Steve"),
        0x5627dd98_e6be_3c21_b8a8_e92344183641
    );
    assert_eq!(
        <u128 as MCPlayerUUID>::new_mc_offline_player("jeb_"),
        0xa762f560_4fce_3236_812a_b80efff0b62b
    );
}

#[test]
fn offline_uuid_is_marked_as_version_three() {
    for name in ["", "a", "Alex", "someone_with_a_long_name"] {
        let uuid = <u128 as MCPlayerUUID>::new_mc_offline_player(name);
        assert_eq!((uuid >> 76) & 0xf, 3);
        assert_eq!((uuid >> 62) & 0x3, 2);
        let mut hashed = Vec::from("OfflinePlayer:".as_bytes());
        hashed.extend_from_slice(name.as_bytes());
        let digest = md5::compute(&hashed).0;
        let plain = u128::from_be_bytes(digest);
        let mask: u128 = !((0xf0u128 << 72) | (0xc0u128 << 56));
        assert_eq!(uuid & mask, plain & mask);
    }
}

#[test]
fn float_bits_of_whole_numbers() {
    assert_eq!(f32_bits_from_u32(0), 0);
    assert_eq!(f32_bits_from_u32(1), 0x3f80_0000);
    assert_eq!(f32_bits_from_u32(2), 0x4000_0000);
    assert_eq!(f32_bits_from_u32(3), 0x4040_0000);
    assert_eq!(f32_bits_from_u32(16777216), 0x4b80_0000);
    assert_eq!(f32_bits_from_u32(16777217), 0x4b80_0000);
    assert_eq!(f32_bits_from_u32(16777219), 0x4b80_0002);
    assert_eq!(f32_bits_from_u32(123456789), 0x4ceb_79a3);
    assert_eq!(f32_bits_from_u32(33554431), 0x4c00_0000);
    assert_eq!(f32_bits_from_u32(u32::MAX), 0x4f80_0000);
}

#[test]
fn float_bits_agree_with_the_machine() {
    let mut seed: u32 = 99;
    for i in 0..200000u32 {
        seed = seed.wrapping_mul(1664525).wrapping_add(1013904223);
        let v = if i % 2 == 0 { seed } else { seed >> (seed % 32) };
        assert_eq!(f32_bits_from_u32(v), (v as f32).to_bits(), "value {}", v);
    }
    for shift in 0..32 {
        for delta in [0u32, 1, 2, 3] {
            let v = (1u32 << shift).wrapping_add(delta);
            assert_eq!(f32_bits_from_u32(v), (v as f32).to_bits());
            let w = (1u32 << shift).wrapping_sub(delta);
            assert_eq!(f32_bits_from_u32(w), (w as f32).to_bits());
        }
    }
    assert_eq!(tileglobe::client::float::F64_TEN_BITS, (10.0f64).to_bits());
    assert_eq!(tileglobe::client::float::F64_ZERO_BITS, (0.0f64).to_bits());
    assert_eq!(tileglobe::client::float::F32_ZERO_BITS, (0.0f32).to_bits());
}

#[test]
fn item_table() {
    assert_eq!(item_to_block(0), None);
    assert_eq!(item_to_block(1), Some(BlockState(1)));
    assert_eq!(item_to_block(28), Some(BlockState(10)));
    assert_eq!(item_to_block(213), Some(BlockState(2093)));
    assert_eq!(item_to_block(228), Some(BlockState(2108)));
    assert_eq!(item_to_block(229), None);
    assert_eq!(item_to_block(212), None);
    assert_eq!(item_to_block(688), Some(BlockState(4202)));
    assert_eq!(item_to_block(689), Some(BlockState(5916)));
    assert_eq!(item_to_block(690), Some(BlockState(10032)));
    assert_eq!(item_to_block(691), Some(BlockState(6063)));
    assert_eq!(item_to_block(692), Some(BlockState(9985)));
    assert_eq!(item_to_block(697), Some(BlockState(13578)));
    assert_eq!(item_to_block(703), Some(BlockState(5811)));
    assert_eq!(item_to_block(705), Some(BlockState(10016)));
    assert_eq!(item_to_block(711), Some(BlockState(8202)));
    assert_eq!(item_to_block(712), Some(BlockState(582)));
    assert_eq!(item_to_block(713), Some(BlockState(5935)));
    assert_eq!(item_to_block(715), Some(BlockState(9405)));
    assert_eq!(item_to_block(1407), Some(BlockState(25771)));
    assert_eq!(item_to_block(1416), None);
    assert_eq!(item_to_block(65535), None);
}

#[test]
fn ack_queue_keeps_order() {
    let mut q = AckQueue::new();
    assert_eq!(q.len(), 0);
    for i in 0..40 {
        q.push(i * 3 - 7);
    }
    assert_eq!(q.len(), 40);
    for i in 0..40 {
        assert_eq!(q.get(i), i as i32 * 3 - 7);
    }
    q.clear();
    assert_eq!(q.len(), 0);
    q.push(5);
    assert_eq!(q.get(0), 5);
}

#[test]
fn registry_packets_are_sent_as_they_are() {
    let data = registry_packets();
    assert_eq!(data.len(), 942);
    assert_eq!(data.as_slice(), &REGISTRY_PACKETS_DATA[..]);
    assert_eq!(&data[..4], &[0x42, 0x07, 0x0e, 0x64]);
    let mut at = 0usize;
    let mut packets = 0;
    while at < data.len() {
        let mut reader = PacketReader::new(&data[at..]);
        let before = reader.remaining();
        let length = reader.read_varint_u32().unwrap() as usize;
        let header = before - reader.remaining();
        assert_eq!(reader.read_varint(), Ok(7));
        at += header + length;
        packets += 1;
    }
    assert_eq!(at, data.len());
    assert_eq!(packets, 11);
}

#[test]
fn handshake_intents() {
    assert_eq!(intent_of(1), Ok(ClientIntent::Status));
    assert_eq!(intent_of(2), Ok(ClientIntent::Login));
    assert_eq!(intent_of(3), Ok(ClientIntent::Login));
    assert_eq!(
        intent_of(0),
        Err(MCClientError::ProtocolError(ProtocolViolation::InvalidIntent { intent: 0 }))
    );
    assert_eq!(
        intent_of(4),
        Err(MCClientError::ProtocolError(ProtocolViolation::InvalidIntent { intent: 4 }))
    );
    let body = handshake_body(0, 2);
    let mut reader = PacketReader::new(&body[1..]);
    let h = parse_handshake(&mut reader).unwrap();
    assert_eq!(h.protocol_version, 772);
    assert_eq!(h.server_address, "localhost");
    assert_eq!(h.server_port, 25565);
    assert_eq!(h.intent, 2);
}

#[test]
fn handshake_protocol_error() {
    let mut w = world();
    let mut client = MCClient::new();
    assert_eq!(client.phase(), ClientPhase::Handshake);
    let r = client.handle_frame(&mut w, &handshake_body(1, 2), HorizontalDirection::NORTH);
    assert_eq!(
        r,
        Err(MCClientError::ProtocolError(ProtocolViolation::UnexpectedPacket { packet_type: 1 }))
    );
    assert_eq!(client.phase(), ClientPhase::Closed);
    assert!(client.player_data().is_none());
    assert_eq!(client.uuid(), None);
    assert_eq!(client.pending_acks(), 0);
    assert_eq!(client.handle_frame(&mut w, &handshake_body(0, 2), HorizontalDirection::NORTH), Ok(Vec::new()));
    assert_eq!(client.phase(), ClientPhase::Closed);
}

#[test]
fn handshake_errors() {
    let mut client = MCClient::new();
    assert_eq!(
        client.handle_handshake(&handshake_body(0, 9)),
        Err(MCClientError::ProtocolError(ProtocolViolation::InvalidIntent { intent: 9 }))
    );
    assert_eq!(client.phase(), ClientPhase::Closed);

    let mut client = MCClient::new();
    let body = handshake_body(0, 2);
    assert_eq!(
        client.handle_handshake(&body[..body.len() - 1]),
        Err(MCClientError::NetworkError(EIOReadExactError::UnexpectedEof))
    );

    let mut client = MCClient::new();
    assert_eq!(
        client.handle_handshake(&[0x80, 0x80, 0x80, 0x80, 0x80, 0x80]),
        Err(MCClientError::ProtocolError(ProtocolViolation::VarIntTooBig { max_bytes: 5 }))
    );

    let mut client = MCClient::new();
    assert_eq!(
        client.handle_handshake(&[0, 1, 2, 0xc3, 0x28, 0, 0, 1]),
        Err(MCClientError::DataError(DataFault::InvalidUtf8))
    );

    let mut client = MCClient::new();
    assert_eq!(client.handle_handshake(&[]), Err(MCClientError::NetworkError(EIOReadExactError::UnexpectedEof)));

    let mut client = MCClient::new();
    assert_eq!(client.handle_handshake(&handshake_body(0, 1)), Ok(ClientIntent::Status));
    assert_eq!(client.phase(), ClientPhase::Status);
    let mut client = MCClient::new();
    assert_eq!(client.handle_handshake(&handshake_body(0, 3)), Ok(ClientIntent::Login));
    assert_eq!(client.phase(), ClientPhase::Login);
}

#[test]
fn status_request_and_ping() {
    let mut w = world();
    let mut client = MCClient::new();
    assert_eq!(client.handle_frame(&mut w, &handshake_body(0, 1), HorizontalDirection::NORTH), Ok(Vec::new()));
    let sent = client.handle_frame(&mut w, &[0], HorizontalDirection::NORTH).unwrap();
    assert_eq!(sent.len(), 1);
    let json = "{\"version\":{\"name\":\"1.21.8\",\"protocol\":772}, \"description\":{\"text\":\"Hello, world!\"}}";
    let mut expected = vec![(json.len() + 2) as u8, 0, json.len() as u8];
    expected.extend_from_slice(json.as_bytes());
    assert_eq!(sent[0], expected);

    let mut ping = MCPacketBuffer::new(1);
    ping.write_be_i64(-0x0102_0304_0506_0708);
    let sent = client.handle_frame(&mut w, ping.as_slice(), HorizontalDirection::NORTH).unwrap();
    assert_eq!(sent, vec![vec![9, 1, 0xfe, 0xfd, 0xfc, 0xfb, 0xfa, 0xf9, 0xf8, 0xf8]]);
    assert_eq!(client.handle_frame(&mut w, &[7, 1, 2, 3], HorizontalDirection::NORTH), Ok(Vec::new()));
    assert_eq!(client.phase(), ClientPhase::Status);
    assert_eq!(client.handle_frame(&mut w, &[1, 0, 0], HorizontalDirection::NORTH), Err(MCClientError::NetworkError(EIOReadExactError::UnexpectedEof)));
    assert_eq!(client.phase(), ClientPhase::Closed);
}

#[test]
fn login_and_configuration() {
    let mut w = world();
    let mut client = MCClient::new();
    assert_eq!(client.handle_frame(&mut w, &handshake_body(0, 2), HorizontalDirection::NORTH), Ok(Vec::new()));
    assert_eq!(client.handle_frame(&mut w, &[9, 9, 9], HorizontalDirection::NORTH), Ok(Vec::new()));
    let sent = client.handle_frame(&mut w, &hello_body("Notch"), HorizontalDirection::NORTH).unwrap();
    let mut expected = vec![24u8, 2];
    expected.extend_from_slice(&0xb50ad385_829d_3141_a216_7e7d7539ba7fu128.to_be_bytes());
    expected.extend_from_slice(&[5, b'N', b'o', b't', b'c', b'h', 0]);
    assert_eq!(sent, vec![expected]);
    assert_eq!(client.phase(), ClientPhase::Login);
    assert_eq!(client.uuid(), Some(0xb50ad385_829d_3141_a216_7e7d7539ba7f));
    match client.player_data() {
        Some(player) => {
            assert_eq!(player.name, "Notch");
            assert_eq!(player.selected_hotbar_slot, 0);
            assert_eq!(player.inventory_items, vec![0u16; 46]);
        }
        None => panic!("no player"),
    }

    let sent = client.handle_frame(&mut w, &[3], HorizontalDirection::NORTH).unwrap();
    assert_eq!(client.phase(), ClientPhase::Configuration);
    assert_eq!(sent.len(), 3);
    assert_eq!(
        sent[0],
        vec![
            24, 14, 1, 9, b'm', b'i', b'n', b'e', b'c', b'r', b'a', b'f', b't', 4, b'c', b'o',
            b'r', b'e', 6, b'1', b'.', b'2', b'1', b'.', b'8'
        ]
    );
    assert_eq!(sent[1].as_slice(), &REGISTRY_PACKETS_DATA[..]);
    assert_eq!(sent[2], vec![1, 3]);
    assert_eq!(client.handle_frame(&mut w, &[2, 0, 0], HorizontalDirection::NORTH), Ok(Vec::new()));
    assert_eq!(client.phase(), ClientPhase::Configuration);
}

#[test]
fn login_acknowledged_before_hello_breaks_the_protocol() {
    let mut w = world();
    let mut client = MCClient::new();
    assert_eq!(client.handle_frame(&mut w, &handshake_body(0, 2), HorizontalDirection::NORTH), Ok(Vec::new()));
    assert_eq!(
        client.handle_frame(&mut w, &[3], HorizontalDirection::NORTH),
        Err(MCClientError::ProtocolError(ProtocolViolation::UnexpectedPacket { packet_type: 3 }))
    );
    assert_eq!(client.phase(), ClientPhase::Closed);
}

#[test]
fn play_entry_sends_chunks_before_the_position() {
    let mut w = world();
    let mut client = MCClient::new();
    assert!(client.handle_frame(&mut w, &handshake_body(0, 2), HorizontalDirection::NORTH).is_ok());
    assert!(client.handle_frame(&mut w, &hello_body("Alex"), HorizontalDirection::NORTH).is_ok());
    assert!(client.handle_frame(&mut w, &[3], HorizontalDirection::NORTH).is_ok());
    let sent = client.handle_frame(&mut w, &[3], HorizontalDirection::NORTH).unwrap();
    assert_eq!(client.phase(), ClientPhase::Play);
    assert_eq!(sent.len(), 4 + 25 + 1);
    let login: Vec<u8> = vec![
        70, 43, 0, 0, 0, 0, 0, 1, 19, b'm', b'i', b'n', b'e', b'c', b'r', b'a', b'f', b't', b':',
        b'o', b'v', b'e', b'r', b'w', b'o', b'r', b'l', b'd', 3, 32, 32, 0, 1, 0, 0, 19, b'm',
        b'i', b'n', b'e', b'c', b'r', b'a', b'f', b't', b':', b'o', b'v', b'e', b'r', b'w', b'o',
        b'r', b'l', b'd', 0, 0, 0, 0, 0, 0, 0, 0, 1, 0xff, 0, 0, 0, 0, 68, 0,
    ];
    assert_eq!(sent[0], login);
    assert_eq!(sent[1], vec![6, 30, 0, 0, 0, 0, 28]);
    assert_eq!(sent[2], vec![6, 34, 13, 0, 0, 0, 0]);
    assert_eq!(sent[3], vec![3, 87, 0, 0]);
    let mut k = 0;
    for cx in -2i32..=2 {
        for cz in -2i32..=2 {
            let chunk = &sent[4 + k];
            assert_eq!(chunk.len(), 2 + 1 + 8 + 186);
            assert_eq!(&chunk[..3], &[0xc3, 0x01, 39]);
            assert_eq!(&chunk[3..7], &cx.to_be_bytes());
            assert_eq!(&chunk[7..11], &cz.to_be_bytes());
            assert_eq!(&chunk[11..14], &[0, 144, 1]);
            k += 1;
        }
    }
    let mut position = vec![62u8, 65, 0];
    position.extend_from_slice(&0.0f64.to_be_bytes());
    position.extend_from_slice(&10.0f64.to_be_bytes());
    for _ in 0..4 {
        position.extend_from_slice(&0.0f64.to_be_bytes());
    }
    position.extend_from_slice(&0.0f32.to_be_bytes());
    position.extend_from_slice(&0.0f32.to_be_bytes());
    position.extend_from_slice(&[0, 0, 0, 0]);
    assert_eq!(sent[29], position);
    assert_eq!(MCClient::enter_play(&w), sent);
    assert_eq!(
        client.handle_frame(&mut w, &[52, 0, 4], HorizontalDirection::NORTH),
        Ok(Vec::new())
    );
    assert_eq!(client.player_data().as_ref().unwrap().selected_hotbar_slot, 4);
}

#[test]
fn play_packets_are_taken_apart() {
    let pos = BlockPos::new(3, 63, 5);
    let body = use_item_on_body(0, pos, 1, 42);
    assert_eq!(
        parse_play_packet(&body),
        Ok(PlayPacket::UseItemOn(UseItemOn {
            hand: 0,
            pos,
            face: Direction::UP,
            cursor_x: 0x3f00_0000,
            cursor_y: 0x3f80_0000,
            cursor_z: 0x3e80_0000,
            inside_block: false,
            world_border_hit: false,
            sequence: 42,
        }))
    );
    assert_eq!(use_item_cursor(&body), Some((0x3f00_0000, 0x3f80_0000, 0x3e80_0000)));
    assert_eq!(use_item_cursor(&[12]), None);
    assert_eq!(use_item_cursor(&body[..10]), None);
    assert_eq!(parse_play_packet(&body[..body.len() - 1]), Err(MCClientError::NetworkError(EIOReadExactError::UnexpectedEof)));
    let bad_face = use_item_on_body(0, pos, 6, 42);
    assert_eq!(
        parse_play_packet(&bad_face),
        Err(MCClientError::DataError(DataFault::EnumOutOfRange { index: 6 }))
    );

    let mut action = MCPacketBuffer::new(40);
    action.write_varint_u32(0);
    action.write_be_u64(encode_block_pos(-1, -64, 31));
    action.write_u8(5);
    action.write_varint(-9);
    assert_eq!(
        parse_play_packet(action.as_slice()),
        Ok(PlayPacket::PlayerAction(PlayerAction {
            action: 0,
            pos: BlockPos::new(-1, -64, 31),
            face: Direction::EAST,
            sequence: -9,
        }))
    );

    assert_eq!(parse_play_packet(&[52, 0xff, 0xfe]), Ok(PlayPacket::SetCarriedItem(-2)));
    assert_eq!(parse_play_packet(&[52, 0xff]), Err(MCClientError::NetworkError(EIOReadExactError::UnexpectedEof)));
    assert_eq!(parse_play_packet(&[4, 3]), Ok(PlayPacket::ChangeGameMode(3)));
    assert_eq!(
        parse_play_packet(&creative_slot_body(36, 213)),
        Ok(PlayPacket::SetCreativeModeSlot(SetCreativeModeSlot { slot: 36, item_id: 213 }))
    );
    assert_eq!(
        parse_play_packet(&creative_slot_body(-1, 0)),
        Ok(PlayPacket::SetCreativeModeSlot(SetCreativeModeSlot { slot: -1, item_id: 0 }))
    );
    assert_eq!(parse_play_packet(&[12]), Ok(PlayPacket::Ignored));
    assert_eq!(parse_play_packet(&[12, 1, 2, 3]), Ok(PlayPacket::Ignored));
    assert_eq!(parse_play_packet(&[99, 1, 2, 3]), Ok(PlayPacket::Ignored));
    assert_eq!(parse_play_packet(&[60, 0]), Ok(PlayPacket::Ignored));
    assert_eq!(parse_play_packet(&[60]), Err(MCClientError::NetworkError(EIOReadExactError::UnexpectedEof)));
    assert_eq!(parse_play_packet(&[42, 0]), Ok(PlayPacket::Ignored));
    assert_eq!(parse_play_packet(&[32, 0]), Ok(PlayPacket::Ignored));
    assert_eq!(parse_play_packet(&[27, 0, 0, 0, 0, 0, 0, 0, 0]), Ok(PlayPacket::Ignored));
    assert_eq!(parse_play_packet(&[27, 0, 0, 0]), Err(MCClientError::NetworkError(EIOReadExactError::UnexpectedEof)));
    let mut moved = vec![29u8];
    moved.extend_from_slice(&[0; 25]);
    assert_eq!(parse_play_packet(&moved), Ok(PlayPacket::Ignored));
    assert_eq!(parse_play_packet(&moved[..25]), Err(MCClientError::NetworkError(EIOReadExactError::UnexpectedEof)));
    let mut turned = vec![31u8];
    turned.extend_from_slice(&[0; 9]);
    assert_eq!(parse_play_packet(&turned), Ok(PlayPacket::Ignored));
    let mut both = vec![30u8];
    both.extend_from_slice(&[0; 33]);
    assert_eq!(parse_play_packet(&both), Ok(PlayPacket::Ignored));
    assert_eq!(parse_play_packet(&both[..33]), Err(MCClientError::NetworkError(EIOReadExactError::UnexpectedEof)));
    assert_eq!(parse_play_packet(&[]), Err(MCClientError::NetworkError(EIOReadExactError::UnexpectedEof)));
}

#[test]
fn creative_slot_item_ids() {
    let read = |bytes: &[u8]| {
        let mut reader = PacketReader::new(bytes);
        parse_set_creative_mode_slot(&mut reader)
    };
    assert_eq!(read(&[0, 5, 0]), Ok(SetCreativeModeSlot { slot: 5, item_id: 0 }));
    assert_eq!(read(&[0, 5, 1, 0xac, 0x02]), Ok(SetCreativeModeSlot { slot: 5, item_id: 300 }));
    assert_eq!(
        read(&[0, 5, 1, 0xff, 0xff, 0xff, 0xff, 0x0f]),
        Ok(SetCreativeModeSlot { slot: 5, item_id: 0 })
    );
    assert_eq!(
        read(&[0, 5, 1, 0x81, 0x80, 0x04]),
        Ok(SetCreativeModeSlot { slot: 5, item_id: 1 })
    );
    assert_eq!(read(&[0, 5, 1]), Err(MCClientError::NetworkError(EIOReadExactError::UnexpectedEof)));
    assert_eq!(read(&[0]), Err(MCClientError::NetworkError(EIOReadExactError::UnexpectedEof)));
    assert_eq!(hotbar_slot(-5), 0);
    assert_eq!(hotbar_slot(0), 0);
    assert_eq!(hotbar_slot(8), 8);
    assert_eq!(hotbar_slot(9), 8);
    assert_eq!(hotbar_slot(i16::MAX), 8);
}

#[test]
fn player_inventory_and_hands() {
    let mut w = world();
    let mut client = play_client(&mut w, "Alex");
    let toward = HorizontalDirection::NORTH;
    assert_eq!(client.play_handle_packet(&mut w, &creative_slot_body(36, 213), toward), Ok(Vec::new()));
    assert_eq!(client.play_handle_packet(&mut w, &creative_slot_body(38, 1), toward), Ok(Vec::new()));
    assert_eq!(client.play_handle_packet(&mut w, &creative_slot_body(45, 690), toward), Ok(Vec::new()));
    assert_eq!(client.play_handle_packet(&mut w, &creative_slot_body(46, 5), toward), Ok(Vec::new()));
    assert_eq!(client.play_handle_packet(&mut w, &creative_slot_body(-1, 5), toward), Ok(Vec::new()));
    {
        let player = client.player_data().as_ref().unwrap();
        assert_eq!(player.inventory_items[36], 213);
        assert_eq!(player.inventory_items[38], 1);
        assert_eq!(player.inventory_items[45], 690);
        assert_eq!(player.inventory_items.len(), 46);
        assert_eq!(player.held_item(0), 213);
        assert_eq!(player.held_item(1), 690);
    }
    assert_eq!(client.play_handle_packet(&mut w, &[52, 0, 2], toward), Ok(Vec::new()));
    assert_eq!(client.player_data().as_ref().unwrap().selected_hotbar_slot, 2);
    assert_eq!(client.player_data().as_ref().unwrap().held_item(0), 1);
    assert_eq!(client.play_handle_packet(&mut w, &[52, 0, 99], toward), Ok(Vec::new()));
    assert_eq!(client.player_data().as_ref().unwrap().selected_hotbar_slot, 8);
    assert_eq!(client.play_handle_packet(&mut w, &[52, 0xff, 0xff], toward), Ok(Vec::new()));
    assert_eq!(client.player_data().as_ref().unwrap().selected_hotbar_slot, 0);
    assert_eq!(client.play_handle_packet(&mut w, &creative_slot_body(36, 0), toward), Ok(Vec::new()));
    assert_eq!(client.player_data().as_ref().unwrap().held_item(0), 0);
    let fresh = PlayerData::new(String::from("Notch"));
    assert_eq!(fresh.uuid, 0xb50ad385_829d_3141_a216_7e7d7539ba7f);
    assert_eq!(fresh.held_item(0), 0);
}

#[test]
fn change_game_mode_is_echoed() {
    let mut w = world();
    let mut client = play_client(&mut w, "Alex");
    let sent = client
        .play_handle_packet(&mut w, &[4, 1], HorizontalDirection::NORTH)
        .unwrap();
    assert_eq!(sent, vec![vec![6, 34, 3, 0x3f, 0x80, 0x00, 0x00]]);
    let sent = client
        .play_handle_packet(&mut w, &[4, 3], HorizontalDirection::NORTH)
        .unwrap();
    assert_eq!(sent, vec![vec![6, 34, 3, 0x40, 0x40, 0x00, 0x00]]);
    assert_eq!(packets::game_mode_changed(0).as_slice(), &[34, 3, 0, 0, 0, 0]);
    assert_eq!(packets::keep_alive().framed(), vec![9, 38, 0, 0, 0, 0, 0, 0, 0, 0]);
    assert_eq!(packets::block_changed_ack(300).framed(), vec![3, 4, 0xac, 0x02]);
}

#[test]
fn placing_using_and_digging() {
    let mut w = world();
    let mut client = play_client(&mut w, "Alex");
    let toward = HorizontalDirection::NORTH;
    let stone = BlockPos::new(0, 63, 0);
    let above = BlockPos::new(0, 64, 0);
    assert!(w.set_block_state(stone, BlockState(1)).is_ok());
    assert!(client.play_handle_packet(&mut w, &creative_slot_body(36, 703), toward).is_ok());
    assert_eq!(client.play_handle_packet(&mut w, &use_item_on_body(0, stone, 1, 7), toward), Ok(Vec::new()));
    assert_eq!(w.get_block_state(above), Ok(BlockState(5803)));
    assert_eq!(client.pending_acks(), 1);

    assert_eq!(client.play_handle_packet(&mut w, &use_item_on_body(1, above, 1, 8), toward), Ok(Vec::new()));
    assert!(LeverState::from(w.get_block_state(above).unwrap()).powered());
    assert_eq!(client.pending_acks(), 2);
    assert_eq!(w.pending_updates(), 6 + 5);

    let nowhere = BlockPos::new(100, 64, 0);
    assert_eq!(client.play_handle_packet(&mut w, &use_item_on_body(1, nowhere, 1, 9), toward), Ok(Vec::new()));
    assert_eq!(client.play_handle_packet(&mut w, &use_item_on_body(0, nowhere, 1, 10), toward), Ok(Vec::new()));
    assert_eq!(client.pending_acks(), 2);

    assert!(client.play_handle_packet(&mut w, &creative_slot_body(36, 5), toward).is_ok());
    assert_eq!(client.play_handle_packet(&mut w, &use_item_on_body(0, above, 1, 11), toward), Ok(Vec::new()));
    assert_eq!(w.get_block_state(BlockPos::new(0, 65, 0)), Ok(BlockState(0)));
    assert_eq!(client.pending_acks(), 2);

    let mut dig = MCPacketBuffer::new(40);
    dig.write_varint_u32(0);
    dig.write_be_u64(encode_block_pos(0, 64, 0));
    dig.write_u8(1);
    dig.write_varint(12);
    assert_eq!(client.play_handle_packet(&mut w, dig.as_slice(), toward), Ok(Vec::new()));
    assert_eq!(w.get_block_state(above), Ok(BlockState(0)));
    assert_eq!(client.pending_acks(), 3);
    let mut other = MCPacketBuffer::new(40);
    other.write_varint_u32(2);
    other.write_be_u64(encode_block_pos(0, 63, 0));
    other.write_u8(1);
    other.write_varint(13);
    assert_eq!(client.play_handle_packet(&mut w, other.as_slice(), toward), Ok(Vec::new()));
    assert_eq!(w.get_block_state(stone), Ok(BlockState(1)));
    assert_eq!(client.pending_acks(), 3);

    let acks = client.tick();
    assert_eq!(acks, vec![vec![2, 4, 7], vec![2, 4, 8], vec![2, 4, 12]]);
    assert_eq!(client.pending_acks(), 0);
    assert!(client.tick().is_empty());
}

#[test]
fn placed_repeater_faces_away_from_the_cursor() {
    let mut w = world();
    let mut client = play_client(&mut w, "Alex");
    let ground = BlockPos::new(4, 63, 4);
    assert!(client
        .play_handle_packet(&mut w, &creative_slot_body(36, 691), HorizontalDirection::EAST)
        .is_ok());
    assert!(client
        .play_handle_packet(&mut w, &use_item_on_body(0, ground, 1, 1), HorizontalDirection::EAST)
        .is_ok());
    assert_eq!(w.get_block_state(BlockPos::new(4, 64, 4)), Ok(BlockState(6060 + 2 * 4 + 3)));
}

#[test]
fn a_bad_packet_ends_the_session() {
    let mut w = world();
    let mut client = play_client(&mut w, "Alex");
    assert_eq!(
        client.play_handle_packet(&mut w, &[63, 0], HorizontalDirection::NORTH),
        Err(MCClientError::NetworkError(EIOReadExactError::UnexpectedEof))
    );
    assert_eq!(client.phase(), ClientPhase::Closed);
    let mut other = play_client(&mut w, "Alex");
    other.close();
    assert_eq!(other.phase(), ClientPhase::Closed);
}

#[test]
fn chunk_delta_after_placement() {
    let mut w = world();
    let client = play_client(&mut w, "Alex");
    let uuid = client.uuid().unwrap();
    let mut server = MCServer::new(w);
    server.add_player(client);
    assert_eq!(server.player_count(), 1);
    assert!(server.has_player(uuid));
    let toward = HorizontalDirection::NORTH;
    assert_eq!(
        server.handle_player_frame(uuid, &creative_slot_body(36, 213), toward),
        Some(Ok(Vec::new()))
    );
    assert_eq!(
        server.handle_player_frame(uuid, &use_item_on_body(0, BlockPos::new(3, 63, 5), 1, 21), toward),
        Some(Ok(Vec::new()))
    );
    assert_eq!(server.world().get_block_state(BlockPos::new(3, 64, 5)), Ok(BlockState(2093)));
    server.tick_world();
    let out = server.tick();
    assert_eq!(out.len(), 1);
    assert_eq!(out[0].uuid, uuid);
    assert_eq!(
        out[0].pieces,
        vec![
            vec![14, 0x4d, 0, 0, 0, 0, 0, 0, 0, 4, 1, 0x85, 0xa6, 0x8b, 0x04],
            vec![2, 4, 21],
        ]
    );
    let again = server.tick();
    assert_eq!(again.len(), 1);
    assert!(again[0].pieces.is_empty());
}

#[test]
fn server_directory() {
    let mut w = world();
    let names = ["Steve", "Notch", "jeb_", "Alex"];
    let mut clients: Vec<MCClient> = Vec::new();
    for n in names {
        clients.push(play_client(&mut w, n));
    }
    let mut uuids: Vec<u128> = clients.iter().map(|c| c.uuid().unwrap()).collect();
    let mut server = MCServer::new(w);
    while let Some(c) = clients.pop() {
        server.add_player(c);
    }
    assert_eq!(server.player_count(), 4);
    uuids.sort();
    let out = server.tick();
    let order: Vec<u128> = out.iter().map(|o| o.uuid).collect();
    assert_eq!(order, uuids);

    let mut again = MCClient::new();
    for body in [handshake_body(0, 2), hello_body("Notch"), vec![3], vec![3]] {
        assert!(server.handle_frame(&mut again, &body, HorizontalDirection::NORTH).is_ok());
    }
    assert_eq!(again.phase(), ClientPhase::Play);
    server.add_player(again);
    assert_eq!(server.player_count(), 4);

    assert!(server.remove_player(12345).is_none());
    let gone = server.remove_player(uuids[1]).unwrap();
    assert_eq!(gone.uuid(), Some(uuids[1]));
    assert_eq!(server.player_count(), 3);
    assert!(!server.has_player(uuids[1]));
    assert!(server.has_player(uuids[0]));
    assert_eq!(
        server.handle_player_frame(uuids[1], &[12], HorizontalDirection::NORTH),
        None
    );
    assert_eq!(
        server.handle_player_frame(uuids[0], &[63], HorizontalDirection::NORTH),
        Some(Err(MCClientError::NetworkError(EIOReadExactError::UnexpectedEof)))
    );
    assert_eq!(server.player_count(), 2);
    assert!(!server.has_player(uuids[0]));
    let out = server.tick();
    let order: Vec<u128> = out.iter().map(|o| o.uuid).collect();
    assert_eq!(order, vec![uuids[2], uuids[3]]);
}

#[test]
fn every_player_gets_every_update() {
    let mut w = world();
    let a = play_client(&mut w, "Alex");
    let b = play_client(&mut w, "Steve");
    let first = a.uuid().unwrap();
    let mut server = MCServer::new(w);
    server.add_player(a);
    server.add_player(b);
    let toward = HorizontalDirection::NORTH;
    assert!(server.handle_player_frame(first, &creative_slot_body(36, 1), toward).is_some());
    assert!(server
        .handle_player_frame(first, &use_item_on_body(0, BlockPos::new(0, 0, 0), 1, 5), toward)
        .is_some());
    let out = server.tick();
    assert_eq!(out.len(), 2);
    for o in out.iter() {
        assert_eq!(o.pieces[0], vec![12, 0x4d, 0, 0, 0, 0, 0, 0, 0, 0, 1, 0x90, 0x20]);
        if o.uuid == first {
            assert_eq!(o.pieces.len(), 2);
            assert_eq!(o.pieces[1], vec![2, 4, 5]);
        } else {
            assert_eq!(o.pieces.len(), 1);
        }
    }
}

#[test]
fn player_as_the_server_sees_it() {
    let mut w = world();
    let mut client = play_client(&mut w, "Notch");
    assert_eq!(Player::uuid(&client), Some(0xb50ad385_829d_3141_a216_7e7d7539ba7f));
    let pkt = packets::keep_alive();
    assert_eq!(client.send_mc_packet(&pkt), vec![9, 38, 0, 0, 0, 0, 0, 0, 0, 0]);
    assert!(w.set_block_state(BlockPos::new(0, 0, 0), BlockState(1)).is_ok());
    let mut dig = MCPacketBuffer::new(40);
    dig.write_varint_u32(0);
    dig.write_be_u64(encode_block_pos(0, 0, 0));
    dig.write_u8(1);
    dig.write_varint(77);
    assert!(client.play_handle_packet(&mut w, dig.as_slice(), HorizontalDirection::NORTH).is_ok());
    assert_eq!(Player::tick(&mut client), vec![vec![2, 4, 77]]);
    assert!(Player::tick(&mut client).is_empty());
}

#[test]
fn reading_through_the_traits() {
    let bytes = [0xac, 0x02, 0xff, 0xff, 0xff, 0xff, 0xff, 0xff, 0xff, 0xff, 0xff, 0x01, 2, b'o', b'k'];
    let mut reader = PacketReader::new(&bytes);
    assert_eq!(ReadVarInt::read_varint(&mut reader), Ok(300));
    assert_eq!(ReadVarInt::read_varlong(&mut reader), Ok(u64::MAX));
    assert_eq!(ReadUTF8::read_utf8(&mut reader), Ok(String::from("ok")));
    assert_eq!(reader.remaining(), 0);
}

#[test]
fn a_session_enters_the_directory_when_it_reaches_play() {
    let mut server = MCServer::new(world());
    let mut session = MCClient::new();
    let bodies = [handshake_body(0, 2), hello_body("Notch"), vec![3]];
    for body in bodies {
        match server.handle_session_frame(session, &body, HorizontalDirection::NORTH) {
            Ok((_, Admission::Waiting(next))) => session = next,
            _ => panic!("the session should still wait"),
        }
        assert_eq!(server.player_count(), 0);
    }
    assert_eq!(session.phase(), ClientPhase::Configuration);
    let notch = 0xb50ad385_829d_3141_a216_7e7d7539ba7fu128;
    match server.handle_session_frame(session, &[3], HorizontalDirection::NORTH) {
        Ok((pieces, Admission::Entered(uuid))) => {
            assert_eq!(uuid, notch);
            assert!(!pieces.is_empty());
        }
        _ => panic!("the session should have entered"),
    }
    assert_eq!(server.player_count(), 1);
    assert!(server.has_player(notch));
    assert!(server.remove_player(notch).is_some());
    assert_eq!(server.player_count(), 0);
}

#[test]
fn a_session_that_breaks_the_protocol_never_enters() {
    let mut server = MCServer::new(world());
    let answer =
        server.handle_session_frame(MCClient::new(), &handshake_body(1, 2), HorizontalDirection::NORTH);
    assert!(matches!(answer, Err(MCClientError::ProtocolError(_))));
    assert_eq!(server.player_count(), 0);
}
