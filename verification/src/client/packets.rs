//! The packets that the server sends, byte for byte.

use crate::client::float::{f32_bits_from_u32, f32_bits_of, F32_ZERO_BITS, F64_TEN_BITS, F64_ZERO_BITS};
use crate::network::mc_packet::{utf8_bytes, MCPacketBuffer};
use crate::network::primitives::{be_bytes_u128, be_bytes_u32, be_bytes_u64};
use crate::network::varint::{i32_as_u32, i64_as_u64, varint_bytes};
use crate::pos::ChunkPos;
use crate::world::chunk::Chunk;
use crate::world::net_chunk::net_chunk_bytes;
use crate::world::world::{LocalWorld, RedstoneOverride};
use vstd::prelude::*;

verus! {

/// The answer to a status request, as JSON.
pub const STATUS_JSON: &'static str =
    "{\"version\":{\"name\":\"1.21.8\",\"protocol\":772}, \"description\":{\"text\":\"Hello, world!\"}}";

/// The name of the only dimension.
pub const OVERWORLD: &'static str = "minecraft:overworld";

/// The id of the answer to a status request.
pub const STATUS_RESPONSE: i32 = 0;

/// The id of the answer to a ping.
pub const PONG_RESPONSE: i32 = 1;

/// The id of the packet that ends the login.
pub const LOGIN_FINISHED: i32 = 2;

/// The id of the packet that ends the configuration.
pub const FINISH_CONFIGURATION: i32 = 3;

/// The id of the packet that acknowledges a block change.
pub const BLOCK_CHANGED_ACK: i32 = 4;

/// The id of the packet that names the data packs the server knows.
pub const SELECT_KNOWN_PACKS: i32 = 14;

/// The id of the packet that reports an event of an entity.
pub const ENTITY_EVENT: i32 = 30;

/// The id of the packet that reports an event of the game.
pub const GAME_EVENT: i32 = 34;

/// The id of the packet that keeps the connection alive.
pub const KEEP_ALIVE: i32 = 38;

/// The id of the packet that carries a chunk.
pub const LEVEL_CHUNK_WITH_LIGHT: i32 = 39;

/// The id of the packet that lets the player into the world.
pub const LOGIN: i32 = 43;

/// The id of the packet that places the player.
pub const PLAYER_POSITION: i32 = 65;

/// The id of the packet that centres the client's chunk cache.
pub const SET_CHUNK_CACHE_CENTER: i32 = 87;

/// The entity event that grants operator permission level 4.
pub const EVENT_OP_LEVEL_4: u8 = 28;

/// The game event that changes the game mode.
pub const EVENT_CHANGE_GAME_MODE: u8 = 3;

/// The game event that tells the client to wait for chunks.
pub const EVENT_WAIT_FOR_CHUNKS: u8 = 13;

/// How far from the centre chunks are sent when a player enters.
pub const CHUNK_SEND_RADIUS: i16 = 2;

/// The bytes of a packet id.
pub open spec fn id_bytes(packet_type: i32) -> Seq<u8> {
    varint_bytes(i32_as_u32(packet_type) as nat)
}

pub open spec fn status_response_bytes() -> Seq<u8> {
    id_bytes(STATUS_RESPONSE) + utf8_bytes(STATUS_JSON@)
}

pub open spec fn pong_bytes(timestamp: i64) -> Seq<u8> {
    id_bytes(PONG_RESPONSE) + be_bytes_u64(i64_as_u64(timestamp))
}

/// The login is finished: the UUID, the name and no properties.
pub open spec fn login_finished_bytes(uuid: u128, name: Seq<char>) -> Seq<u8> {
    id_bytes(LOGIN_FINISHED) + be_bytes_u128(uuid) + utf8_bytes(name) + seq![0u8]
}

/// One known pack: `minecraft`, `core`, `1.21.8`.
pub open spec fn select_known_packs_bytes() -> Seq<u8> {
    id_bytes(SELECT_KNOWN_PACKS) + seq![1u8] + utf8_bytes("minecraft"@) + utf8_bytes("core"@)
        + utf8_bytes("1.21.8"@)
}

pub open spec fn finish_configuration_bytes() -> Seq<u8> {
    id_bytes(FINISH_CONFIGURATION)
}

/// The player enters the world: entity 0, not hardcore, the one dimension,
/// 3 players at most, view and simulation distance 32, full debug info,
/// respawn screen on, crafting unlimited, dimension type 0 named
/// overworld, seed hash 0, creative mode, no previous mode, neither debug
/// nor flat, no death location, no portal cooldown, sea level 68, no
/// enforced secure chat.
pub open spec fn login_bytes() -> Seq<u8> {
    id_bytes(LOGIN) + be_bytes_u32(0) + seq![0u8] + seq![1u8] + utf8_bytes(OVERWORLD@) + seq![
        3u8,
        32u8,
        32u8,
        0u8,
        1u8,
        0u8,
        0u8,
    ] + utf8_bytes(OVERWORLD@) + be_bytes_u64(0) + seq![1u8, 255u8, 0u8, 0u8, 0u8, 0u8]
        + seq![68u8, 0u8]
}

/// Entity 0 gets operator permission level 4.
pub open spec fn entity_event_bytes() -> Seq<u8> {
    id_bytes(ENTITY_EVENT) + be_bytes_u32(0) + seq![EVENT_OP_LEVEL_4]
}

/// A game event with its value, a single-precision number, as bits.
pub open spec fn game_event_bytes(event: u8, value_bits: u32) -> Seq<u8> {
    id_bytes(GAME_EVENT) + seq![event] + be_bytes_u32(value_bits)
}

pub open spec fn set_chunk_cache_center_bytes() -> Seq<u8> {
    id_bytes(SET_CHUNK_CACHE_CENTER) + seq![0u8, 0u8]
}

/// A chunk: its position, then its wire form.
pub open spec fn level_chunk_bytes(pos: ChunkPos, chunk: Option<Chunk>) -> Seq<u8> {
    id_bytes(LEVEL_CHUNK_WITH_LIGHT) + be_bytes_u32(i32_as_u32(pos.x as i32)) + be_bytes_u32(
        i32_as_u32(pos.z as i32),
    ) + net_chunk_bytes(chunk)
}

/// The player stands at `(0, 10, 0)`, at rest, looking ahead: teleport id
/// 0, position, velocity, yaw and pitch, no flags.
pub open spec fn player_position_bytes() -> Seq<u8> {
    id_bytes(PLAYER_POSITION) + seq![0u8] + be_bytes_u64(F64_ZERO_BITS) + be_bytes_u64(
        F64_TEN_BITS,
    ) + be_bytes_u64(F64_ZERO_BITS) + be_bytes_u64(F64_ZERO_BITS) + be_bytes_u64(F64_ZERO_BITS)
        + be_bytes_u64(F64_ZERO_BITS) + be_bytes_u32(F32_ZERO_BITS) + be_bytes_u32(F32_ZERO_BITS)
        + be_bytes_u32(0)
}

pub open spec fn keep_alive_bytes() -> Seq<u8> {
    id_bytes(KEEP_ALIVE) + be_bytes_u64(0)
}

pub open spec fn block_changed_ack_bytes(sequence: i32) -> Seq<u8> {
    id_bytes(BLOCK_CHANGED_ACK) + varint_bytes(i32_as_u32(sequence) as nat)
}

pub fn status_response() -> (pkt: MCPacketBuffer)
    ensures
        pkt@ == status_response_bytes(),
{
    let mut pkt = MCPacketBuffer::new(STATUS_RESPONSE);
    pkt.write_utf8(STATUS_JSON);
    pkt
}

pub fn pong(timestamp: i64) -> (pkt: MCPacketBuffer)
    ensures
        pkt@ == pong_bytes(timestamp),
{
    let mut pkt = MCPacketBuffer::new(PONG_RESPONSE);
    pkt.write_be_i64(timestamp);
    pkt
}

pub fn login_finished(uuid: u128, name: &str) -> (pkt: MCPacketBuffer)
    ensures
        pkt@ == login_finished_bytes(uuid, name@),
{
    let mut pkt = MCPacketBuffer::new(LOGIN_FINISHED);
    pkt.write_uuid(uuid);
    pkt.write_utf8(name);
    let _ = pkt.write_varint_u32(0);
    assert(pkt@ =~= login_finished_bytes(uuid, name@));
    pkt
}

pub fn select_known_packs() -> (pkt: MCPacketBuffer)
    ensures
        pkt@ == select_known_packs_bytes(),
{
    let mut pkt = MCPacketBuffer::new(SELECT_KNOWN_PACKS);
    let _ = pkt.write_varint_u32(1);
    pkt.write_utf8("minecraft");
    pkt.write_utf8("core");
    pkt.write_utf8("1.21.8");
    assert(pkt@ =~= select_known_packs_bytes());
    pkt
}

pub fn finish_configuration() -> (pkt: MCPacketBuffer)
    ensures
        pkt@ == finish_configuration_bytes(),
{
    MCPacketBuffer::new(FINISH_CONFIGURATION)
}

pub fn login() -> (pkt: MCPacketBuffer)
    ensures
        pkt@ == login_bytes(),
{
    let mut pkt = MCPacketBuffer::new(LOGIN);
    pkt.write_be_u32(0);
    pkt.write_bool(false);
    let _ = pkt.write_varint_u32(1);
    pkt.write_utf8(OVERWORLD);
    let _ = pkt.write_varint_u32(3);
    let _ = pkt.write_varint_u32(32);
    let _ = pkt.write_varint_u32(32);
    pkt.write_bool(false);
    pkt.write_bool(true);
    pkt.write_bool(false);
    let _ = pkt.write_varint_u32(0);
    pkt.write_utf8(OVERWORLD);
    pkt.write_be_u64(0);
    pkt.write_u8(1);
    pkt.write_i8(-1);
    pkt.write_bool(false);
    pkt.write_bool(false);
    pkt.write_bool(false);
    let _ = pkt.write_varint_u32(0);
    let _ = pkt.write_varint_u32(68);
    pkt.write_bool(false);
    assert(pkt@ =~= login_bytes());
    pkt
}

pub fn entity_event() -> (pkt: MCPacketBuffer)
    ensures
        pkt@ == entity_event_bytes(),
{
    let mut pkt = MCPacketBuffer::new(ENTITY_EVENT);
    pkt.write_be_u32(0);
    pkt.write_u8(EVENT_OP_LEVEL_4);
    assert(pkt@ =~= entity_event_bytes());
    pkt
}

/// The game event that tells the client to wait for chunks.
pub fn wait_for_chunks() -> (pkt: MCPacketBuffer)
    ensures
        pkt@ == game_event_bytes(EVENT_WAIT_FOR_CHUNKS, F32_ZERO_BITS),
{
    let mut pkt = MCPacketBuffer::new(GAME_EVENT);
    pkt.write_u8(EVENT_WAIT_FOR_CHUNKS);
    pkt.write_be_u32(F32_ZERO_BITS);
    assert(pkt@ =~= game_event_bytes(EVENT_WAIT_FOR_CHUNKS, F32_ZERO_BITS));
    pkt
}

/// The game event that sets the game mode to `mode`.
pub fn game_mode_changed(mode: u32) -> (pkt: MCPacketBuffer)
    ensures
        pkt@ == game_event_bytes(EVENT_CHANGE_GAME_MODE, f32_bits_of(mode)),
{
    let mut pkt = MCPacketBuffer::new(GAME_EVENT);
    pkt.write_u8(EVENT_CHANGE_GAME_MODE);
    pkt.write_be_u32(f32_bits_from_u32(mode));
    assert(pkt@ =~= game_event_bytes(EVENT_CHANGE_GAME_MODE, f32_bits_of(mode)));
    pkt
}

pub fn set_chunk_cache_center() -> (pkt: MCPacketBuffer)
    ensures
        pkt@ == set_chunk_cache_center_bytes(),
{
    let mut pkt = MCPacketBuffer::new(SET_CHUNK_CACHE_CENTER);
    let _ = pkt.write_varint_u32(0);
    let _ = pkt.write_varint_u32(0);
    assert(pkt@ =~= set_chunk_cache_center_bytes());
    pkt
}

/// The packet that carries the chunk at `pos` of a world.
pub fn level_chunk<R: RedstoneOverride>(world: &LocalWorld<R>, pos: ChunkPos) -> (pkt:
    MCPacketBuffer)
    requires
        world.wf(),
    ensures
        pkt@ == level_chunk_bytes(pos, world.spec_chunk(pos)),
{
    let mut pkt = MCPacketBuffer::new(LEVEL_CHUNK_WITH_LIGHT);
    pkt.write_be_i32(pos.x as i32);
    pkt.write_be_i32(pos.z as i32);
    world.write_net_chunk(pos, &mut pkt);
    assert(pkt@ =~= level_chunk_bytes(pos, world.spec_chunk(pos)));
    pkt
}

pub fn player_position() -> (pkt: MCPacketBuffer)
    ensures
        pkt@ == player_position_bytes(),
{
    let mut pkt = MCPacketBuffer::new(PLAYER_POSITION);
    let _ = pkt.write_varint_u32(0);
    pkt.write_be_u64(F64_ZERO_BITS);
    pkt.write_be_u64(F64_TEN_BITS);
    pkt.write_be_u64(F64_ZERO_BITS);
    pkt.write_be_u64(F64_ZERO_BITS);
    pkt.write_be_u64(F64_ZERO_BITS);
    pkt.write_be_u64(F64_ZERO_BITS);
    pkt.write_be_u32(F32_ZERO_BITS);
    pkt.write_be_u32(F32_ZERO_BITS);
    pkt.write_be_u32(0);
    assert(pkt@ =~= player_position_bytes());
    pkt
}

pub fn keep_alive() -> (pkt: MCPacketBuffer)
    ensures
        pkt@ == keep_alive_bytes(),
{
    let mut pkt = MCPacketBuffer::new(KEEP_ALIVE);
    pkt.write_be_u64(0);
    pkt
}

pub fn block_changed_ack(sequence: i32) -> (pkt: MCPacketBuffer)
    ensures
        pkt@ == block_changed_ack_bytes(sequence),
{
    let mut pkt = MCPacketBuffer::new(BLOCK_CHANGED_ACK);
    let _ = pkt.write_varint(sequence);
    pkt
}

} // verus!
