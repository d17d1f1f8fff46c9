//! The packets that a client sends, taken apart.

use crate::client::error::{MCClientError, ProtocolViolation};
use crate::direction::Direction;
use crate::network::reader::{
    direction_left, nothing_left, read_matches, spec_read_block_pos, spec_read_bool,
    spec_read_direction, spec_read_i16, spec_read_i64, spec_read_u16, spec_read_u32,
    spec_read_u64, spec_read_u8, spec_read_utf8, spec_read_uuid, spec_read_varint,
    spec_read_varint_u32, spec_skip, utf8_left, varint_left, PacketReader, ReadSpec,
};
use crate::pos::BlockPos;
use vstd::prelude::*;

verus! {

/// A read of a value of fixed width, with the session's error.
pub open spec fn rd<T>(r: ReadSpec<T, crate::network::reader::EIOReadExactError>) -> ReadSpec<
    T,
    MCClientError,
> {
    match r {
        Ok(found) => Ok(found),
        Err(e) => Err(MCClientError::NetworkError(e)),
    }
}

/// A read of a variable-length number, with the session's error.
pub open spec fn rd_varint(s: Seq<u8>) -> ReadSpec<i32, MCClientError> {
    match spec_read_varint(s) {
        Ok(found) => Ok(found),
        Err(e) => Err(MCClientError::spec_from_varint(e)),
    }
}

/// A read of an unsigned variable-length number, with the session's
/// error.
pub open spec fn rd_varint_u32(s: Seq<u8>) -> ReadSpec<u32, MCClientError> {
    match spec_read_varint_u32(s) {
        Ok(found) => Ok(found),
        Err(e) => Err(MCClientError::spec_from_varint(e)),
    }
}

/// A read of a string, with the session's error.
pub open spec fn rd_utf8(s: Seq<u8>) -> ReadSpec<Seq<char>, MCClientError> {
    match spec_read_utf8(s) {
        Ok(found) => Ok(found),
        Err(e) => Err(MCClientError::spec_from_utf8(e)),
    }
}

/// A read of a direction, with the session's error.
pub open spec fn rd_direction(s: Seq<u8>) -> ReadSpec<Direction, MCClientError> {
    match spec_read_direction(s) {
        Ok(found) => Ok(found),
        Err(e) => Err(MCClientError::spec_from_enum(e)),
    }
}

pub fn take_varint(r: &mut PacketReader) -> (out: Result<i32, MCClientError>)
    ensures
        read_matches(out, final(r)@, rd_varint(old(r)@), varint_left(old(r)@, 5)),
{
    match r.read_varint() {
        Ok(v) => Ok(v),
        Err(e) => Err(MCClientError::from_varint(e)),
    }
}

pub fn take_varint_u32(r: &mut PacketReader) -> (out: Result<u32, MCClientError>)
    ensures
        read_matches(out, final(r)@, rd_varint_u32(old(r)@), varint_left(old(r)@, 5)),
{
    match r.read_varint_u32() {
        Ok(v) => Ok(v),
        Err(e) => Err(MCClientError::from_varint(e)),
    }
}

pub fn take_utf8(r: &mut PacketReader) -> (out: Result<String, MCClientError>)
    ensures
        match rd_utf8(old(r)@) {
            Ok((chars, rest)) => out matches Ok(text) && text@ == chars && final(r)@ == rest,
            Err(e) => out == Err::<String, MCClientError>(e) && final(r)@ == utf8_left(old(r)@),
        },
{
    match r.read_utf8() {
        Ok(v) => Ok(v),
        Err(e) => Err(MCClientError::from_utf8(e)),
    }
}

pub fn take_direction(r: &mut PacketReader) -> (out: Result<Direction, MCClientError>)
    ensures
        read_matches(out, final(r)@, rd_direction(old(r)@), direction_left(old(r)@)),
{
    match r.read_direction() {
        Ok(v) => Ok(v),
        Err(e) => Err(MCClientError::from_enum(e)),
    }
}

pub fn take_u8(r: &mut PacketReader) -> (out: Result<u8, MCClientError>)
    ensures
        read_matches(out, final(r)@, rd(spec_read_u8(old(r)@)), nothing_left()),
{
    match r.read_u8() {
        Ok(v) => Ok(v),
        Err(e) => Err(MCClientError::from_read_exact(e)),
    }
}

pub fn take_bool(r: &mut PacketReader) -> (out: Result<bool, MCClientError>)
    ensures
        read_matches(out, final(r)@, rd(spec_read_bool(old(r)@)), nothing_left()),
{
    match r.read_bool() {
        Ok(v) => Ok(v),
        Err(e) => Err(MCClientError::from_read_exact(e)),
    }
}

pub fn take_u16(r: &mut PacketReader) -> (out: Result<u16, MCClientError>)
    ensures
        read_matches(out, final(r)@, rd(spec_read_u16(old(r)@)), nothing_left()),
{
    match r.read_be_u16() {
        Ok(v) => Ok(v),
        Err(e) => Err(MCClientError::from_read_exact(e)),
    }
}

pub fn take_i16(r: &mut PacketReader) -> (out: Result<i16, MCClientError>)
    ensures
        read_matches(out, final(r)@, rd(spec_read_i16(old(r)@)), nothing_left()),
{
    match r.read_be_i16() {
        Ok(v) => Ok(v),
        Err(e) => Err(MCClientError::from_read_exact(e)),
    }
}

pub fn take_u32(r: &mut PacketReader) -> (out: Result<u32, MCClientError>)
    ensures
        read_matches(out, final(r)@, rd(spec_read_u32(old(r)@)), nothing_left()),
{
    match r.read_be_u32() {
        Ok(v) => Ok(v),
        Err(e) => Err(MCClientError::from_read_exact(e)),
    }
}

pub fn take_u64(r: &mut PacketReader) -> (out: Result<u64, MCClientError>)
    ensures
        read_matches(out, final(r)@, rd(spec_read_u64(old(r)@)), nothing_left()),
{
    match r.read_be_u64() {
        Ok(v) => Ok(v),
        Err(e) => Err(MCClientError::from_read_exact(e)),
    }
}

pub fn take_i64(r: &mut PacketReader) -> (out: Result<i64, MCClientError>)
    ensures
        read_matches(out, final(r)@, rd(spec_read_i64(old(r)@)), nothing_left()),
{
    match r.read_be_i64() {
        Ok(v) => Ok(v),
        Err(e) => Err(MCClientError::from_read_exact(e)),
    }
}

pub fn take_uuid(r: &mut PacketReader) -> (out: Result<u128, MCClientError>)
    ensures
        read_matches(out, final(r)@, rd(spec_read_uuid(old(r)@)), nothing_left()),
{
    match r.read_uuid() {
        Ok(v) => Ok(v),
        Err(e) => Err(MCClientError::from_read_exact(e)),
    }
}

pub fn take_block_pos(r: &mut PacketReader) -> (out: Result<BlockPos, MCClientError>)
    ensures
        read_matches(out, final(r)@, rd(spec_read_block_pos(old(r)@)), nothing_left()),
{
    match r.read_block_pos() {
        Ok(v) => Ok(v),
        Err(e) => Err(MCClientError::from_read_exact(e)),
    }
}

pub fn take_bytes(r: &mut PacketReader, n: usize) -> (out: Result<(), MCClientError>)
    ensures
        read_matches(out, final(r)@, rd(spec_skip(old(r)@, n as nat)), nothing_left()),
{
    match r.skip_bytes(n) {
        Ok(v) => Ok(v),
        Err(e) => Err(MCClientError::from_read_exact(e)),
    }
}

/// What a client asks for when it connects.
#[derive(Debug, Copy, Clone, Eq, PartialEq, Structural)]
pub enum ClientIntent {
    Status,
    Login,
}

/// A handshake: the protocol version, the address and port that the
/// client connected to, and what it asks for.
pub struct Handshake {
    pub protocol_version: i32,
    pub server_address: String,
    pub server_port: u16,
    pub intent: i32,
}

/// What a handshake says, as mathematics.
pub struct HandshakeModel {
    pub protocol_version: i32,
    pub server_address: Seq<char>,
    pub server_port: u16,
    pub intent: i32,
}

impl View for Handshake {
    type V = HandshakeModel;

    open spec fn view(&self) -> HandshakeModel {
        HandshakeModel {
            protocol_version: self.protocol_version,
            server_address: self.server_address@,
            server_port: self.server_port,
            intent: self.intent,
        }
    }
}

/// The fields of a handshake, in wire order.
pub open spec fn spec_parse_handshake(s: Seq<u8>) -> Result<HandshakeModel, MCClientError> {
    match rd_varint(s) {
        Err(e) => Err(e),
        Ok((protocol_version, s1)) => match rd_utf8(s1) {
            Err(e) => Err(e),
            Ok((server_address, s2)) => match rd(spec_read_u16(s2)) {
                Err(e) => Err(e),
                Ok((server_port, s3)) => match rd_varint(s3) {
                    Err(e) => Err(e),
                    Ok((intent, _)) => Ok(
                        HandshakeModel { protocol_version, server_address, server_port, intent },
                    ),
                },
            },
        },
    }
}

pub fn parse_handshake(r: &mut PacketReader) -> (out: Result<Handshake, MCClientError>)
    ensures
        match spec_parse_handshake(old(r)@) {
            Ok(model) => out matches Ok(h) && h@ == model,
            Err(e) => out matches Err(found) && found == e,
        },
{
    let protocol_version = take_varint(r)?;
    let server_address = take_utf8(r)?;
    let server_port = take_u16(r)?;
    let intent = take_varint(r)?;
    Ok(Handshake { protocol_version, server_address, server_port, intent })
}

/// What a handshake's intent asks for: 1 is a status request, 2 and 3
/// are logins, anything else breaks the protocol.
pub open spec fn spec_intent(intent: i32) -> Result<ClientIntent, MCClientError> {
    if intent == 1 {
        Ok(ClientIntent::Status)
    } else if intent == 2 || intent == 3 {
        Ok(ClientIntent::Login)
    } else {
        Err(MCClientError::ProtocolError(ProtocolViolation::InvalidIntent { intent }))
    }
}

pub fn intent_of(intent: i32) -> (out: Result<ClientIntent, MCClientError>)
    ensures
        out == spec_intent(intent),
{
    if intent == 1 {
        Ok(ClientIntent::Status)
    } else if intent == 2 || intent == 3 {
        Ok(ClientIntent::Login)
    } else {
        Err(MCClientError::ProtocolError(ProtocolViolation::InvalidIntent { intent }))
    }
}

/// A player's click on a block with the item in a hand: the hand, the
/// block, the face clicked, the cursor's place on that face as the bits
/// of three single-precision numbers, two flags and the sequence number
/// to acknowledge.
#[derive(Debug, Copy, Clone, PartialEq, Eq, Structural)]
pub struct UseItemOn {
    pub hand: u32,
    pub pos: BlockPos,
    pub face: Direction,
    pub cursor_x: u32,
    pub cursor_y: u32,
    pub cursor_z: u32,
    pub inside_block: bool,
    pub world_border_hit: bool,
    pub sequence: i32,
}

/// The fields of a click on a block, in wire order.
pub open spec fn spec_parse_use_item_on(s: Seq<u8>) -> Result<UseItemOn, MCClientError> {
    match rd_varint_u32(s) {
        Err(e) => Err(e),
        Ok((hand, s1)) => match rd(spec_read_block_pos(s1)) {
            Err(e) => Err(e),
            Ok((pos, s2)) => match rd_direction(s2) {
                Err(e) => Err(e),
                Ok((face, s3)) => match rd(spec_read_u32(s3)) {
                    Err(e) => Err(e),
                    Ok((cx, s4)) => match rd(spec_read_u32(s4)) {
                        Err(e) => Err(e),
                        Ok((cy, s5)) => match rd(spec_read_u32(s5)) {
                            Err(e) => Err(e),
                            Ok((cz, s6)) => match rd(spec_read_bool(s6)) {
                                Err(e) => Err(e),
                                Ok((inside_block, s7)) => match rd(spec_read_bool(s7)) {
                                    Err(e) => Err(e),
                                    Ok((world_border_hit, s8)) => match rd_varint(s8) {
                                        Err(e) => Err(e),
                                        Ok((sequence, _)) => Ok(
                                            UseItemOn {
                                                hand,
                                                pos,
                                                face,
                                                cursor_x: cx,
                                                cursor_y: cy,
                                                cursor_z: cz,
                                                inside_block,
                                                world_border_hit,
                                                sequence,
                                            },
                                        ),
                                    },
                                },
                            },
                        },
                    },
                },
            },
        },
    }
}

pub fn parse_use_item_on(r: &mut PacketReader) -> (out: Result<UseItemOn, MCClientError>)
    ensures
        out == spec_parse_use_item_on(old(r)@),
{
    let hand = take_varint_u32(r)?;
    let pos = take_block_pos(r)?;
    let face = take_direction(r)?;
    let cx = take_u32(r)?;
    let cy = take_u32(r)?;
    let cz = take_u32(r)?;
    let inside_block = take_bool(r)?;
    let world_border_hit = take_bool(r)?;
    let sequence = take_varint(r)?;
    Ok(
        UseItemOn {
            hand,
            pos,
            face,
            cursor_x: cx,
            cursor_y: cy,
            cursor_z: cz,
            inside_block,
            world_border_hit,
            sequence,
        },
    )
}

/// What a player does to a block: the action, the block, a face and the
/// sequence number to acknowledge.
#[derive(Debug, Copy, Clone, PartialEq, Eq, Structural)]
pub struct PlayerAction {
    pub action: u32,
    pub pos: BlockPos,
    pub face: Direction,
    pub sequence: i32,
}

/// The fields of a player action, in wire order.
pub open spec fn spec_parse_player_action(s: Seq<u8>) -> Result<PlayerAction, MCClientError> {
    match rd_varint_u32(s) {
        Err(e) => Err(e),
        Ok((action, s1)) => match rd(spec_read_block_pos(s1)) {
            Err(e) => Err(e),
            Ok((pos, s2)) => match rd_direction(s2) {
                Err(e) => Err(e),
                Ok((face, s3)) => match rd_varint(s3) {
                    Err(e) => Err(e),
                    Ok((sequence, _)) => Ok(PlayerAction { action, pos, face, sequence }),
                },
            },
        },
    }
}

pub fn parse_player_action(r: &mut PacketReader) -> (out: Result<PlayerAction, MCClientError>)
    ensures
        out == spec_parse_player_action(old(r)@),
{
    let action = take_varint_u32(r)?;
    let pos = take_block_pos(r)?;
    let face = take_direction(r)?;
    let sequence = take_varint(r)?;
    Ok(PlayerAction { action, pos, face, sequence })
}

/// An inventory slot set in creative mode: the slot and the item put
/// there, 0 for none.
#[derive(Debug, Copy, Clone, PartialEq, Eq, Structural)]
pub struct SetCreativeModeSlot {
    pub slot: i16,
    pub item_id: u16,
}

/// The item id that a slot packet names: 0 for a count of zero and for an
/// id that is not above zero, else the id's low 16 bits.
pub open spec fn spec_item_id(id: i32) -> u16 {
    if id <= 0 {
        0
    } else {
        (id % 0x1_0000) as u16
    }
}

/// The fields of a creative-mode slot packet that are used: the slot, the
/// count, and the item id if the count is above zero. What follows is
/// passed over.
pub open spec fn spec_parse_set_creative_mode_slot(s: Seq<u8>) -> Result<
    SetCreativeModeSlot,
    MCClientError,
> {
    match rd(spec_read_i16(s)) {
        Err(e) => Err(e),
        Ok((slot, s1)) => match rd_varint_u32(s1) {
            Err(e) => Err(e),
            Ok((count, s2)) => if count > 0 {
                match rd_varint(s2) {
                    Err(e) => Err(e),
                    Ok((id, _)) => Ok(SetCreativeModeSlot { slot, item_id: spec_item_id(id) }),
                }
            } else {
                Ok(SetCreativeModeSlot { slot, item_id: 0 })
            },
        },
    }
}

pub fn parse_set_creative_mode_slot(r: &mut PacketReader) -> (out: Result<
    SetCreativeModeSlot,
    MCClientError,
>)
    ensures
        out == spec_parse_set_creative_mode_slot(old(r)@),
{
    let slot = take_i16(r)?;
    let item_count = take_varint_u32(r)?;
    let item_id = if item_count > 0 {
        let id = take_varint(r)?;
        if id <= 0 {
            0
        } else {
            (id % 0x1_0000) as u16
        }
    } else {
        0
    };
    Ok(SetCreativeModeSlot { slot, item_id })
}

/// The hotbar slot that a carried-item packet selects: the slot named,
/// kept between 0 and 8.
pub open spec fn spec_hotbar_slot(slot: i16) -> u8 {
    if slot < 0 {
        0
    } else if slot > 8 {
        8
    } else {
        slot as u8
    }
}

pub fn hotbar_slot(slot: i16) -> (s: u8)
    ensures
        s == spec_hotbar_slot(slot),
        s <= 8,
{
    if slot < 0 {
        0
    } else if slot > 8 {
        8
    } else {
        slot as u8
    }
}

} // verus!
