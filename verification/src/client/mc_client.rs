//! The session state machine: handshake, then status, or login,
//! configuration and play.

use crate::client::acks::AckQueue;
use crate::client::error::{MCClientError, ProtocolViolation};
use crate::client::items::{item_to_block, spec_item_to_block};
use crate::client::packets::{
    block_changed_ack, block_changed_ack_bytes, entity_event, entity_event_bytes,
    finish_configuration, finish_configuration_bytes, game_event_bytes, game_mode_changed,
    level_chunk, level_chunk_bytes, login, login_bytes, login_finished, login_finished_bytes,
    player_position, player_position_bytes, pong, pong_bytes, select_known_packs,
    select_known_packs_bytes, set_chunk_cache_center, set_chunk_cache_center_bytes,
    status_response, status_response_bytes, wait_for_chunks, CHUNK_SEND_RADIUS,
    EVENT_CHANGE_GAME_MODE, EVENT_WAIT_FOR_CHUNKS,
};
use crate::client::parse::{
    hotbar_slot, intent_of, parse_handshake, parse_player_action, parse_set_creative_mode_slot,
    parse_use_item_on, rd, rd_utf8, rd_varint, rd_varint_u32, spec_hotbar_slot, spec_intent,
    spec_parse_handshake, spec_parse_player_action, spec_parse_set_creative_mode_slot,
    spec_parse_use_item_on, take_bytes, take_i16, take_i64, take_u64, take_u8, take_utf8,
    take_uuid, take_varint, take_varint_u32, ClientIntent, PlayerAction, SetCreativeModeSlot,
    UseItemOn,
};
use crate::client::registry_data::{registry_packets, REGISTRY_PACKETS_DATA};
use crate::direction::HorizontalDirection;
use crate::network::mc_packet::{frame_bytes, MCPacketBuffer};
use crate::network::reader::{
    spec_read_i16, spec_read_i64, spec_read_u64, spec_read_u8, spec_read_uuid, spec_skip,
    PacketReader,
};
use crate::pos::ChunkPos;
use crate::utils::{offline_uuid, MCPlayerUUID};
use crate::world::block::BlockState;
use crate::world::world::{LocalWorld, RedstoneOverride, WorldModel};
use vstd::prelude::*;
use vstd::string::StringSliceAdditionalSpecFns;

verus! {

/// How many inventory slots a player has.
pub const INVENTORY_SLOTS: usize = 46;

/// The inventory slot of the first hotbar slot.
pub const HOTBAR_FIRST_SLOT: u8 = 36;

/// The inventory slot of the off hand.
pub const OFFHAND_SLOT: u8 = 45;

/// The serverbound packet id of the handshake.
pub const IN_HANDSHAKE: i32 = 0;

/// The serverbound packet id of a status request.
pub const IN_STATUS_REQUEST: i32 = 0;

/// The serverbound packet id of a ping.
pub const IN_PING_REQUEST: i32 = 1;

/// The serverbound packet id of the login start.
pub const IN_HELLO: i32 = 0;

/// The serverbound packet id that acknowledges the login.
pub const IN_LOGIN_ACKNOWLEDGED: i32 = 3;

/// The serverbound packet id that ends the configuration.
pub const IN_FINISH_CONFIGURATION: i32 = 3;

/// The serverbound packet id of a change of game mode.
pub const IN_CHANGE_GAME_MODE: i32 = 4;

/// The serverbound packet id that ends a client tick.
pub const IN_CLIENT_TICK_END: i32 = 12;

/// The serverbound packet id of a keep-alive answer.
pub const IN_KEEP_ALIVE: i32 = 27;

/// The serverbound packet id of a move with a position.
pub const IN_MOVE_PLAYER_POS: i32 = 29;

/// The serverbound packet id of a move with position and rotation.
pub const IN_MOVE_PLAYER_POS_ROT: i32 = 30;

/// The serverbound packet id of a move with a rotation.
pub const IN_MOVE_PLAYER_ROT: i32 = 31;

/// The serverbound packet id of a move with flags only.
pub const IN_MOVE_PLAYER_STATUS_ONLY: i32 = 32;

/// The serverbound packet id of a player action.
pub const IN_PLAYER_ACTION: i32 = 40;

/// The serverbound packet id of the player's input flags.
pub const IN_PLAYER_INPUT: i32 = 42;

/// The serverbound packet id that selects a hotbar slot.
pub const IN_SET_CARRIED_ITEM: i32 = 52;

/// The serverbound packet id that sets an inventory slot in creative
/// mode.
pub const IN_SET_CREATIVE_MODE_SLOT: i32 = 55;

/// The serverbound packet id of an arm swing.
pub const IN_SWING: i32 = 60;

/// The serverbound packet id of a click on a block.
pub const IN_USE_ITEM_ON: i32 = 63;

/// The player action that starts digging.
pub const ACTION_START_DIGGING: u32 = 0;

/// Where a session stands.
#[derive(Debug, Copy, Clone, Eq, PartialEq, Structural)]
pub enum ClientPhase {
    Handshake,
    Status,
    Login,
    Configuration,
    Play,
    /// The session has ended.
    Closed,
}

/// What the server knows of a player.
#[derive(Debug)]
pub struct PlayerData {
    pub uuid: u128,
    pub name: String,
    pub selected_hotbar_slot: u8,
    pub inventory_items: Vec<u16>,
}

/// What the server knows of a player, as mathematics.
pub struct PlayerModel {
    pub uuid: u128,
    pub name: Seq<char>,
    pub selected_hotbar_slot: u8,
    pub inventory_items: Seq<u16>,
}

impl View for PlayerData {
    type V = PlayerModel;

    open spec fn view(&self) -> PlayerModel {
        PlayerModel {
            uuid: self.uuid,
            name: self.name@,
            selected_hotbar_slot: self.selected_hotbar_slot,
            inventory_items: self.inventory_items@,
        }
    }
}

impl PlayerModel {
    /// The player has all inventory slots and a hotbar slot selected.
    pub open spec fn wf(self) -> bool {
        self.inventory_items.len() == INVENTORY_SLOTS && self.selected_hotbar_slot <= 8
    }

    /// A player who has just logged in under `name`: the offline UUID of
    /// the name, the first hotbar slot selected, nothing in the
    /// inventory.
    pub open spec fn fresh(name: Seq<char>) -> PlayerModel {
        PlayerModel {
            uuid: offline_uuid(vstd::utf8::encode_utf8(name)),
            name,
            selected_hotbar_slot: 0,
            inventory_items: Seq::new(INVENTORY_SLOTS as nat, |i: int| 0u16),
        }
    }

    /// The item in a hand: the selected hotbar slot for hand 0, the off
    /// hand for any other.
    pub open spec fn held_item(self, hand: u32) -> u16 {
        if hand == 0 {
            self.inventory_items[HOTBAR_FIRST_SLOT + self.selected_hotbar_slot]
        } else {
            self.inventory_items[OFFHAND_SLOT as int]
        }
    }

    /// The player with an item put into a slot, if the slot exists.
    pub open spec fn with_item(self, slot: i16, item: u16) -> PlayerModel {
        if 0 <= slot < INVENTORY_SLOTS {
            PlayerModel { inventory_items: self.inventory_items.update(slot as int, item), ..self }
        } else {
            self
        }
    }
}

/// A session, as mathematics.
pub struct ClientModel {
    pub phase: ClientPhase,
    pub player: Option<PlayerModel>,
    /// The sequence numbers that wait to be acknowledged, oldest first.
    pub acks: Seq<i32>,
}

impl ClientModel {
    pub open spec fn with_phase(self, phase: ClientPhase) -> ClientModel {
        ClientModel { phase, ..self }
    }

    pub open spec fn with_ack(self, sequence: i32) -> ClientModel {
        ClientModel { acks: self.acks.push(sequence), ..self }
    }

    pub open spec fn with_player(self, player: PlayerModel) -> ClientModel {
        ClientModel { player: Some(player), ..self }
    }
}

/// What a step of a session leaves: the session, the world and the bytes
/// to send, piece by piece.
pub struct StepModel {
    pub client: ClientModel,
    pub world: WorldModel,
    pub sent: Seq<Seq<u8>>,
}

/// The bytes of the pieces to send.
pub open spec fn sent_bytes(pieces: Seq<Vec<u8>>) -> Seq<Seq<u8>> {
    Seq::new(pieces.len(), |i: int| pieces[i]@)
}

/// Appends a piece to the pieces to send.
pub fn push_piece(out: &mut Vec<Vec<u8>>, piece: Vec<u8>)
    ensures
        sent_bytes(final(out)@) == sent_bytes(old(out)@).push(piece@),
        final(out)@.len() == old(out)@.len() + 1,
{
    let ghost bytes = piece@;
    out.push(piece);
    assert(sent_bytes(out@) =~= sent_bytes(old(out)@).push(bytes));
}

/// No pieces to send.
pub fn no_pieces() -> (out: Vec<Vec<u8>>)
    ensures
        sent_bytes(out@) == Seq::<Seq<u8>>::empty(),
        out@.len() == 0,
{
    let out: Vec<Vec<u8>> = Vec::new();
    assert(sent_bytes(out@) =~= Seq::<Seq<u8>>::empty());
    out
}

/// The chunk position numbered `k` of the 25 that are sent when a player
/// enters: `x` slowest.
pub open spec fn entry_chunk_pos(k: int) -> ChunkPos {
    ChunkPos { x: (k / 5 - CHUNK_SEND_RADIUS) as i16, z: (k % 5 - CHUNK_SEND_RADIUS) as i16 }
}

/// The first `upto` chunk packets that are sent when a player enters.
pub open spec fn entry_chunks<R: RedstoneOverride>(world: LocalWorld<R>, upto: int) -> Seq<Seq<u8>>
    decreases upto,
{
    if upto <= 0 {
        Seq::empty()
    } else {
        entry_chunks(world, upto - 1).push(
            frame_bytes(
                level_chunk_bytes(
                    entry_chunk_pos(upto - 1),
                    world.spec_chunk(entry_chunk_pos(upto - 1)),
                ),
            ),
        )
    }
}

/// What a player is sent on entering the world: the login, operator
/// permission, the notice to wait for chunks, the centre of the chunk
/// cache, the 25 chunks around the centre and, after them, the player's
/// position.
pub open spec fn play_entry_packets<R: RedstoneOverride>(world: LocalWorld<R>) -> Seq<Seq<u8>> {
    seq![
        frame_bytes(login_bytes()),
        frame_bytes(entity_event_bytes()),
        frame_bytes(game_event_bytes(EVENT_WAIT_FOR_CHUNKS, 0)),
        frame_bytes(set_chunk_cache_center_bytes()),
    ] + entry_chunks(world, 25) + seq![frame_bytes(player_position_bytes())]
}

/// What a session is sent when its login is acknowledged: the known
/// packs, the registry data and the end of the configuration.
pub open spec fn configuration_packets() -> Seq<Seq<u8>> {
    seq![
        frame_bytes(select_known_packs_bytes()),
        REGISTRY_PACKETS_DATA@,
        frame_bytes(finish_configuration_bytes()),
    ]
}

/// The acknowledgements of block changes, one packet for each sequence
/// number.
pub open spec fn ack_packets(acks: Seq<i32>) -> Seq<Seq<u8>> {
    Seq::new(acks.len(), |i: int| frame_bytes(block_changed_ack_bytes(acks[i])))
}

/// What a handshake leads to: the first packet must have id 0, and its
/// intent says where the session goes.
pub open spec fn handshake_step(body: Seq<u8>) -> Result<ClientIntent, MCClientError> {
    match rd_varint(body) {
        Err(e) => Err(e),
        Ok((packet_type, rest)) => if packet_type != IN_HANDSHAKE {
            Err(MCClientError::ProtocolError(ProtocolViolation::UnexpectedPacket { packet_type }))
        } else {
            match spec_parse_handshake(rest) {
                Err(e) => Err(e),
                Ok(h) => spec_intent(h.intent),
            }
        },
    }
}

/// What a packet in the status phase is answered with: the status for a
/// status request, the same timestamp for a ping, nothing for any other
/// packet.
pub open spec fn status_step(body: Seq<u8>) -> Result<Seq<Seq<u8>>, MCClientError> {
    match rd_varint(body) {
        Err(e) => Err(e),
        Ok((packet_type, rest)) => if packet_type == IN_STATUS_REQUEST {
            Ok(seq![frame_bytes(status_response_bytes())])
        } else if packet_type == IN_PING_REQUEST {
            match rd(spec_read_i64(rest)) {
                Err(e) => Err(e),
                Ok((timestamp, _)) => Ok(seq![frame_bytes(pong_bytes(timestamp))]),
            }
        } else {
            Ok(Seq::empty())
        },
    }
}

/// What a packet in the login phase does: a hello names the player, who
/// gets the offline UUID of the name and is told that the login is
/// finished; an acknowledgement after that moves on to the
/// configuration and sends its packets; an acknowledgement before any
/// hello breaks the protocol; any other packet is passed over.
pub open spec fn login_step(m: ClientModel, body: Seq<u8>) -> Result<
    (ClientModel, Seq<Seq<u8>>),
    MCClientError,
> {
    match rd_varint(body) {
        Err(e) => Err(e),
        Ok((packet_type, rest)) => if packet_type == IN_HELLO {
            match rd_utf8(rest) {
                Err(e) => Err(e),
                Ok((name, rest2)) => match rd(spec_read_uuid(rest2)) {
                    Err(e) => Err(e),
                    Ok((_claimed, _)) => {
                        let player = PlayerModel::fresh(name);
                        Ok(
                            (
                                m.with_player(player),
                                seq![frame_bytes(login_finished_bytes(player.uuid, name))],
                            ),
                        )
                    },
                },
            }
        } else if packet_type == IN_LOGIN_ACKNOWLEDGED {
            if m.player is Some {
                Ok((m.with_phase(ClientPhase::Configuration), configuration_packets()))
            } else {
                Err(
                    MCClientError::ProtocolError(
                        ProtocolViolation::UnexpectedPacket { packet_type },
                    ),
                )
            }
        } else {
            Ok((m, Seq::empty()))
        },
    }
}

/// What a packet in the configuration phase does: the end of the
/// configuration lets the player into the world and sends what a player
/// is sent on entering; any other packet is passed over.
pub open spec fn configuration_step<R: RedstoneOverride>(
    m: ClientModel,
    world: LocalWorld<R>,
    body: Seq<u8>,
) -> Result<(ClientModel, Seq<Seq<u8>>), MCClientError> {
    match rd_varint(body) {
        Err(e) => Err(e),
        Ok((packet_type, _)) => if packet_type == IN_FINISH_CONFIGURATION {
            Ok((m.with_phase(ClientPhase::Play), play_entry_packets(world)))
        } else {
            Ok((m, Seq::empty()))
        },
    }
}

/// What a click on a block does. With an empty hand the block that was
/// clicked is used, if there is one, and the click is acknowledged. With
/// an item that places a block, the block is put beside the face that
/// was clicked, in the state that its placement gives, if the world has
/// room there; then the click is acknowledged.
pub open spec fn used_item_on(
    m: ClientModel,
    w: WorldModel,
    p: UseItemOn,
    toward: HorizontalDirection,
) -> (ClientModel, WorldModel) {
    let item = m.player->0.held_item(p.hand);
    let beside = p.pos.spec_offset_dir(p.face);
    if item == 0 {
        match w.block(p.pos) {
            Some(bs) => (m.with_ack(p.sequence), w.block_used(p.pos, bs)),
            None => (m, w),
        }
    } else {
        match spec_item_to_block(item) {
            Some(of_item) => {
                let placed = w.state_for_placement(of_item, beside, p.face, toward);
                if w.block(beside) is Some {
                    (m.with_ack(p.sequence), w.set_block(beside, placed).block_placed(beside, placed))
                } else {
                    (m, w)
                }
            },
            None => (m, w),
        }
    }
}

/// What a player action does: the start of digging turns the block to
/// air, if the world has one there, acknowledges the action and tells the
/// block that it was destroyed; any other action does nothing.
pub open spec fn acted(m: ClientModel, w: WorldModel, p: PlayerAction) -> (ClientModel, WorldModel) {
    if p.action == ACTION_START_DIGGING {
        match w.block(p.pos) {
            Some(previous) => (
                m.with_ack(p.sequence),
                w.set_block(p.pos, BlockState(0)).block_destroyed(p.pos, previous),
            ),
            None => (m, w),
        }
    } else {
        (m, w)
    }
}

/// How many bytes a packet that is read and then left unused must have
/// after its id.
pub open spec fn discarded_len(packet_type: i32) -> Option<nat> {
    if packet_type == IN_MOVE_PLAYER_POS {
        Some(25)
    } else if packet_type == IN_MOVE_PLAYER_POS_ROT {
        Some(33)
    } else if packet_type == IN_MOVE_PLAYER_ROT {
        Some(9)
    } else if packet_type == IN_MOVE_PLAYER_STATUS_ONLY {
        Some(1)
    } else if packet_type == IN_KEEP_ALIVE {
        Some(8)
    } else if packet_type == IN_PLAYER_INPUT {
        Some(1)
    } else if packet_type == IN_SWING {
        Some(1)
    } else {
        None
    }
}

/// What a packet in the play phase does.
pub open spec fn play_step(
    m: ClientModel,
    w: WorldModel,
    body: Seq<u8>,
    toward: HorizontalDirection,
) -> Result<StepModel, MCClientError> {
    match rd_varint(body) {
        Err(e) => Err(e),
        Ok((packet_type, rest)) => if packet_type == IN_USE_ITEM_ON {
            match spec_parse_use_item_on(rest) {
                Err(e) => Err(e),
                Ok(p) => {
                    let (client, world) = used_item_on(m, w, p, toward);
                    Ok(StepModel { client, world, sent: Seq::empty() })
                },
            }
        } else if packet_type == IN_PLAYER_ACTION {
            match spec_parse_player_action(rest) {
                Err(e) => Err(e),
                Ok(p) => {
                    let (client, world) = acted(m, w, p);
                    Ok(StepModel { client, world, sent: Seq::empty() })
                },
            }
        } else if packet_type == IN_SET_CARRIED_ITEM {
            match rd(spec_read_i16(rest)) {
                Err(e) => Err(e),
                Ok((slot, _)) => Ok(
                    StepModel {
                        client: m.with_player(
                            PlayerModel {
                                selected_hotbar_slot: spec_hotbar_slot(slot),
                                ..m.player->0
                            },
                        ),
                        world: w,
                        sent: Seq::empty(),
                    },
                ),
            }
        } else if packet_type == IN_SET_CREATIVE_MODE_SLOT {
            match spec_parse_set_creative_mode_slot(rest) {
                Err(e) => Err(e),
                Ok(p) => Ok(
                    StepModel {
                        client: m.with_player(m.player->0.with_item(p.slot, p.item_id)),
                        world: w,
                        sent: Seq::empty(),
                    },
                ),
            }
        } else if packet_type == IN_CHANGE_GAME_MODE {
            match rd_varint_u32(rest) {
                Err(e) => Err(e),
                Ok((mode, _)) => Ok(
                    StepModel {
                        client: m,
                        world: w,
                        sent: seq![
                            frame_bytes(
                                game_event_bytes(
                                    EVENT_CHANGE_GAME_MODE,
                                    crate::client::float::f32_bits_of(mode),
                                ),
                            ),
                        ],
                    },
                ),
            }
        } else {
            match discarded_len(packet_type) {
                Some(n) => match rd(spec_skip(rest, n)) {
                    Err(e) => Err(e),
                    Ok(_) => Ok(StepModel { client: m, world: w, sent: Seq::empty() }),
                },
                None => Ok(StepModel { client: m, world: w, sent: Seq::empty() }),
            }
        },
    }
}

impl PlayerData {
    /// A player who has just logged in under `name`.
    pub fn new(name: String) -> (p: PlayerData)
        ensures
            p@ == PlayerModel::fresh(name@),
            p@.wf(),
            p.name == name,
    {
        let uuid = <u128 as MCPlayerUUID>::new_mc_offline_player(name.as_str());
        let inventory_items = vec![0u16; INVENTORY_SLOTS];
        let p = PlayerData { uuid, name, selected_hotbar_slot: 0, inventory_items };
        assert(p.inventory_items@ =~= Seq::new(INVENTORY_SLOTS as nat, |i: int| 0u16));
        p
    }

    /// The item in a hand.
    pub fn held_item(&self, hand: u32) -> (item: u16)
        requires
            self@.wf(),
        ensures
            item == self@.held_item(hand),
    {
        let slot = if hand == 0 {
            HOTBAR_FIRST_SLOT + self.selected_hotbar_slot
        } else {
            OFFHAND_SLOT
        };
        self.inventory_items[slot as usize]
    }
}

/// The session of one client.
pub struct MCClient {
    phase: ClientPhase,
    player_data: Option<PlayerData>,
    block_changes_to_ack: AckQueue,
}

impl View for MCClient {
    type V = ClientModel;

    closed spec fn view(&self) -> ClientModel {
        ClientModel {
            phase: self.phase,
            player: match self.player_data {
                Some(p) => Some(p@),
                None => None,
            },
            acks: self.block_changes_to_ack@,
        }
    }
}

/// A session knows its player from the configuration on, and its player
/// is well formed.
pub open spec fn client_wf(m: ClientModel) -> bool {
    &&& m.player matches Some(p) ==> p.wf()
    &&& (m.phase == ClientPhase::Configuration || m.phase == ClientPhase::Play) ==> m.player is Some
}

impl MCClient {
    pub open spec fn wf(&self) -> bool {
        client_wf(self@)
    }

    /// A session that waits for its handshake.
    pub fn new() -> (c: MCClient)
        ensures
            c.wf(),
            c@.phase == ClientPhase::Handshake,
            c@.player is None,
            c@.acks == Seq::<i32>::empty(),
    {
        MCClient {
            phase: ClientPhase::Handshake,
            player_data: None,
            block_changes_to_ack: AckQueue::new(),
        }
    }

    /// Where the session stands.
    pub fn phase(&self) -> (p: ClientPhase)
        ensures
            p == self@.phase,
    {
        self.phase
    }

    /// The UUID of the session's player, once a player has logged in.
    pub fn uuid(&self) -> (r: Option<u128>)
        ensures
            r == (match self@.player {
                Some(p) => Some(p.uuid),
                None => None,
            }),
    {
        match &self.player_data {
            Some(p) => Some(p.uuid),
            None => None,
        }
    }

    /// What the server knows of the session's player.
    pub fn player_data(&self) -> (r: &Option<PlayerData>)
        ensures
            self@.player == (match *r {
                Some(p) => Some(p@),
                None => None,
            }),
    {
        &self.player_data
    }

    /// How many block changes wait to be acknowledged.
    pub fn pending_acks(&self) -> (n: usize)
        ensures
            n == self@.acks.len(),
    {
        self.block_changes_to_ack.len()
    }

    /// Ends the session.
    pub fn close(&mut self)
        ensures
            final(self)@ == old(self)@.with_phase(ClientPhase::Closed),
    {
        self.phase = ClientPhase::Closed;
    }

    /// The first packet of a connection: a handshake, which says whether
    /// the client wants the status or wants to log in. Anything else ends
    /// the session.
    pub fn handle_handshake(&mut self, body: &[u8]) -> (r: Result<ClientIntent, MCClientError>)
        requires
            old(self).wf(),
            old(self)@.phase == ClientPhase::Handshake,
        ensures
            final(self).wf(),
            r == handshake_step(body@),
            final(self)@ == old(self)@.with_phase(
                match r {
                    Ok(ClientIntent::Status) => ClientPhase::Status,
                    Ok(ClientIntent::Login) => ClientPhase::Login,
                    Err(_) => ClientPhase::Closed,
                },
            ),
    {
        let result = MCClient::read_handshake(body);
        self.phase = match result {
            Ok(ClientIntent::Status) => ClientPhase::Status,
            Ok(ClientIntent::Login) => ClientPhase::Login,
            Err(_) => ClientPhase::Closed,
        };
        result
    }

    fn read_handshake(body: &[u8]) -> (r: Result<ClientIntent, MCClientError>)
        ensures
            r == handshake_step(body@),
    {
        let mut reader = PacketReader::new(body);
        let packet_type = take_varint(&mut reader)?;
        if packet_type != IN_HANDSHAKE {
            return Err(
                MCClientError::ProtocolError(ProtocolViolation::UnexpectedPacket { packet_type }),
            );
        }
        let handshake = parse_handshake(&mut reader)?;
        intent_of(handshake.intent)
    }

    /// A packet in the status phase.
    pub fn handle_status_intent(&mut self, body: &[u8]) -> (r: Result<Vec<Vec<u8>>, MCClientError>)
        requires
            old(self).wf(),
            old(self)@.phase == ClientPhase::Status,
        ensures
            final(self).wf(),
            match status_step(body@) {
                Ok(sent) => r matches Ok(pieces) && sent_bytes(pieces@) == sent && final(self)@
                    == old(self)@,
                Err(e) => r matches Err(found) && found == e && final(self)@ == old(
                    self,
                )@.with_phase(ClientPhase::Closed),
            },
    {
        let result = MCClient::answer_status(body);
        if result.is_err() {
            self.phase = ClientPhase::Closed;
        }
        result
    }

    fn answer_status(body: &[u8]) -> (r: Result<Vec<Vec<u8>>, MCClientError>)
        ensures
            match status_step(body@) {
                Ok(sent) => r matches Ok(pieces) && sent_bytes(pieces@) == sent,
                Err(e) => r matches Err(found) && found == e,
            },
    {
        let mut reader = PacketReader::new(body);
        let mut out = no_pieces();
        let packet_type = take_varint(&mut reader)?;
        if packet_type == IN_STATUS_REQUEST {
            push_piece(&mut out, status_response().framed());
            assert(sent_bytes(out@) =~= seq![frame_bytes(status_response_bytes())]);
        } else if packet_type == IN_PING_REQUEST {
            let timestamp = take_i64(&mut reader)?;
            push_piece(&mut out, pong(timestamp).framed());
            assert(sent_bytes(out@) =~= seq![frame_bytes(pong_bytes(timestamp))]);
        }
        Ok(out)
    }

    /// A packet in the login phase.
    pub fn handle_login(&mut self, body: &[u8]) -> (r: Result<Vec<Vec<u8>>, MCClientError>)
        requires
            old(self).wf(),
            old(self)@.phase == ClientPhase::Login,
        ensures
            final(self).wf(),
            match login_step(old(self)@, body@) {
                Ok((client, sent)) => r matches Ok(pieces) && sent_bytes(pieces@) == sent
                    && final(self)@ == client,
                Err(e) => r matches Err(found) && found == e && final(self)@ == old(
                    self,
                )@.with_phase(ClientPhase::Closed),
            },
    {
        let mut reader = PacketReader::new(body);
        let mut out = no_pieces();
        let packet_type = match take_varint(&mut reader) {
            Ok(t) => t,
            Err(e) => {
                self.phase = ClientPhase::Closed;
                return Err(e);
            },
        };
        if packet_type == IN_HELLO {
            let player_name = match take_utf8(&mut reader) {
                Ok(n) => n,
                Err(e) => {
                    self.phase = ClientPhase::Closed;
                    return Err(e);
                },
            };
            match take_uuid(&mut reader) {
                Ok(_) => {},
                Err(e) => {
                    self.phase = ClientPhase::Closed;
                    return Err(e);
                },
            }
            let player = PlayerData::new(player_name);
            push_piece(&mut out, login_finished(player.uuid, player.name.as_str()).framed());
            assert(sent_bytes(out@) =~= seq![
                frame_bytes(login_finished_bytes(player.uuid, player.name@)),
            ]);
            self.player_data = Some(player);
            Ok(out)
        } else if packet_type == IN_LOGIN_ACKNOWLEDGED {
            if self.player_data.is_none() {
                self.phase = ClientPhase::Closed;
                return Err(
                    MCClientError::ProtocolError(
                        ProtocolViolation::UnexpectedPacket { packet_type },
                    ),
                );
            }
            self.phase = ClientPhase::Configuration;
            push_piece(&mut out, select_known_packs().framed());
            push_piece(&mut out, registry_packets());
            push_piece(&mut out, finish_configuration().framed());
            assert(sent_bytes(out@) =~= configuration_packets());
            Ok(out)
        } else {
            Ok(out)
        }
    }

    /// A packet in the configuration phase.
    pub fn handle_configure<R: RedstoneOverride>(
        &mut self,
        world: &LocalWorld<R>,
        body: &[u8],
    ) -> (r: Result<Vec<Vec<u8>>, MCClientError>)
        requires
            old(self).wf(),
            old(self)@.phase == ClientPhase::Configuration,
            world.wf(),
        ensures
            final(self).wf(),
            match configuration_step(old(self)@, *world, body@) {
                Ok((client, sent)) => r matches Ok(pieces) && sent_bytes(pieces@) == sent
                    && final(self)@ == client,
                Err(e) => r matches Err(found) && found == e && final(self)@ == old(
                    self,
                )@.with_phase(ClientPhase::Closed),
            },
    {
        let mut reader = PacketReader::new(body);
        let packet_type = match take_varint(&mut reader) {
            Ok(t) => t,
            Err(e) => {
                self.phase = ClientPhase::Closed;
                return Err(e);
            },
        };
        if packet_type == IN_FINISH_CONFIGURATION {
            self.phase = ClientPhase::Play;
            Ok(MCClient::enter_play(world))
        } else {
            Ok(no_pieces())
        }
    }

    /// What a player is sent on entering the world.
    pub fn enter_play<R: RedstoneOverride>(world: &LocalWorld<R>) -> (out: Vec<Vec<u8>>)
        requires
            world.wf(),
        ensures
            sent_bytes(out@) == play_entry_packets(*world),
    {
        let mut out = no_pieces();
        push_piece(&mut out, login().framed());
        push_piece(&mut out, entity_event().framed());
        push_piece(&mut out, wait_for_chunks().framed());
        push_piece(&mut out, set_chunk_cache_center().framed());
        let ghost head = sent_bytes(out@);
        assert(head =~= seq![
            frame_bytes(login_bytes()),
            frame_bytes(entity_event_bytes()),
            frame_bytes(game_event_bytes(EVENT_WAIT_FOR_CHUNKS, 0)),
            frame_bytes(set_chunk_cache_center_bytes()),
        ]);
        let mut k: u8 = 0;
        assert(sent_bytes(out@) =~= head + entry_chunks(*world, 0));
        while k < 25
            invariant
                k <= 25,
                world.wf(),
                sent_bytes(out@) == head + entry_chunks(*world, k as int),
            decreases 25 - k,
        {
            let pos = ChunkPos::new(
                (k / 5) as i16 - CHUNK_SEND_RADIUS,
                (k % 5) as i16 - CHUNK_SEND_RADIUS,
            );
            assert(pos == entry_chunk_pos(k as int));
            let ghost before = entry_chunks(*world, k as int);
            let piece = level_chunk(world, pos).framed();
            let ghost bytes = piece@;
            push_piece(&mut out, piece);
            assert((head + before).push(bytes) =~= head + before.push(bytes));
            k = k + 1;
        }
        let ghost chunks = entry_chunks(*world, 25);
        push_piece(&mut out, player_position().framed());
        assert((head + chunks).push(frame_bytes(player_position_bytes())) =~= head + chunks
            + seq![frame_bytes(player_position_bytes())]);
        out
    }

    /// The acknowledgements of the block changes since the last tick, one
    /// packet for each; none is left waiting.
    pub fn tick(&mut self) -> (out: Vec<Vec<u8>>)
        ensures
            sent_bytes(out@) == ack_packets(old(self)@.acks),
            final(self)@ == (ClientModel { acks: Seq::empty(), ..old(self)@ }),
    {
        let mut out = no_pieces();
        let n = self.block_changes_to_ack.len();
        let ghost all = ack_packets(self@.acks);
        let mut i: usize = 0;
        assert(sent_bytes(out@) =~= all.take(0));
        while i < n
            invariant
                i <= n,
                n == self@.acks.len(),
                *self == *old(self),
                all == ack_packets(self@.acks),
                sent_bytes(out@) == all.take(i as int),
            decreases n - i,
        {
            let sequence = self.block_changes_to_ack.get(i);
            let piece = block_changed_ack(sequence).framed();
            let ghost bytes = piece@;
            push_piece(&mut out, piece);
            assert(all.take(i as int).push(bytes) =~= all.take(i + 1));
            i = i + 1;
        }
        assert(all.take(n as int) =~= all);
        self.block_changes_to_ack.clear();
        out
    }

    /// Applies a click on a block.
    pub fn player_use_item_on<R: RedstoneOverride>(
        &mut self,
        world: &mut LocalWorld<R>,
        p: UseItemOn,
        toward: HorizontalDirection,
    )
        requires
            old(self).wf(),
            old(self)@.player is Some,
            old(world).wf(),
        ensures
            final(self).wf(),
            final(world).wf(),
            final(world).same_frame(old(world)),
            (final(self)@, final(world)@) == used_item_on(old(self)@, old(world)@, p, toward),
    {
        let item = match &self.player_data {
            Some(player) => player.held_item(p.hand),
            None => 0,
        };
        let beside = p.pos.offset_dir(p.face);
        if item == 0 {
            if let Ok(blockstate) = world.get_block_state(p.pos) {
                world.on_use_without_item(p.pos, blockstate);
                self.block_changes_to_ack.push(p.sequence);
            }
        } else {
            if let Some(of_item) = item_to_block(item) {
                let placed = world.get_state_for_placement(of_item, beside, p.face, toward);
                if let Ok(_) = world.set_block_state(beside, placed) {
                    self.block_changes_to_ack.push(p.sequence);
                    world.on_placed(beside, placed);
                }
            }
        }
    }

    /// Applies a player action.
    pub fn player_action<R: RedstoneOverride>(&mut self, world: &mut LocalWorld<R>, p: PlayerAction)
        requires
            old(self).wf(),
            old(world).wf(),
        ensures
            final(self).wf(),
            final(world).wf(),
            final(world).same_frame(old(world)),
            (final(self)@, final(world)@) == acted(old(self)@, old(world)@, p),
    {
        if p.action == ACTION_START_DIGGING {
            if let Ok(previous) = world.set_block_state(p.pos, BlockState(0)) {
                self.block_changes_to_ack.push(p.sequence);
                world.on_destroyed(p.pos, previous);
            }
        }
    }

    /// Selects a hotbar slot, kept between 0 and 8.
    pub fn set_carried_item(&mut self, slot: i16)
        requires
            old(self).wf(),
            old(self)@.player is Some,
        ensures
            final(self).wf(),
            final(self)@ == old(self)@.with_player(
                PlayerModel {
                    selected_hotbar_slot: spec_hotbar_slot(slot),
                    ..old(self)@.player->0
                },
            ),
    {
        if let Some(player) = &mut self.player_data {
            player.selected_hotbar_slot = hotbar_slot(slot);
        }
    }

    /// Puts an item into an inventory slot, if the slot exists.
    pub fn set_creative_mode_slot(&mut self, p: SetCreativeModeSlot)
        requires
            old(self).wf(),
            old(self)@.player is Some,
        ensures
            final(self).wf(),
            final(self)@ == old(self)@.with_player(
                old(self)@.player->0.with_item(p.slot, p.item_id),
            ),
    {
        if let Some(player) = &mut self.player_data {
            if 0 <= p.slot && (p.slot as usize) < INVENTORY_SLOTS {
                player.inventory_items.set(p.slot as usize, p.item_id);
            }
        }
    }

    /// A packet in the play phase.
    pub fn play_handle_packet<R: RedstoneOverride>(
        &mut self,
        world: &mut LocalWorld<R>,
        body: &[u8],
        toward: HorizontalDirection,
    ) -> (r: Result<Vec<Vec<u8>>, MCClientError>)
        requires
            old(self).wf(),
            old(self)@.phase == ClientPhase::Play,
            old(world).wf(),
        ensures
            final(self).wf(),
            final(world).wf(),
            final(world).same_frame(old(world)),
            match play_step(old(self)@, old(world)@, body@, toward) {
                Ok(step) => r matches Ok(pieces) && sent_bytes(pieces@) == step.sent
                    && final(self)@ == step.client && final(world)@ == step.world,
                Err(e) => r matches Err(found) && found == e && final(self)@ == old(
                    self,
                )@.with_phase(ClientPhase::Closed) && final(world)@ == old(world)@,
            },
    {
        match parse_play_packet(body) {
            Ok(packet) => {
                let mut out = no_pieces();
                match packet {
                    PlayPacket::UseItemOn(p) => self.player_use_item_on(world, p, toward),
                    PlayPacket::PlayerAction(p) => self.player_action(world, p),
                    PlayPacket::SetCarriedItem(slot) => self.set_carried_item(slot),
                    PlayPacket::SetCreativeModeSlot(p) => self.set_creative_mode_slot(p),
                    PlayPacket::ChangeGameMode(mode) => {
                        push_piece(&mut out, game_mode_changed(mode).framed());
                        assert(sent_bytes(out@) =~= seq![
                            frame_bytes(
                                game_event_bytes(
                                    EVENT_CHANGE_GAME_MODE,
                                    crate::client::float::f32_bits_of(mode),
                                ),
                            ),
                        ]);
                    },
                    PlayPacket::Ignored => {},
                }
                Ok(out)
            },
            Err(e) => {
                self.phase = ClientPhase::Closed;
                Err(e)
            },
        }
    }

    /// A packet of a session, whatever its phase. A packet that cannot be
    /// read, or that the phase does not allow, ends the session.
    pub fn handle_frame<R: RedstoneOverride>(
        &mut self,
        world: &mut LocalWorld<R>,
        body: &[u8],
        toward: HorizontalDirection,
    ) -> (r: Result<Vec<Vec<u8>>, MCClientError>)
        requires
            old(self).wf(),
            old(world).wf(),
        ensures
            final(self).wf(),
            final(world).wf(),
            final(world).same_frame(old(world)),
            match frame_step(old(self)@, *old(world), body@, toward) {
                Ok(step) => r matches Ok(pieces) && sent_bytes(pieces@) == step.sent
                    && final(self)@ == step.client && final(world)@ == step.world,
                Err(e) => r matches Err(found) && found == e && final(self)@ == old(
                    self,
                )@.with_phase(ClientPhase::Closed) && final(world)@ == old(world)@,
            },
    {
        match self.phase {
            ClientPhase::Handshake => match self.handle_handshake(body) {
                Ok(_) => Ok(no_pieces()),
                Err(e) => Err(e),
            },
            ClientPhase::Status => self.handle_status_intent(body),
            ClientPhase::Login => self.handle_login(body),
            ClientPhase::Configuration => self.handle_configure(world, body),
            ClientPhase::Play => self.play_handle_packet(world, body, toward),
            ClientPhase::Closed => Ok(no_pieces()),
        }
    }
}

/// What a packet does to a session and the world, whatever the session's
/// phase. A session that has ended passes every packet over.
pub open spec fn frame_step<R: RedstoneOverride>(
    m: ClientModel,
    world: LocalWorld<R>,
    body: Seq<u8>,
    toward: HorizontalDirection,
) -> Result<StepModel, MCClientError> {
    match m.phase {
        ClientPhase::Handshake => match handshake_step(body) {
            Ok(intent) => Ok(
                StepModel {
                    client: m.with_phase(
                        match intent {
                            ClientIntent::Status => ClientPhase::Status,
                            ClientIntent::Login => ClientPhase::Login,
                        },
                    ),
                    world: world@,
                    sent: Seq::empty(),
                },
            ),
            Err(e) => Err(e),
        },
        ClientPhase::Status => match status_step(body) {
            Ok(sent) => Ok(StepModel { client: m, world: world@, sent }),
            Err(e) => Err(e),
        },
        ClientPhase::Login => match login_step(m, body) {
            Ok((client, sent)) => Ok(StepModel { client, world: world@, sent }),
            Err(e) => Err(e),
        },
        ClientPhase::Configuration => match configuration_step(m, world, body) {
            Ok((client, sent)) => Ok(StepModel { client, world: world@, sent }),
            Err(e) => Err(e),
        },
        ClientPhase::Play => play_step(m, world@, body, toward),
        ClientPhase::Closed => Ok(StepModel { client: m, world: world@, sent: Seq::empty() }),
    }
}

/// A packet of the play phase, taken apart as far as it is used.
#[derive(Debug, Copy, Clone, PartialEq, Eq, Structural)]
pub enum PlayPacket {
    UseItemOn(UseItemOn),
    PlayerAction(PlayerAction),
    SetCarriedItem(i16),
    SetCreativeModeSlot(SetCreativeModeSlot),
    ChangeGameMode(u32),
    /// A packet that changes nothing.
    Ignored,
}

/// A packet of the play phase, taken apart: the packets that are used,
/// the packets that are read and left unused, which must be whole, and
/// all others, which are passed over.
pub open spec fn spec_parse_play_packet(body: Seq<u8>) -> Result<PlayPacket, MCClientError> {
    match rd_varint(body) {
        Err(e) => Err(e),
        Ok((packet_type, rest)) => if packet_type == IN_USE_ITEM_ON {
            match spec_parse_use_item_on(rest) {
                Err(e) => Err(e),
                Ok(p) => Ok(PlayPacket::UseItemOn(p)),
            }
        } else if packet_type == IN_PLAYER_ACTION {
            match spec_parse_player_action(rest) {
                Err(e) => Err(e),
                Ok(p) => Ok(PlayPacket::PlayerAction(p)),
            }
        } else if packet_type == IN_SET_CARRIED_ITEM {
            match rd(spec_read_i16(rest)) {
                Err(e) => Err(e),
                Ok((slot, _)) => Ok(PlayPacket::SetCarriedItem(slot)),
            }
        } else if packet_type == IN_SET_CREATIVE_MODE_SLOT {
            match spec_parse_set_creative_mode_slot(rest) {
                Err(e) => Err(e),
                Ok(p) => Ok(PlayPacket::SetCreativeModeSlot(p)),
            }
        } else if packet_type == IN_CHANGE_GAME_MODE {
            match rd_varint_u32(rest) {
                Err(e) => Err(e),
                Ok((mode, _)) => Ok(PlayPacket::ChangeGameMode(mode)),
            }
        } else {
            match discarded_len(packet_type) {
                Some(n) => match rd(spec_skip(rest, n)) {
                    Err(e) => Err(e),
                    Ok(_) => Ok(PlayPacket::Ignored),
                },
                None => Ok(PlayPacket::Ignored),
            }
        },
    }
}

/// Takes a packet of the play phase apart.
pub fn parse_play_packet(body: &[u8]) -> (r: Result<PlayPacket, MCClientError>)
    ensures
        r == spec_parse_play_packet(body@),
{
    let mut reader = PacketReader::new(body);
    let packet_type = take_varint(&mut reader)?;
    if packet_type == IN_USE_ITEM_ON {
        Ok(PlayPacket::UseItemOn(parse_use_item_on(&mut reader)?))
    } else if packet_type == IN_PLAYER_ACTION {
        Ok(PlayPacket::PlayerAction(parse_player_action(&mut reader)?))
    } else if packet_type == IN_SET_CARRIED_ITEM {
        Ok(PlayPacket::SetCarriedItem(take_i16(&mut reader)?))
    } else if packet_type == IN_SET_CREATIVE_MODE_SLOT {
        Ok(PlayPacket::SetCreativeModeSlot(parse_set_creative_mode_slot(&mut reader)?))
    } else if packet_type == IN_CHANGE_GAME_MODE {
        Ok(PlayPacket::ChangeGameMode(take_varint_u32(&mut reader)?))
    } else if packet_type == IN_MOVE_PLAYER_POS {
        take_bytes(&mut reader, 25)?;
        Ok(PlayPacket::Ignored)
    } else if packet_type == IN_MOVE_PLAYER_POS_ROT {
        take_bytes(&mut reader, 33)?;
        Ok(PlayPacket::Ignored)
    } else if packet_type == IN_MOVE_PLAYER_ROT {
        take_bytes(&mut reader, 9)?;
        Ok(PlayPacket::Ignored)
    } else if packet_type == IN_MOVE_PLAYER_STATUS_ONLY || packet_type == IN_PLAYER_INPUT
        || packet_type == IN_SWING {
        take_bytes(&mut reader, 1)?;
        Ok(PlayPacket::Ignored)
    } else if packet_type == IN_KEEP_ALIVE {
        take_bytes(&mut reader, 8)?;
        Ok(PlayPacket::Ignored)
    } else {
        Ok(PlayPacket::Ignored)
    }
}

/// The bits of the cursor of a click on a block, if the packet is one:
/// what the direction that the cursor leans toward is worked out from.
pub fn use_item_cursor(body: &[u8]) -> (r: Option<(u32, u32, u32)>)
    ensures
        r == (match spec_parse_play_packet(body@) {
            Ok(PlayPacket::UseItemOn(p)) => Some((p.cursor_x, p.cursor_y, p.cursor_z)),
            _ => None,
        }),
{
    match parse_play_packet(body) {
        Ok(PlayPacket::UseItemOn(p)) => Some((p.cursor_x, p.cursor_y, p.cursor_z)),
        _ => None,
    }
}

} // verus!
