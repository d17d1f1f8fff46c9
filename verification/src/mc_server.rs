//! The server: the world and the directory of the players in it.

use crate::client::error::MCClientError;
use crate::client::mc_client::{
    ack_packets, client_wf, frame_step, no_pieces, play_step, push_piece, sent_bytes,
    ClientModel, ClientPhase, MCClient,
};
use crate::direction::HorizontalDirection;
use crate::network::mc_packet::{frame_bytes, MCPacketBuffer};
use crate::world::chunk::packet_bodies;
use crate::world::world::{LocalWorld, RedstoneOverride, WorldModel};
use vstd::prelude::*;

verus! {

/// What one player is to be sent.
pub struct Outbox {
    pub uuid: u128,
    pub pieces: Vec<Vec<u8>>,
}

/// Where a session stands after one of its packets.
pub enum Admission {
    /// Not in the world: the session goes on outside the directory.
    Waiting(MCClient),
    /// In the world: the session is in the directory under this UUID.
    Entered(u128),
}

/// The UUID of a session's player.
pub open spec fn uuid_of(m: ClientModel) -> u128 {
    m.player->0.uuid
}

/// Whether sessions are a valid directory: each is in the play phase with
/// a player, and they stand in the order of their UUIDs, none twice.
pub open spec fn valid_directory(players: Seq<ClientModel>) -> bool {
    &&& forall|i: int|
        0 <= i < players.len() ==> client_wf(#[trigger] players[i]) && players[i].phase
            == ClientPhase::Play
    &&& forall|i: int, j: int|
        0 <= i < j < players.len() ==> uuid_of(#[trigger] players[i]) < uuid_of(
            #[trigger] players[j],
        )
}

/// The position of the player with a UUID in a directory, if it is there.
pub open spec fn position_of(players: Seq<ClientModel>, uuid: u128) -> Option<int> {
    if exists|i: int| 0 <= i < players.len() && uuid_of(#[trigger] players[i]) == uuid {
        Some(choose|i: int| 0 <= i < players.len() && uuid_of(#[trigger] players[i]) == uuid)
    } else {
        None
    }
}

/// How many players of a directory have a UUID below `uuid`.
pub open spec fn rank_of(players: Seq<ClientModel>, uuid: u128) -> int
    decreases players.len(),
{
    if players.len() == 0 {
        0
    } else if uuid_of(players.last()) < uuid {
        players.len() as int
    } else {
        rank_of(players.drop_last(), uuid)
    }
}

/// A directory with a session added: in the place of the session with the
/// same UUID if there is one, else in the place that its UUID gives it.
pub open spec fn with_player(players: Seq<ClientModel>, m: ClientModel) -> Seq<ClientModel> {
    match position_of(players, uuid_of(m)) {
        Some(i) => players.update(i, m),
        None => players.insert(rank_of(players, uuid_of(m)), m),
    }
}

/// A directory without the player with a UUID.
pub open spec fn without_player(players: Seq<ClientModel>, uuid: u128) -> Seq<ClientModel> {
    match position_of(players, uuid) {
        Some(i) => players.remove(i),
        None => players,
    }
}

/// The bytes of update packets as they are sent, each framed.
pub open spec fn framed_packets(bodies: Seq<Seq<u8>>) -> Seq<Seq<u8>> {
    Seq::new(bodies.len(), |i: int| frame_bytes(bodies[i]))
}

/// The server.
pub struct MCServer<R: RedstoneOverride> {
    world: LocalWorld<R>,
    players: Vec<MCClient>,
}

impl<R: RedstoneOverride> MCServer<R> {
    /// The world.
    pub closed spec fn spec_world(&self) -> LocalWorld<R> {
        self.world
    }

    /// The sessions of the players in the world, in the order of their
    /// UUIDs.
    pub closed spec fn spec_players(&self) -> Seq<ClientModel> {
        Seq::new(self.players@.len(), |i: int| self.players@[i]@)
    }

    /// The world is well formed and the players are a valid directory.
    pub open spec fn wf(&self) -> bool {
        self.spec_world().wf() && valid_directory(self.spec_players())
    }

    /// A server for a world, without players.
    pub fn new(world: LocalWorld<R>) -> (s: MCServer<R>)
        requires
            world.wf(),
        ensures
            s.wf(),
            s.spec_world() == world,
            s.spec_players() == Seq::<ClientModel>::empty(),
    {
        let s = MCServer { world, players: Vec::new() };
        assert(s.spec_players() =~= Seq::<ClientModel>::empty());
        s
    }

    /// The world.
    pub fn world(&self) -> (w: &LocalWorld<R>)
        ensures
            *w == self.spec_world(),
    {
        &self.world
    }

    /// How many players are in the world.
    pub fn player_count(&self) -> (n: usize)
        ensures
            n == self.spec_players().len(),
    {
        self.players.len()
    }

    /// Finds the place of a UUID in the directory: the position of the
    /// player that has it, or the position where such a player belongs.
    fn find(&self, uuid: u128) -> (r: (usize, bool))
        requires
            self.wf(),
        ensures
            r.1 ==> position_of(self.spec_players(), uuid) == Some(r.0 as int) && r.0
                < self.spec_players().len(),
            !r.1 ==> position_of(self.spec_players(), uuid) is None && r.0 == rank_of(
                self.spec_players(),
                uuid,
            ) && r.0 <= self.spec_players().len(),
            forall|k: int| 0 <= k < r.0 ==> uuid_of(#[trigger] self.spec_players()[k]) < uuid,
            forall|k: int|
                r.0 <= k < self.spec_players().len() && !(r.1 && k == r.0) ==> uuid_of(
                    #[trigger] self.spec_players()[k],
                ) > uuid,
    {
        let ghost players = self.spec_players();
        let mut at: usize = self.players.len();
        assert(players.take(at as int) =~= players);
        while at > 0
            invariant
                at <= self.players@.len(),
                players == self.spec_players(),
                valid_directory(players),
                rank_of(players, uuid) == rank_of(players.take(at as int), uuid),
                forall|k: int| at <= k < players.len() ==> uuid_of(#[trigger] players[k]) > uuid,
            decreases at,
        {
            let here = match self.players[at - 1].uuid() {
                Some(u) => u,
                None => 0,
            };
            assert(self.players@[at - 1]@ == players[at - 1]);
            assert(client_wf(players[at - 1]));
            assert(here == uuid_of(players[at - 1]));
            proof {
                let front = players.take(at as int);
                assert(front.last() == players[at - 1]);
                assert(front.drop_last() =~= players.take(at - 1));
            }
            if here < uuid {
                proof {
                    let front = players.take(at as int);
                    assert(rank_of(front, uuid) == at);
                    assert forall|k: int| 0 <= k < at implies uuid_of(#[trigger] players[k])
                        < uuid by {
                        if k < at - 1 {
                            assert(uuid_of(players[k]) < uuid_of(players[at - 1]));
                        }
                    }
                    if exists|i: int|
                        0 <= i < players.len() && uuid_of(#[trigger] players[i]) == uuid {
                        let i = choose|i: int|
                            0 <= i < players.len() && uuid_of(#[trigger] players[i]) == uuid;
                        assert(false);
                    }
                }
                return (at, false);
            }
            if here == uuid {
                proof {
                    let i = (at - 1) as int;
                    assert(uuid_of(players[i]) == uuid);
                    let j = choose|j: int|
                        0 <= j < players.len() && uuid_of(#[trigger] players[j]) == uuid;
                    if j < i {
                        assert(uuid_of(players[j]) < uuid_of(players[i]));
                    }
                    if i < j {
                        assert(uuid_of(players[i]) < uuid_of(players[j]));
                    }
                    assert forall|k: int| 0 <= k < i implies uuid_of(#[trigger] players[k])
                        < uuid by {
                        assert(uuid_of(players[k]) < uuid_of(players[i]));
                    }
                }
                return (at - 1, true);
            }
            at = at - 1;
        }
        proof {
            assert(at == 0);
            if exists|i: int| 0 <= i < players.len() && uuid_of(#[trigger] players[i]) == uuid {
                let i = choose|i: int|
                    0 <= i < players.len() && uuid_of(#[trigger] players[i]) == uuid;
                assert(false);
            }
        }
        (at, false)
    }

    /// Whether a player with a UUID is in the world.
    pub fn has_player(&self, uuid: u128) -> (b: bool)
        requires
            self.wf(),
        ensures
            b == position_of(self.spec_players(), uuid) is Some,
    {
        self.find(uuid).1
    }

    /// Enters a session into the directory under its player's UUID. A
    /// session that was there under the same UUID is replaced.
    pub fn add_player(&mut self, player: MCClient)
        requires
            old(self).wf(),
            player.wf(),
            player@.phase == ClientPhase::Play,
        ensures
            final(self).wf(),
            final(self).spec_world() == old(self).spec_world(),
            final(self).spec_players() == with_player(old(self).spec_players(), player@),
    {
        let uuid = match player.uuid() {
            Some(u) => u,
            None => 0,
        };
        let (at, found) = self.find(uuid);
        let ghost model = player@;
        if found {
            self.players.set(at, player);
            assert(self.spec_players() =~= old(self).spec_players().update(at as int, model));
        } else {
            self.players.insert(at, player);
            assert(self.spec_players() =~= old(self).spec_players().insert(at as int, model));
        }
        proof {
            let before = old(self).spec_players();
            let after = self.spec_players();
            assert forall|i: int, j: int| 0 <= i < j < after.len() implies uuid_of(
                #[trigger] after[i],
            ) < uuid_of(#[trigger] after[j]) by {
                if found {
                    let a = before[i];
                    let b = before[j];
                } else {
                    let bi = if i < at {
                        i
                    } else {
                        i - 1
                    };
                    let bj = if j < at {
                        j
                    } else {
                        j - 1
                    };
                    if i != at && j != at {
                        assert(after[i] == before[bi] && after[j] == before[bj]);
                    } else if i == at {
                        assert(after[j] == before[bj]);
                    } else {
                        assert(after[i] == before[bi]);
                    }
                }
            }
            assert forall|i: int| 0 <= i < after.len() implies client_wf(#[trigger] after[i])
                && after[i].phase == ClientPhase::Play by {
                if found {
                    if i != at {
                        assert(after[i] == before[i]);
                    }
                } else {
                    if i < at {
                        assert(after[i] == before[i]);
                    } else if i > at {
                        assert(after[i] == before[i - 1]);
                    }
                }
            }
        }
    }

    /// Takes the session of the player with a UUID out of the directory.
    pub fn remove_player(&mut self, uuid: u128) -> (r: Option<MCClient>)
        requires
            old(self).wf(),
        ensures
            final(self).wf(),
            final(self).spec_world() == old(self).spec_world(),
            final(self).spec_players() == without_player(old(self).spec_players(), uuid),
            r is Some <==> position_of(old(self).spec_players(), uuid) is Some,
            r matches Some(session) ==> session@ == old(self).spec_players()[position_of(
                old(self).spec_players(),
                uuid,
            )->0],
    {
        let (at, found) = self.find(uuid);
        if !found {
            return None;
        }
        let session = self.players.remove(at);
        proof {
            let before = old(self).spec_players();
            let after = self.spec_players();
            assert(after =~= before.remove(at as int));
            assert forall|i: int, j: int| 0 <= i < j < after.len() implies uuid_of(
                #[trigger] after[i],
            ) < uuid_of(#[trigger] after[j]) by {
                let bi = if i < at {
                    i
                } else {
                    i + 1
                };
                let bj = if j < at {
                    j
                } else {
                    j + 1
                };
                assert(after[i] == before[bi] && after[j] == before[bj]);
            }
            assert forall|i: int| 0 <= i < after.len() implies client_wf(#[trigger] after[i])
                && after[i].phase == ClientPhase::Play by {
                let bi = if i < at {
                    i
                } else {
                    i + 1
                };
                assert(after[i] == before[bi]);
            }
        }
        Some(session)
    }

    /// One game tick of the world.
    pub fn tick_world(&mut self)
        requires
            old(self).wf(),
        ensures
            final(self).wf(),
            final(self).spec_world().same_frame(&old(self).spec_world()),
            final(self).spec_players() == old(self).spec_players(),
            final(self).spec_world()@ == old(self).spec_world()@.ticked(),
    {
        self.world.tick();
        assert(self.spec_players() =~= old(self).spec_players());
    }

    /// A packet of a session that is not in the directory, such as one
    /// that has not reached the play phase.
    pub fn handle_frame(
        &mut self,
        client: &mut MCClient,
        body: &[u8],
        toward: HorizontalDirection,
    ) -> (r: Result<Vec<Vec<u8>>, MCClientError>)
        requires
            old(self).wf(),
            old(client).wf(),
        ensures
            final(self).wf(),
            final(self).spec_world().same_frame(&old(self).spec_world()),
            final(client).wf(),
            final(self).spec_players() == old(self).spec_players(),
            match frame_step(old(client)@, old(self).spec_world(), body@, toward) {
                Ok(step) => r matches Ok(pieces) && sent_bytes(pieces@) == step.sent
                    && final(client)@ == step.client && final(self).spec_world()@ == step.world,
                Err(e) => r matches Err(found) && found == e && final(client)@ == old(
                    client,
                )@.with_phase(ClientPhase::Closed) && final(self).spec_world()@ == old(
                    self,
                ).spec_world()@,
            },
    {
        let r = client.handle_frame(&mut self.world, body, toward);
        assert(self.spec_players() =~= old(self).spec_players());
        r
    }

    /// A packet of a session that is not in the directory. A session
    /// that the packet brings into the play phase is entered into the
    /// directory under its player's UUID; any other session is handed
    /// back. A packet that ends the session leaves the directory as it
    /// is.
    pub fn handle_session_frame(
        &mut self,
        client: MCClient,
        body: &[u8],
        toward: HorizontalDirection,
    ) -> (r: Result<(Vec<Vec<u8>>, Admission), MCClientError>)
        requires
            old(self).wf(),
            client.wf(),
        ensures
            final(self).wf(),
            final(self).spec_world().same_frame(&old(self).spec_world()),
            match frame_step(client@, old(self).spec_world(), body@, toward) {
                Ok(step) => r matches Ok((pieces, admission)) && sent_bytes(pieces@) == step.sent
                    && final(self).spec_world()@ == step.world && (if step.client.phase
                    == ClientPhase::Play {
                    admission matches Admission::Entered(uuid) && uuid == uuid_of(step.client)
                        && final(self).spec_players() == with_player(
                        old(self).spec_players(),
                        step.client,
                    )
                } else {
                    admission matches Admission::Waiting(session) && session.wf() && session@
                        == step.client && final(self).spec_players() == old(self).spec_players()
                }),
                Err(e) => r matches Err(found) && found == e && final(self).spec_players() == old(
                    self,
                ).spec_players() && final(self).spec_world()@ == old(self).spec_world()@,
            },
    {
        let mut session = client;
        let pieces = match self.handle_frame(&mut session, body, toward) {
            Ok(pieces) => pieces,
            Err(e) => {
                return Err(e);
            },
        };
        match session.phase() {
            ClientPhase::Play => {
                let uuid = match session.uuid() {
                    Some(u) => u,
                    None => 0,
                };
                self.add_player(session);
                Ok((pieces, Admission::Entered(uuid)))
            },
            _ => Ok((pieces, Admission::Waiting(session))),
        }
    }

    /// A packet from the player with a UUID. Nothing happens if no such
    /// player is in the world. A packet that ends the session takes the
    /// player out of the directory.
    pub fn handle_player_frame(
        &mut self,
        uuid: u128,
        body: &[u8],
        toward: HorizontalDirection,
    ) -> (r: Option<Result<Vec<Vec<u8>>, MCClientError>>)
        requires
            old(self).wf(),
        ensures
            final(self).wf(),
            final(self).spec_world().same_frame(&old(self).spec_world()),
            match position_of(old(self).spec_players(), uuid) {
                None => r is None && final(self).spec_players() == old(self).spec_players()
                    && final(self).spec_world()@ == old(self).spec_world()@,
                Some(i) => match play_step(
                    old(self).spec_players()[i],
                    old(self).spec_world()@,
                    body@,
                    toward,
                ) {
                    Ok(step) => r matches Some(Ok(pieces)) && sent_bytes(pieces@) == step.sent
                        && final(self).spec_players() == old(self).spec_players().update(
                        i,
                        step.client,
                    ) && final(self).spec_world()@ == step.world,
                    Err(e) => r matches Some(Err(found)) && found == e
                        && final(self).spec_players() == old(self).spec_players().remove(i)
                        && final(self).spec_world()@ == old(self).spec_world()@,
                },
            },
    {
        let (at, found) = self.find(uuid);
        if !found {
            return None;
        }
        let ghost before = self.spec_players();
        assert(self.players@[at as int]@ == before[at as int]);
        assert(client_wf(before[at as int]));
        let session = &mut self.players[at];
        let result = session.play_handle_packet(&mut self.world, body, toward);
        let ghost after_model = self.players@[at as int]@;
        match result {
            Ok(pieces) => {
                proof {
                    let after = self.spec_players();
                    assert(after =~= before.update(at as int, after_model));
                    lemma_play_keeps_player(before[at as int], old(self).spec_world()@, body@, toward);
                    assert forall|i: int, j: int| 0 <= i < j < after.len() implies uuid_of(
                        #[trigger] after[i],
                    ) < uuid_of(#[trigger] after[j]) by {
                        assert(uuid_of(before[i]) < uuid_of(before[j]));
                    }
                    assert forall|i: int| 0 <= i < after.len() implies client_wf(
                        #[trigger] after[i],
                    ) && after[i].phase == ClientPhase::Play by {
                        if i != at {
                            assert(after[i] == before[i]);
                        }
                    }
                }
                Some(Ok(pieces))
            },
            Err(e) => {
                let _ = self.players.remove(at);
                proof {
                    let after = self.spec_players();
                    assert(after =~= before.remove(at as int));
                    assert forall|i: int, j: int| 0 <= i < j < after.len() implies uuid_of(
                        #[trigger] after[i],
                    ) < uuid_of(#[trigger] after[j]) by {
                        let bi = if i < at {
                            i
                        } else {
                            i + 1
                        };
                        let bj = if j < at {
                            j
                        } else {
                            j + 1
                        };
                        assert(after[i] == before[bi] && after[j] == before[bj]);
                    }
                    assert forall|i: int| 0 <= i < after.len() implies client_wf(
                        #[trigger] after[i],
                    ) && after[i].phase == ClientPhase::Play by {
                        let bi = if i < at {
                            i
                        } else {
                            i + 1
                        };
                        assert(after[i] == before[bi]);
                    }
                }
                Some(Err(e))
            },
        }
    }

    /// What the server sends after a game tick: to every player, in the
    /// order of their UUIDs, the update packets of the world and then the
    /// acknowledgements of that player's block changes. The world takes
    /// its blocks for reported and no acknowledgement is left waiting.
    pub fn tick(&mut self) -> (out: Vec<Outbox>)
        requires
            old(self).wf(),
        ensures
            final(self).wf(),
            final(self).spec_world().same_frame(&old(self).spec_world()),
            final(self).spec_world()@ == (WorldModel {
                reported: old(self).spec_world()@.cells,
                ..old(self).spec_world()@
            }),
            final(self).spec_world().reported_from(&old(self).spec_world()),
            forall|i: int, k: int|
                0 <= i < final(self).spec_world().spec_chunks().len()
                    ==> #[trigger] final(self).spec_world().section_reported(i, k),
            out@.len() == old(self).spec_players().len(),
            final(self).spec_players().len() == old(self).spec_players().len(),
            forall|i: int|
                0 <= i < out@.len() ==> (#[trigger] out@[i]).uuid == uuid_of(
                    old(self).spec_players()[i],
                ) && sent_bytes(out@[i].pieces@) == framed_packets(
                    old(self).spec_world().spec_update_packets(
                        old(self).spec_world().spec_chunks().len() as int,
                    ),
                ) + ack_packets(old(self).spec_players()[i].acks) && final(self).spec_players()[i]
                    == (ClientModel { acks: Seq::empty(), ..old(self).spec_players()[i] }),
    {
        let block_update_packets = self.world.gen_blocks_update_packets_and_clear_changes();
        let ghost bodies = packet_bodies(block_update_packets@);
        let ghost before = self.spec_players();
        let ghost world_after = self.world;
        assert(before =~= old(self).spec_players());
        let mut out: Vec<Outbox> = Vec::new();
        let n = self.players.len();
        let mut i: usize = 0;
        while i < n
            invariant
                i <= n,
                n == self.players@.len(),
                n == before.len(),
                self.world == world_after,
                valid_directory(before),
                bodies == packet_bodies(block_update_packets@),
                out@.len() == i,
                forall|k: int| i <= k < n ==> (#[trigger] self.spec_players()[k]) == before[k],
                forall|k: int|
                    0 <= k < i ==> (#[trigger] self.spec_players()[k]) == (ClientModel {
                        acks: Seq::empty(),
                        ..before[k]
                    }),
                forall|k: int|
                    0 <= k < i ==> (#[trigger] out@[k]).uuid == uuid_of(before[k]) && sent_bytes(
                        out@[k].pieces@,
                    ) == framed_packets(bodies) + ack_packets(before[k].acks),
            decreases n - i,
        {
            let ghost players_now = self.spec_players();
            assert(players_now[i as int] == before[i as int]);
            assert(self.players@[i as int]@ == before[i as int]);
            assert(client_wf(before[i as int]));
            let session = &mut self.players[i];
            let uuid = match session.uuid() {
                Some(u) => u,
                None => 0,
            };
            let mut pieces = no_pieces();
            let m = block_update_packets.len();
            let mut j: usize = 0;
            assert(sent_bytes(pieces@) =~= framed_packets(bodies).take(0));
            while j < m
                invariant
                    j <= m,
                    m == block_update_packets@.len(),
                    bodies == packet_bodies(block_update_packets@),
                    sent_bytes(pieces@) == framed_packets(bodies).take(j as int),
                decreases m - j,
            {
                let piece = block_update_packets[j].framed();
                let ghost bytes = piece@;
                push_piece(&mut pieces, piece);
                assert(framed_packets(bodies).take(j as int).push(bytes) =~= framed_packets(
                    bodies,
                ).take(j + 1));
                j = j + 1;
            }
            assert(framed_packets(bodies).take(m as int) =~= framed_packets(bodies));
            let mut acks = session.tick();
            let ghost ack_bytes = sent_bytes(acks@);
            let ghost head = sent_bytes(pieces@);
            let a = acks.len();
            let mut k: usize = 0;
            assert(sent_bytes(pieces@) =~= head + ack_bytes.take(0));
            while k < a
                invariant
                    k <= a,
                    a == acks@.len(),
                    ack_bytes == sent_bytes(acks@),
                    sent_bytes(pieces@) == head + ack_bytes.take(k as int),
                decreases a - k,
            {
                let piece = copy_piece(&acks[k]);
                let ghost bytes = piece@;
                push_piece(&mut pieces, piece);
                assert((head + ack_bytes.take(k as int)).push(bytes) =~= head + ack_bytes.take(
                    k + 1,
                ));
                k = k + 1;
            }
            assert(ack_bytes.take(a as int) =~= ack_bytes);
            let ghost cleared = self.players@[i as int]@;
            out.push(Outbox { uuid, pieces });
            proof {
                assert(self.spec_players() =~= players_now.update(i as int, cleared));
                assert forall|k: int| i + 1 <= k < n implies (#[trigger] self.spec_players()[k])
                    == before[k] by {
                    assert(players_now[k] == before[k]);
                }
                assert forall|k: int| 0 <= k < i + 1 implies (#[trigger] self.spec_players()[k])
                    == (ClientModel { acks: Seq::empty(), ..before[k] }) by {
                    if k < i {
                        assert(players_now[k] == (ClientModel { acks: Seq::empty(), ..before[k] }));
                    }
                }
            }
            i = i + 1;
        }
        proof {
            let after = self.spec_players();
            assert forall|a: int, b: int| 0 <= a < b < after.len() implies uuid_of(
                #[trigger] after[a],
            ) < uuid_of(#[trigger] after[b]) by {
                assert(uuid_of(before[a]) < uuid_of(before[b]));
            }
            assert forall|a: int| 0 <= a < after.len() implies client_wf(#[trigger] after[a])
                && after[a].phase == ClientPhase::Play by {
                assert(client_wf(before[a]));
            }
        }
        out
    }
}

/// A copy of a piece to send.
fn copy_piece(piece: &Vec<u8>) -> (r: Vec<u8>)
    ensures
        r@ == piece@,
{
    let mut r: Vec<u8> = Vec::with_capacity(piece.len());
    r.extend_from_slice(piece.as_slice());
    r
}

/// A packet of the play phase leaves the session in the play phase, with
/// its player under the same UUID and well formed.
pub proof fn lemma_play_keeps_player(
    m: ClientModel,
    w: WorldModel,
    body: Seq<u8>,
    toward: HorizontalDirection,
)
    requires
        client_wf(m),
        m.phase == ClientPhase::Play,
    ensures
        play_step(m, w, body, toward) matches Ok(step) ==> client_wf(step.client)
            && step.client.phase == ClientPhase::Play && uuid_of(step.client) == uuid_of(m),
{
}

} // verus!
