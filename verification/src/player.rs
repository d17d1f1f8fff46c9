//! What the server asks of a player in the world.

use crate::client::mc_client::{ack_packets, sent_bytes, ClientModel, MCClient};
use crate::network::mc_packet::{frame_bytes, MCPacketBuffer};
use vstd::prelude::*;

verus! {

/// A player in the world.
pub trait Player: View<V = ClientModel> {
    /// The player's UUID, once the player has logged in.
    fn uuid(&self) -> (r: Option<u128>)
        ensures
            r == (match self@.player {
                Some(p) => Some(p.uuid),
                None => None,
            }),
    ;

    /// What the player is sent after a game tick of its own accord: the
    /// acknowledgements of its block changes, of which none is left
    /// waiting.
    fn tick(&mut self) -> (out: Vec<Vec<u8>>)
        ensures
            sent_bytes(out@) == ack_packets(old(self)@.acks),
            final(self)@ == (ClientModel { acks: Seq::empty(), ..old(self)@ }),
    ;

    /// What the player is sent for a packet of the server: the packet as
    /// it is, framed.
    fn send_mc_packet(&self, pkt: &MCPacketBuffer) -> (piece: Vec<u8>)
        ensures
            piece@ == frame_bytes(pkt@),
    ;
}

impl Player for MCClient {
    fn uuid(&self) -> (r: Option<u128>) {
        MCClient::uuid(self)
    }

    fn tick(&mut self) -> (out: Vec<Vec<u8>>) {
        MCClient::tick(self)
    }

    fn send_mc_packet(&self, pkt: &MCPacketBuffer) -> (piece: Vec<u8>) {
        pkt.framed()
    }
}

} // verus!
