//! The session of one client: the four phases of a connection and what
//! each packet does in them.

pub mod acks;
pub mod error;
pub mod float;
pub mod items;
pub mod mc_client;
pub mod packets;
pub mod parse;
pub mod registry_data;
