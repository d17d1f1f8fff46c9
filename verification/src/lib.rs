//! A small voxel-world server core: wire codec, chunked block storage,
//! block-state registry and redstone tick simulation.

pub mod client;
pub mod color;
pub mod direction;
pub mod mc_server;
pub mod network;
pub mod player;
pub mod pos;
pub mod resloc;
pub mod utils;
pub mod world;

use vstd::prelude::*;

verus! {

/// The namespace that resource locations fall back to.
pub const MINECRAFT: &'static str = "minecraft";

} // verus!
