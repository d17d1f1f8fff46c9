//! The voxel world: block states, chunks, scheduled ticks and the tick
//! engine.

pub mod block;
pub mod chunk;
pub mod net_chunk;
pub mod scheduler;
pub mod signal;
pub mod tick;
pub mod update_queue;
pub mod world;
