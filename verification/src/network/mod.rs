//! The wire codec: variable-length integers, big-endian primitives,
//! strings, packed positions, bit buffers and packet framing.

pub mod bitbuf;
pub mod block_pos;
pub mod mc_packet;
pub mod primitives;
pub mod reader;
pub mod varint;
