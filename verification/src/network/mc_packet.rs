//! Outgoing packets: a growing buffer that starts with the packet id.

use crate::network::primitives::{
    be_bytes_u128, be_bytes_u16, be_bytes_u32, be_bytes_u64, push_be_u128, push_be_u16,
    push_be_u32, push_be_u64,
};
use crate::network::varint::{
    decode_varint_raw, encode_varint, i32_as_u32, i32_bits, i64_as_u64, i64_bits,
    lemma_varint_bytes_len, parse_varint, varint_bytes, varint_len, varint_size, ReadVarIntError,
    VarIntParse, VARINT_MAX_BYTES,
};
use vstd::prelude::*;

verus! {

/// The bytes of a string on the wire: its byte length as a
/// variable-length number, then its UTF-8 bytes.
pub open spec fn utf8_bytes(text: Seq<char>) -> Seq<u8> {
    let body = vstd::utf8::encode_utf8(text);
    varint_bytes(body.len()) + body
}

/// A packet as it travels: the length of `body` as a variable-length
/// number, then `body`, which starts with the packet id.
pub open spec fn frame_bytes(body: Seq<u8>) -> Seq<u8> {
    varint_bytes(body.len()) + body
}

/// The body of a packet under construction. Its view is the bytes written
/// so far, the packet id included.
pub struct MCPacketBuffer {
    buffer: Vec<u8>,
}

impl View for MCPacketBuffer {
    type V = Seq<u8>;

    closed spec fn view(&self) -> Seq<u8> {
        self.buffer@
    }
}

impl MCPacketBuffer {
    /// A packet of the given type with room for `capacity` bytes.
    pub fn with_capacity(packet_type: i32, capacity: usize) -> (pkt: MCPacketBuffer)
        ensures
            pkt@ == varint_bytes(i32_as_u32(packet_type) as nat),
    {
        let mut pkt = MCPacketBuffer { buffer: Vec::with_capacity(capacity) };
        let _ = pkt.write_varint(packet_type);
        assert(pkt@ =~= varint_bytes(i32_as_u32(packet_type) as nat));
        pkt
    }

    /// An empty buffer for a part of a packet, with room for `capacity`
    /// bytes.
    pub fn part(capacity: usize) -> (pkt: MCPacketBuffer)
        ensures
            pkt@ == Seq::<u8>::empty(),
    {
        MCPacketBuffer { buffer: Vec::with_capacity(capacity) }
    }

    /// A packet of the given type.
    pub fn new(packet_type: i32) -> (pkt: MCPacketBuffer)
        ensures
            pkt@ == varint_bytes(i32_as_u32(packet_type) as nat),
    {
        MCPacketBuffer::with_capacity(packet_type, 64)
    }

    /// How many bytes the body holds.
    pub fn len(&self) -> (n: usize)
        ensures
            n == self@.len(),
    {
        self.buffer.len()
    }

    /// The body's bytes.
    pub fn as_slice(&self) -> (s: &[u8])
        ensures
            s@ == self@,
    {
        self.buffer.as_slice()
    }

    pub fn write_u8(&mut self, v: u8)
        ensures
            final(self)@ == old(self)@.push(v),
    {
        self.buffer.push(v);
    }

    /// Writes a flag as one byte, 1 for true.
    pub fn write_bool(&mut self, v: bool)
        ensures
            final(self)@ == old(self)@.push(if v { 1u8 } else { 0u8 }),
    {
        self.buffer.push(if v { 1 } else { 0 });
    }

    /// Writes a signed byte as its bit pattern.
    pub fn write_i8(&mut self, v: i8)
        ensures
            final(self)@ == old(self)@.push(if v < 0 { (v + 256) as u8 } else { v as u8 }),
    {
        self.buffer.push(if v < 0 { (v as i16 + 256) as u8 } else { v as u8 });
    }

    pub fn write_be_u16(&mut self, v: u16)
        ensures
            final(self)@ == old(self)@ + be_bytes_u16(v),
    {
        push_be_u16(&mut self.buffer, v);
    }

    pub fn write_be_u32(&mut self, v: u32)
        ensures
            final(self)@ == old(self)@ + be_bytes_u32(v),
    {
        push_be_u32(&mut self.buffer, v);
    }

    pub fn write_be_i32(&mut self, v: i32)
        ensures
            final(self)@ == old(self)@ + be_bytes_u32(i32_as_u32(v)),
    {
        push_be_u32(&mut self.buffer, i32_bits(v));
    }

    pub fn write_be_u64(&mut self, v: u64)
        ensures
            final(self)@ == old(self)@ + be_bytes_u64(v),
    {
        push_be_u64(&mut self.buffer, v);
    }

    pub fn write_be_i64(&mut self, v: i64)
        ensures
            final(self)@ == old(self)@ + be_bytes_u64(i64_as_u64(v)),
    {
        push_be_u64(&mut self.buffer, i64_bits(v));
    }

    /// Writes the sixteen bytes of a UUID, most significant first.
    pub fn write_uuid(&mut self, uuid: u128)
        ensures
            final(self)@ == old(self)@ + be_bytes_u128(uuid),
    {
        push_be_u128(&mut self.buffer, uuid);
    }

    /// Writes a signed 32-bit value in the fewest bytes; returns how many.
    pub fn write_varint(&mut self, v: i32) -> (n: usize)
        ensures
            final(self)@ == old(self)@ + varint_bytes(i32_as_u32(v) as nat),
            n == varint_size(i32_as_u32(v) as nat),
            1 <= n <= 5,
    {
        encode_varint(&mut self.buffer, i32_bits(v) as u64)
    }

    /// Writes an unsigned 32-bit value in the fewest bytes; returns how
    /// many.
    pub fn write_varint_u32(&mut self, v: u32) -> (n: usize)
        ensures
            final(self)@ == old(self)@ + varint_bytes(v as nat),
            n == varint_size(v as nat),
            1 <= n <= 5,
    {
        encode_varint(&mut self.buffer, v as u64)
    }

    /// Writes an unsigned 64-bit value in the fewest bytes; returns how
    /// many.
    pub fn write_varlong(&mut self, v: u64) -> (n: usize)
        ensures
            final(self)@ == old(self)@ + varint_bytes(v as nat),
            n == varint_size(v as nat),
            1 <= n <= 10,
    {
        encode_varint(&mut self.buffer, v)
    }

    /// Appends bytes as they are.
    pub fn write_all(&mut self, bytes: &[u8])
        ensures
            final(self)@ == old(self)@ + bytes@,
    {
        self.buffer.extend_from_slice(bytes);
    }

    /// Writes a string: its byte length, then its UTF-8 bytes.
    pub fn write_utf8(&mut self, text: &str)
        ensures
            final(self)@ == old(self)@ + utf8_bytes(text@),
    {
        let data = text.as_bytes();
        let _ = encode_varint(&mut self.buffer, data.len() as u64);
        self.buffer.extend_from_slice(data);
        assert(self@ =~= old(self)@ + utf8_bytes(text@));
    }

    /// The packet as it is sent: the body's length, then the body.
    pub fn framed(&self) -> (out: Vec<u8>)
        ensures
            out@ == frame_bytes(self@),
    {
        let mut out: Vec<u8> = Vec::new();
        let _ = encode_varint(&mut out, self.buffer.len() as u64);
        out.extend_from_slice(self.buffer.as_slice());
        assert(out@ =~= frame_bytes(self@));
        out
    }
}

/// How far received bytes go toward a frame.
#[derive(Debug, Copy, Clone, PartialEq, Eq, Structural)]
pub enum FrameHeader {
    /// The length is not all there yet.
    Incomplete,
    /// The length took `header` bytes and the frame's body has `length`
    /// bytes.
    Complete { header: usize, length: usize },
}

/// What the front of received bytes says of the frame that starts there.
pub open spec fn spec_frame_header(bytes: Seq<u8>) -> Result<FrameHeader, ReadVarIntError> {
    match parse_varint(bytes, VARINT_MAX_BYTES as nat) {
        VarIntParse::Value { value, len } => Ok(
            FrameHeader::Complete {
                header: len as usize,
                length: (value % 0x1_0000_0000) as usize,
            },
        ),
        VarIntParse::Short => Ok(FrameHeader::Incomplete),
        VarIntParse::TooBig => Err(ReadVarIntError::TooBig { max_bytes: VARINT_MAX_BYTES }),
    }
}

/// Reads the length of the frame at the front of received bytes.
pub fn read_frame_header(bytes: &[u8]) -> (r: Result<FrameHeader, ReadVarIntError>)
    ensures
        r == spec_frame_header(bytes@),
{
    assert(bytes@.skip(0) =~= bytes@);
    match decode_varint_raw(bytes, 0, VARINT_MAX_BYTES) {
        Ok((value, len)) => Ok(
            FrameHeader::Complete { header: len, length: (value % 0x1_0000_0000) as usize },
        ),
        Err(ReadVarIntError::IOError) => Ok(FrameHeader::Incomplete),
        Err(ReadVarIntError::TooBig { max_bytes }) => Err(ReadVarIntError::TooBig { max_bytes }),
    }
}

/// How many bytes of a frame's body follow the packet id: the body's
/// length less the length of the id, and nothing for a body that is
/// shorter than its id.
pub fn payload_len(packet_length: usize, packet_type: i32) -> (n: usize)
    ensures
        n == (if packet_length >= varint_size(i32_as_u32(packet_type) as nat) {
            packet_length - varint_size(i32_as_u32(packet_type) as nat)
        } else {
            0
        }),
{
    let id_len = varint_len(i32_bits(packet_type) as u64);
    if packet_length >= id_len {
        packet_length - id_len
    } else {
        0
    }
}

} // verus!
