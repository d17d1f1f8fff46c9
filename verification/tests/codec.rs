use tileglobe::network::bitbuf::BitBuf;
use tileglobe::network::block_pos::{decode_block_pos, decode_block_pos_wide, encode_block_pos};
use tileglobe::network::mc_packet::{payload_len, read_frame_header, FrameHeader, MCPacketBuffer};
use tileglobe::network::reader::{
    EIOReadExactError, PacketReader, ReadIndexedEnumError, ReadUTF8Error,
};
use tileglobe::network::varint::{
    decode_varint_raw, encode_varint, i32_bits, i32_from_bits, varint_len, ReadVarIntError,
};
use tileglobe::direction::Direction;
use tileglobe::pos::BlockPos;

fn encoded(v: u64) -> Vec<u8> {
    let mut buf = Vec::new();
    encode_varint(&mut buf, v);
    buf
}

#[test]
fn varint_encodes_known_values() {
    assert_eq!(encoded(0), vec![0x00]);
    assert_eq!(encoded(1), vec![0x01]);
    assert_eq!(encoded(127), vec![0x7f]);
    assert_eq!(encoded(128), vec![0x80, 0x01]);
    assert_eq!(encoded(255), vec![0xff, 0x01]);
    assert_eq!(encoded(300), vec![0xac, 0x02]);
    assert_eq!(encoded(25565), vec![0xdd, 0xc7, 0x01]);
    assert_eq!(encoded(2097151), vec![0xff, 0xff, 0x7f]);
    assert_eq!(encoded(2147483647), vec![0xff, 0xff, 0xff, 0xff, 0x07]);
    assert_eq!(encoded(0xffff_ffff), vec![0xff, 0xff, 0xff, 0xff, 0x0f]);
    assert_eq!(
        encoded(u64::MAX),
        vec![0xff, 0xff, 0xff, 0xff, 0xff, 0xff, 0xff, 0xff, 0xff, 0x01]
    );
}

#[test]
fn varint_encode_returns_length_and_appends() {
    let mut buf = vec![9u8];
    let n = encode_varint(&mut buf, 300);
    assert_eq!(n, 2);
    assert_eq!(buf, vec![9, 0xac, 0x02]);
    assert_eq!(varint_len(0), 1);
    assert_eq!(varint_len(127), 1);
    assert_eq!(varint_len(128), 2);
    assert_eq!(varint_len(0xffff_ffff), 5);
    assert_eq!(varint_len(u64::MAX), 10);
}

#[test]
fn varint_negative_one_takes_five_bytes() {
    let mut pkt = MCPacketBuffer::part(8);
    let n = pkt.write_varint(-1);
    assert_eq!(n, 5);
    assert_eq!(pkt.as_slice(), &[0xff, 0xff, 0xff, 0xff, 0x0f]);
    let mut reader = PacketReader::new(pkt.as_slice());
    assert_eq!(reader.read_varint(), Ok(-1));
    assert_eq!(reader.remaining(), 0);
}

#[test]
fn varint_round_trip_on_samples() {
    let samples: [u64; 12] = [
        0,
        1,
        127,
        128,
        16383,
        16384,
        2097151,
        2097152,
        268435455,
        268435456,
        0x7fff_ffff,
        0xffff_ffff,
    ];
    for v in samples {
        let mut bytes = encoded(v);
        let len = bytes.len();
        bytes.push(0x55);
        assert_eq!(decode_varint_raw(&bytes, 0, 5), Ok((v as u128, len)));
    }
    let longs: [u64; 4] = [0x1_0000_0000, 0x7fff_ffff_ffff_ffff, u64::MAX, 1 << 35];
    for v in longs {
        let bytes = encoded(v);
        assert_eq!(decode_varint_raw(&bytes, 0, 10), Ok((v as u128, bytes.len())));
    }
}

#[test]
fn varint_decode_starts_at_offset() {
    let bytes = [0xaa, 0xbb, 0xac, 0x02, 0x01];
    assert_eq!(decode_varint_raw(&bytes, 2, 5), Ok((300, 2)));
    assert_eq!(decode_varint_raw(&bytes, 4, 5), Ok((1, 1)));
    assert_eq!(decode_varint_raw(&bytes, 5, 5), Err(ReadVarIntError::IOError));
}

#[test]
fn varint_too_big_after_five_continuation_bytes() {
    let bytes = [0x80, 0x80, 0x80, 0x80, 0x80, 0x01];
    assert_eq!(
        decode_varint_raw(&bytes, 0, 5),
        Err(ReadVarIntError::TooBig { max_bytes: 5 })
    );
    assert_eq!(decode_varint_raw(&bytes, 0, 10), Ok((1u128 << 35, 6)));
    let mut reader = PacketReader::new(&bytes);
    assert_eq!(reader.read_varint(), Err(ReadVarIntError::TooBig { max_bytes: 5 }));
    assert_eq!(reader.remaining(), 1);
    assert_eq!(reader.read_u8(), Ok(0x01));
}

#[test]
fn varlong_too_big_after_ten_continuation_bytes() {
    let bytes = [0xff; 11];
    assert_eq!(
        decode_varint_raw(&bytes, 0, 10),
        Err(ReadVarIntError::TooBig { max_bytes: 10 })
    );
    let mut reader = PacketReader::new(&bytes);
    assert_eq!(
        reader.read_varlong_u64(),
        Err(ReadVarIntError::TooBig { max_bytes: 10 })
    );
    assert_eq!(reader.remaining(), 1);
}

#[test]
fn varint_short_input_is_io_error() {
    let bytes = [0x80, 0x80];
    assert_eq!(decode_varint_raw(&bytes, 0, 5), Err(ReadVarIntError::IOError));
    let empty: [u8; 0] = [];
    assert_eq!(decode_varint_raw(&empty, 0, 5), Err(ReadVarIntError::IOError));
    let mut reader = PacketReader::new(&bytes);
    assert_eq!(reader.read_varint_u32(), Err(ReadVarIntError::IOError));
    assert_eq!(reader.remaining(), 0);
}

#[test]
fn varint_non_minimal_encoding_decodes() {
    let bytes = [0x80, 0x00];
    assert_eq!(decode_varint_raw(&bytes, 0, 5), Ok((0, 2)));
}

#[test]
fn varint_fifth_byte_high_bits_are_cut() {
    let bytes = [0xff, 0xff, 0xff, 0xff, 0x7f];
    let mut reader = PacketReader::new(&bytes);
    assert_eq!(reader.read_varint_u32(), Ok(0xffff_ffff));
}

#[test]
fn signed_bits_round_trip() {
    assert_eq!(i32_bits(-1), 0xffff_ffff);
    assert_eq!(i32_bits(i32::MIN), 0x8000_0000);
    assert_eq!(i32_from_bits(0xffff_ffff), -1);
    assert_eq!(i32_from_bits(0x7fff_ffff), i32::MAX);
    for v in [0, 1, -1, i32::MAX, i32::MIN, 772, -772] {
        assert_eq!(i32_from_bits(i32_bits(v)), v);
    }
}

#[test]
fn big_endian_primitives_write_and_read() {
    let mut pkt = MCPacketBuffer::part(64);
    pkt.write_u8(0xab);
    pkt.write_bool(true);
    pkt.write_bool(false);
    pkt.write_i8(-1);
    pkt.write_be_u16(0x1234);
    pkt.write_be_u32(0xdead_beef);
    pkt.write_be_i32(-2);
    pkt.write_be_u64(0x0102_0304_0506_0708);
    pkt.write_be_i64(-3);
    assert_eq!(
        pkt.as_slice(),
        &[
            0xab, 0x01, 0x00, 0xff, 0x12, 0x34, 0xde, 0xad, 0xbe, 0xef, 0xff, 0xff, 0xff, 0xfe,
            0x01, 0x02, 0x03, 0x04, 0x05, 0x06, 0x07, 0x08, 0xff, 0xff, 0xff, 0xff, 0xff, 0xff,
            0xff, 0xfd
        ]
    );
    let mut reader = PacketReader::new(pkt.as_slice());
    assert_eq!(reader.read_u8(), Ok(0xab));
    assert_eq!(reader.read_bool(), Ok(true));
    assert_eq!(reader.read_bool(), Ok(false));
    assert_eq!(reader.read_u8(), Ok(0xff));
    assert_eq!(reader.read_be_u16(), Ok(0x1234));
    assert_eq!(reader.read_be_u32(), Ok(0xdead_beef));
    assert_eq!(reader.read_be_u32(), Ok(0xffff_fffe));
    assert_eq!(reader.read_be_u64(), Ok(0x0102_0304_0506_0708));
    assert_eq!(reader.read_be_i64(), Ok(-3));
    assert_eq!(reader.remaining(), 0);
    assert_eq!(reader.read_u8(), Err(EIOReadExactError::UnexpectedEof));
}

#[test]
fn signed_sixteen_bit_reads() {
    let bytes = [0xff, 0xfe, 0x00, 0x08, 0x80, 0x00];
    let mut reader = PacketReader::new(&bytes);
    assert_eq!(reader.read_be_i16(), Ok(-2));
    assert_eq!(reader.read_be_i16(), Ok(8));
    assert_eq!(reader.read_be_i16(), Ok(i16::MIN));
}

#[test]
fn short_fixed_read_takes_what_is_there() {
    let bytes = [1u8, 2, 3];
    let mut reader = PacketReader::new(&bytes);
    assert_eq!(reader.read_be_u32(), Err(EIOReadExactError::UnexpectedEof));
    assert_eq!(reader.remaining(), 0);
    assert_eq!(reader.read_u8(), Err(EIOReadExactError::UnexpectedEof));
    let mut reader = PacketReader::new(&bytes);
    assert_eq!(reader.skip_bytes(4), Err(EIOReadExactError::UnexpectedEof));
    assert_eq!(reader.remaining(), 0);
    let mut reader = PacketReader::new(&bytes);
    assert_eq!(reader.skip_bytes(2), Ok(()));
    assert_eq!(reader.read_u8(), Ok(3));
}

#[test]
fn uuid_is_sixteen_bytes_big_endian() {
    let uuid: u128 = 0x0011_2233_4455_6677_8899_aabb_ccdd_eeff;
    let mut pkt = MCPacketBuffer::part(16);
    pkt.write_uuid(uuid);
    assert_eq!(
        pkt.as_slice(),
        &[
            0x00, 0x11, 0x22, 0x33, 0x44, 0x55, 0x66, 0x77, 0x88, 0x99, 0xaa, 0xbb, 0xcc, 0xdd,
            0xee, 0xff
        ]
    );
    let mut reader = PacketReader::new(pkt.as_slice());
    assert_eq!(reader.read_uuid(), Ok(uuid));
}

#[test]
fn utf8_write_and_read() {
    let mut pkt = MCPacketBuffer::part(32);
    pkt.write_utf8("héllo");
    assert_eq!(pkt.as_slice(), &[6, b'h', 0xc3, 0xa9, b'l', b'l', b'o']);
    let mut reader = PacketReader::new(pkt.as_slice());
    assert_eq!(reader.read_utf8(), Ok(String::from("héllo")));
    assert_eq!(reader.remaining(), 0);
}

#[test]
fn utf8_empty_string() {
    let bytes = [0u8, 7];
    let mut reader = PacketReader::new(&bytes);
    assert_eq!(reader.read_utf8(), Ok(String::new()));
    assert_eq!(reader.remaining(), 1);
}

#[test]
fn utf8_errors() {
    let bad = [2u8, 0xc3, 0x28];
    let mut reader = PacketReader::new(&bad);
    assert_eq!(reader.read_utf8(), Err(ReadUTF8Error::UnicodeError));
    assert_eq!(reader.remaining(), 0);

    let bad_then_more = [2u8, 0xc3, 0x28, 9];
    let mut reader = PacketReader::new(&bad_then_more);
    assert_eq!(reader.read_utf8(), Err(ReadUTF8Error::UnicodeError));
    assert_eq!(reader.read_u8(), Ok(9));

    let short = [5u8, b'a', b'b'];
    let mut reader = PacketReader::new(&short);
    assert_eq!(reader.read_utf8(), Err(ReadUTF8Error::IOError));
    assert_eq!(reader.remaining(), 0);

    let no_length: [u8; 0] = [];
    let mut reader = PacketReader::new(&no_length);
    assert_eq!(reader.read_utf8(), Err(ReadUTF8Error::IOError));

    let overlong = [0x80u8, 0x80, 0x80, 0x80, 0x80, 0x00];
    let mut reader = PacketReader::new(&overlong);
    assert_eq!(
        reader.read_utf8(),
        Err(ReadUTF8Error::ProtocolError(ReadVarIntError::TooBig { max_bytes: 5 }))
    );
    assert_eq!(reader.remaining(), 1);
}

#[test]
fn direction_index_read() {
    let bytes = [0u8, 5, 6];
    let mut reader = PacketReader::new(&bytes);
    assert_eq!(reader.read_direction(), Ok(Direction::DOWN));
    assert_eq!(reader.read_direction(), Ok(Direction::EAST));
    assert_eq!(
        reader.read_direction(),
        Err(ReadIndexedEnumError::OutOfRange { index: 6 })
    );
    assert_eq!(reader.remaining(), 0);
    let empty: [u8; 0] = [];
    let mut reader = PacketReader::new(&empty);
    assert_eq!(reader.read_direction(), Err(ReadIndexedEnumError::IOError));
}

#[test]
fn packed_position_known_value() {
    let packed: u64 = 0x4607_632c_15b4_833f;
    assert_eq!(encode_block_pos(18357644, 831, -20882616), packed);
    assert_eq!(decode_block_pos_wide(packed), (18357644, 831, -20882616));
}

#[test]
fn packed_position_round_trip_at_the_edges() {
    let xs = [-(1 << 25), -1, 0, 1, (1 << 25) - 1];
    let ys = [-(1 << 11), -1, 0, 1, (1 << 11) - 1];
    for x in xs {
        for y in ys {
            for z in xs {
                let packed = encode_block_pos(x, y, z);
                assert_eq!(decode_block_pos_wide(packed), (x, y, z));
            }
        }
    }
}

#[test]
fn packed_position_decodes_to_block_pos() {
    let packed = encode_block_pos(3, 64, -5);
    assert_eq!(decode_block_pos(packed), BlockPos { x: 3, y: 64, z: -5 });
    let mut pkt = MCPacketBuffer::part(8);
    pkt.write_be_u64(packed);
    let mut reader = PacketReader::new(pkt.as_slice());
    assert_eq!(reader.read_block_pos(), Ok(BlockPos { x: 3, y: 64, z: -5 }));
    let wide = encode_block_pos(65536 + 7, -2048, -65536 - 9);
    assert_eq!(decode_block_pos(wide), BlockPos { x: 7, y: -2048, z: -9 });
}

#[test]
fn packet_starts_with_id_and_frames_with_length() {
    let mut pkt = MCPacketBuffer::new(0x27);
    assert_eq!(pkt.as_slice(), &[0x27]);
    pkt.write_be_u16(0x0102);
    assert_eq!(pkt.len(), 3);
    assert_eq!(pkt.framed(), vec![3, 0x27, 0x01, 0x02]);
    let wide = MCPacketBuffer::with_capacity(300, 4);
    assert_eq!(wide.as_slice(), &[0xac, 0x02]);
}

#[test]
fn frame_length_is_a_varint() {
    let mut pkt = MCPacketBuffer::new(1);
    let filler = [0u8; 199];
    pkt.write_all(&filler);
    let framed = pkt.framed();
    assert_eq!(framed.len(), 202);
    assert_eq!(&framed[..3], &[0xc8, 0x01, 0x01]);
}

#[test]
fn bit_buffer_is_msb_first() {
    let mut bits = BitBuf::with_capacity(16);
    assert_eq!(bits.bit_len(), 0);
    bits.write_bit(true);
    assert_eq!(bits.as_slice(), &[0x80]);
    bits.write_int_as_size(0b101, 3);
    assert_eq!(bits.as_slice(), &[0xd0]);
    bits.write_int_as_size(0xff, 6);
    assert_eq!(bits.bit_len(), 10);
    assert_eq!(bits.as_slice(), &[0xdf, 0xc0]);
}

#[test]
fn bit_buffer_takes_low_bits_only() {
    let mut bits = BitBuf::with_capacity(0);
    bits.write_int_as_size(0xffff_ffff_ffff_fff5, 4);
    assert_eq!(bits.as_slice(), &[0x50]);
    bits.write_int_as_size(1, 0);
    assert_eq!(bits.bit_len(), 4);
    bits.write_int_as_size(0x8000_0000_0000_0001, 64);
    assert_eq!(bits.bit_len(), 68);
    assert_eq!(
        bits.as_slice(),
        &[0x58, 0x00, 0x00, 0x00, 0x00, 0x00, 0x00, 0x00, 0x10]
    );
}

#[test]
fn bit_buffer_fifteen_bit_entries() {
    let mut bits = BitBuf::with_capacity(30);
    bits.write_int_as_size(1, 15);
    bits.write_int_as_size(0x7fff, 15);
    assert_eq!(bits.as_slice(), &[0x00, 0x03, 0xff, 0xfc]);
}

#[test]
fn frame_header_from_received_bytes() {
    assert_eq!(read_frame_header(&[]), Ok(FrameHeader::Incomplete));
    assert_eq!(read_frame_header(&[0x80]), Ok(FrameHeader::Incomplete));
    assert_eq!(
        read_frame_header(&[0x03, 9, 9, 9]),
        Ok(FrameHeader::Complete { header: 1, length: 3 })
    );
    assert_eq!(
        read_frame_header(&[0xc8, 0x01]),
        Ok(FrameHeader::Complete { header: 2, length: 200 })
    );
    assert_eq!(read_frame_header(&[0]), Ok(FrameHeader::Complete { header: 1, length: 0 }));
    assert_eq!(
        read_frame_header(&[0xff, 0xff, 0xff, 0xff, 0x0f, 1]),
        Ok(FrameHeader::Complete { header: 5, length: 0xffff_ffff })
    );
    assert_eq!(
        read_frame_header(&[0xff, 0xff, 0xff, 0xff, 0xff]),
        Err(ReadVarIntError::TooBig { max_bytes: 5 })
    );
}

#[test]
fn payload_length_leaves_out_the_packet_id() {
    assert_eq!(payload_len(10, 0), 9);
    assert_eq!(payload_len(10, 127), 9);
    assert_eq!(payload_len(10, 128), 8);
    assert_eq!(payload_len(10, -1), 5);
    assert_eq!(payload_len(1, 300), 0);
    assert_eq!(payload_len(0, 0), 0);
}

#[test]
fn packed_position_cuts_parts_that_do_not_fit() {
    let packed = encode_block_pos(0x200_0000, 0x800, -0x200_0001);
    assert_eq!(decode_block_pos_wide(packed), (-0x200_0000, -0x800, 0x1FF_FFFF));
    assert_eq!(encode_block_pos(0x400_0000, 0x1000, 0x400_0000), 0);
    assert_eq!(encode_block_pos(-1, -1, -1), u64::MAX);
}

#[test]
fn varint_decode_then_encode_gives_the_bytes_back() {
    let shortest: [&[u8]; 6] = [
        &[0x00],
        &[0x7f],
        &[0x80, 0x01],
        &[0xff, 0x7f],
        &[0xdd, 0xc7, 0x01],
        &[0xff, 0xff, 0xff, 0xff, 0x0f],
    ];
    for bytes in shortest {
        let (value, len) = decode_varint_raw(bytes, 0, 5).unwrap();
        assert_eq!(len, bytes.len());
        assert_eq!(encoded(value as u64), bytes.to_vec());
        let mut reader = PacketReader::new(bytes);
        let read = reader.read_varint_u32().unwrap();
        assert_eq!(encoded(read as u64), bytes.to_vec());
    }
    let padded: &[u8] = &[0x81, 0x00];
    assert_eq!(decode_varint_raw(padded, 0, 5), Ok((1, 2)));
    assert_eq!(encoded(1), vec![0x01]);
    let wide: &[u8] = &[0xff, 0xff, 0xff, 0xff, 0x1f];
    let mut reader = PacketReader::new(wide);
    assert_eq!(reader.read_varint_u32(), Ok(u32::MAX));
    assert_eq!(encoded(u32::MAX as u64), vec![0xff, 0xff, 0xff, 0xff, 0x0f]);
}
