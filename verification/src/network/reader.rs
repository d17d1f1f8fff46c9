//! A cursor over the bytes of one packet.

use crate::network::primitives::{
    be_u16, be_u32, be_u64, be_u128, get_be_u16, get_be_u32, get_be_u64, get_be_u128, u16_as_i16,
};
use crate::network::varint::{
    decode_varint_raw, i32_as_u32, i32_from_bits, i64_from_bits, lemma_parse_varint_too_big,
    lemma_varint_bytes_len, lemma_varint_decode_encode, lemma_varint_round_trip,
    lemma_varint_size_limits, parse_varint, u32_as_i32, u64_as_i64,
    varint_bytes, ReadVarIntError, VarIntParse, VARINT_MAX_BYTES, VARLONG_MAX_BYTES,
};
use crate::network::block_pos::{decode_block_pos, unpack_block_pos};
use crate::direction::Direction;
use crate::pos::BlockPos;
use vstd::prelude::*;
use vstd::slice::{slice_subrange, slice_to_vec};
use vstd::utf8::{decode_utf8, valid_utf8};

verus! {

/// The input ended before a value of fixed width did.
#[derive(Debug, Clone, Copy, PartialEq, Eq, Structural)]
pub enum EIOReadExactError {
    UnexpectedEof,
}

/// What a read specifies: the value and the bytes left after it, or the
/// error.
pub type ReadSpec<T, E> = Result<(T, Seq<u8>), E>;

/// Whether a read that returned `r` and left the bytes `after` unread
/// did what `spec` says. A failed read has taken the bytes that it looked
/// at: `left` is what it leaves unread.
pub open spec fn read_matches<T, E>(
    r: Result<T, E>,
    after: Seq<u8>,
    spec: ReadSpec<T, E>,
    left: Seq<u8>,
) -> bool {
    match spec {
        Ok((v, rest)) => r == Ok::<T, E>(v) && after == rest,
        Err(e) => r == Err::<T, E>(e) && after == left,
    }
}

/// What a read of fixed width leaves unread when it fails: nothing, for
/// it has taken the bytes that were there.
pub open spec fn nothing_left() -> Seq<u8> {
    Seq::empty()
}

/// What a failed read of a variable-length number of at most `max_bytes`
/// bytes leaves unread: the bytes behind the first `max_bytes` if the
/// number ran past them, and nothing if the input ended inside the
/// number.
pub open spec fn varint_left(s: Seq<u8>, max_bytes: nat) -> Seq<u8> {
    match parse_varint(s, max_bytes) {
        VarIntParse::TooBig => s.skip(max_bytes as int),
        _ => Seq::empty(),
    }
}

/// What a failed read of a direction leaves unread: the bytes behind the
/// index, if there was one.
pub open spec fn direction_left(s: Seq<u8>) -> Seq<u8> {
    if s.len() < 1 {
        Seq::empty()
    } else {
        s.skip(1)
    }
}

/// What a failed read of a string leaves unread: what the failed read of
/// its length leaves; nothing if the input ended inside the text; the
/// bytes behind the text if the text is not UTF-8.
pub open spec fn utf8_left(s: Seq<u8>) -> Seq<u8> {
    match spec_read_varint_u32(s) {
        Err(_) => varint_left(s, VARINT_MAX_BYTES as nat),
        Ok((len, rest)) => if rest.len() < len {
            Seq::empty()
        } else {
            rest.skip(len as int)
        },
    }
}

/// Reading `n` bytes of fixed width with `value` saying what they spell.
pub open spec fn spec_read_fixed<T>(s: Seq<u8>, n: nat, value: T) -> ReadSpec<
    T,
    EIOReadExactError,
> {
    if s.len() >= n {
        Ok((value, s.skip(n as int)))
    } else {
        Err(EIOReadExactError::UnexpectedEof)
    }
}

pub open spec fn spec_read_u8(s: Seq<u8>) -> ReadSpec<u8, EIOReadExactError> {
    spec_read_fixed(s, 1, s[0])
}

pub open spec fn spec_read_bool(s: Seq<u8>) -> ReadSpec<bool, EIOReadExactError> {
    spec_read_fixed(s, 1, s[0] != 0)
}

pub open spec fn spec_read_u16(s: Seq<u8>) -> ReadSpec<u16, EIOReadExactError> {
    spec_read_fixed(s, 2, be_u16(s))
}

pub open spec fn spec_read_i16(s: Seq<u8>) -> ReadSpec<i16, EIOReadExactError> {
    spec_read_fixed(s, 2, u16_as_i16(be_u16(s)))
}

pub open spec fn spec_read_u32(s: Seq<u8>) -> ReadSpec<u32, EIOReadExactError> {
    spec_read_fixed(s, 4, be_u32(s))
}

pub open spec fn spec_read_u64(s: Seq<u8>) -> ReadSpec<u64, EIOReadExactError> {
    spec_read_fixed(s, 8, be_u64(s))
}

pub open spec fn spec_read_i64(s: Seq<u8>) -> ReadSpec<i64, EIOReadExactError> {
    spec_read_fixed(s, 8, u64_as_i64(be_u64(s)))
}

pub open spec fn spec_read_uuid(s: Seq<u8>) -> ReadSpec<u128, EIOReadExactError> {
    spec_read_fixed(s, 16, be_u128(s))
}

pub open spec fn spec_read_block_pos(s: Seq<u8>) -> ReadSpec<BlockPos, EIOReadExactError> {
    spec_read_fixed(s, 8, unpack_block_pos(be_u64(s)))
}

pub open spec fn spec_skip(s: Seq<u8>, n: nat) -> ReadSpec<(), EIOReadExactError> {
    spec_read_fixed(s, n, ())
}

/// Reading a number of at most five bytes, cut to 32 bits.
pub open spec fn spec_read_varint_u32(s: Seq<u8>) -> ReadSpec<u32, ReadVarIntError> {
    match parse_varint(s, VARINT_MAX_BYTES as nat) {
        VarIntParse::Value { value, len } => Ok(
            ((value % 0x1_0000_0000) as u32, s.skip(len as int)),
        ),
        VarIntParse::TooBig => Err(ReadVarIntError::TooBig { max_bytes: VARINT_MAX_BYTES }),
        VarIntParse::Short => Err(ReadVarIntError::IOError),
    }
}

/// Reading a number of at most five bytes as a signed 32-bit value.
pub open spec fn spec_read_varint(s: Seq<u8>) -> ReadSpec<i32, ReadVarIntError> {
    match spec_read_varint_u32(s) {
        Ok((v, rest)) => Ok((u32_as_i32(v), rest)),
        Err(e) => Err(e),
    }
}

/// Reading a number of at most ten bytes, cut to 64 bits.
pub open spec fn spec_read_varlong_u64(s: Seq<u8>) -> ReadSpec<u64, ReadVarIntError> {
    match parse_varint(s, VARLONG_MAX_BYTES as nat) {
        VarIntParse::Value { value, len } => Ok(
            ((value % 0x1_0000_0000_0000_0000) as u64, s.skip(len as int)),
        ),
        VarIntParse::TooBig => Err(ReadVarIntError::TooBig { max_bytes: VARLONG_MAX_BYTES }),
        VarIntParse::Short => Err(ReadVarIntError::IOError),
    }
}

/// Why a length-prefixed string could not be read.
#[derive(Debug, Clone, Copy, PartialEq, Eq, Structural)]
pub enum ReadUTF8Error {
    /// The length prefix ran past five bytes.
    ProtocolError(ReadVarIntError),
    /// The bytes are not UTF-8.
    UnicodeError,
    /// The input ended inside the length or the text.
    IOError,
}

/// Why a one-byte enum index could not be read.
#[derive(Debug, Clone, Copy, PartialEq, Eq, Structural)]
pub enum ReadIndexedEnumError {
    /// The input ended before the index.
    IOError,
    /// No variant has this index.
    OutOfRange { index: u8 },
}

/// Reading a byte count of at most five bytes, then that many bytes of
/// UTF-8.
pub open spec fn spec_read_utf8(s: Seq<u8>) -> ReadSpec<Seq<char>, ReadUTF8Error> {
    match spec_read_varint_u32(s) {
        Err(ReadVarIntError::TooBig { max_bytes }) => Err(
            ReadUTF8Error::ProtocolError(ReadVarIntError::TooBig { max_bytes }),
        ),
        Err(ReadVarIntError::IOError) => Err(ReadUTF8Error::IOError),
        Ok((len, rest)) => if rest.len() < len {
            Err(ReadUTF8Error::IOError)
        } else if !valid_utf8(rest.take(len as int)) {
            Err(ReadUTF8Error::UnicodeError)
        } else {
            Ok((decode_utf8(rest.take(len as int)), rest.skip(len as int)))
        },
    }
}

/// Reading one byte that indexes a direction.
pub open spec fn spec_read_direction(s: Seq<u8>) -> ReadSpec<Direction, ReadIndexedEnumError> {
    if s.len() < 1 {
        Err(ReadIndexedEnumError::IOError)
    } else if s[0] >= Direction::COUNT {
        Err(ReadIndexedEnumError::OutOfRange { index: s[0] })
    } else {
        Ok((Direction::spec_from_index(s[0]), s.skip(1)))
    }
}

/// `String::from_utf8`: the text that the bytes spell when they are valid
/// UTF-8, and nothing when they are not.
#[verifier::external_body]
pub(crate) fn string_from_utf8(bytes: Vec<u8>) -> (r: Option<String>)
    ensures
        r is Some <==> valid_utf8(bytes@),
        r matches Some(text) ==> text@ == decode_utf8(bytes@),
{
    String::from_utf8(bytes).ok()
}

/// A cursor over a byte slice. Its view is the bytes not yet read.
pub struct PacketReader<'a> {
    data: &'a [u8],
    pos: usize,
}

impl<'a> View for PacketReader<'a> {
    type V = Seq<u8>;

    closed spec fn view(&self) -> Seq<u8> {
        self.data@.skip(self.pos as int)
    }
}

impl<'a> PacketReader<'a> {
    #[verifier::type_invariant]
    spec fn inv(&self) -> bool {
        self.pos <= self.data@.len()
    }

    /// A cursor at the start of `data`.
    pub fn new(data: &'a [u8]) -> (r: PacketReader<'a>)
        ensures
            r@ == data@,
    {
        let r = PacketReader { data, pos: 0 };
        assert(data@.skip(0) =~= data@);
        r
    }

    /// How many bytes are left.
    pub fn remaining(&self) -> (n: usize)
        ensures
            n == self@.len(),
    {
        proof {
            use_type_invariant(self);
        }
        self.data.len() - self.pos
    }

    /// Takes every byte that is left.
    fn take_rest(&mut self)
        ensures
            final(self)@ == nothing_left(),
            final(self).data == old(self).data,
    {
        self.pos = self.data.len();
        assert(self.data@.skip(self.data@.len() as int) =~= Seq::<u8>::empty());
    }

    /// Takes `n` bytes if that many are left, and else all that are
    /// left.
    fn advance(&mut self, n: usize) -> (r: Result<usize, EIOReadExactError>)
        ensures
            old(self)@.len() >= n ==> r == Ok::<usize, EIOReadExactError>(old(self).pos)
                && final(self)@ == old(self)@.skip(n as int) && final(self).pos == old(self).pos
                + n && final(self).data == old(self).data,
            old(self)@.len() < n ==> r == Err::<usize, EIOReadExactError>(
                EIOReadExactError::UnexpectedEof,
            ) && final(self)@ == nothing_left(),
            old(self).pos <= old(self).data@.len(),
    {
        proof {
            use_type_invariant(&*self);
        }
        if self.data.len() - self.pos < n {
            self.take_rest();
            return Err(EIOReadExactError::UnexpectedEof);
        }
        let at = self.pos;
        self.pos = self.pos + n;
        assert(self.data@.skip(at as int).skip(n as int) =~= self.data@.skip(at + n));
        Ok(at)
    }

    pub fn read_u8(&mut self) -> (r: Result<u8, EIOReadExactError>)
        ensures
            read_matches(r, final(self)@, spec_read_u8(old(self)@), nothing_left()),
    {
        let at = self.advance(1)?;
        Ok(self.data[at])
    }

    /// Reads one byte as a flag: zero is false, anything else true.
    pub fn read_bool(&mut self) -> (r: Result<bool, EIOReadExactError>)
        ensures
            read_matches(r, final(self)@, spec_read_bool(old(self)@), nothing_left()),
    {
        let at = self.advance(1)?;
        Ok(self.data[at] != 0)
    }

    pub fn read_be_u16(&mut self) -> (r: Result<u16, EIOReadExactError>)
        ensures
            read_matches(r, final(self)@, spec_read_u16(old(self)@), nothing_left()),
    {
        let at = self.advance(2)?;
        Ok(get_be_u16(self.data, at))
    }

    pub fn read_be_i16(&mut self) -> (r: Result<i16, EIOReadExactError>)
        ensures
            read_matches(r, final(self)@, spec_read_i16(old(self)@), nothing_left()),
    {
        let at = self.advance(2)?;
        let raw = get_be_u16(self.data, at);
        if raw >= 0x8000 {
            Ok((raw as i32 - 0x1_0000) as i16)
        } else {
            Ok(raw as i16)
        }
    }

    pub fn read_be_u32(&mut self) -> (r: Result<u32, EIOReadExactError>)
        ensures
            read_matches(r, final(self)@, spec_read_u32(old(self)@), nothing_left()),
    {
        let at = self.advance(4)?;
        Ok(get_be_u32(self.data, at))
    }

    pub fn read_be_u64(&mut self) -> (r: Result<u64, EIOReadExactError>)
        ensures
            read_matches(r, final(self)@, spec_read_u64(old(self)@), nothing_left()),
    {
        let at = self.advance(8)?;
        Ok(get_be_u64(self.data, at))
    }

    pub fn read_be_i64(&mut self) -> (r: Result<i64, EIOReadExactError>)
        ensures
            read_matches(r, final(self)@, spec_read_i64(old(self)@), nothing_left()),
    {
        let at = self.advance(8)?;
        Ok(i64_from_bits(get_be_u64(self.data, at)))
    }

    /// Reads the sixteen bytes of a UUID, most significant first.
    pub fn read_uuid(&mut self) -> (r: Result<u128, EIOReadExactError>)
        ensures
            read_matches(r, final(self)@, spec_read_uuid(old(self)@), nothing_left()),
    {
        let at = self.advance(16)?;
        Ok(get_be_u128(self.data, at))
    }

    /// Reads a packed block position.
    pub fn read_block_pos(&mut self) -> (r: Result<BlockPos, EIOReadExactError>)
        ensures
            read_matches(r, final(self)@, spec_read_block_pos(old(self)@), nothing_left()),
    {
        let at = self.advance(8)?;
        Ok(decode_block_pos(get_be_u64(self.data, at)))
    }

    /// Passes over `n` bytes.
    pub fn skip_bytes(&mut self, n: usize) -> (r: Result<(), EIOReadExactError>)
        ensures
            read_matches(r, final(self)@, spec_skip(old(self)@, n as nat), nothing_left()),
    {
        let _ = self.advance(n)?;
        Ok(())
    }

    /// Takes a variable-length number of at most `max_bytes` bytes. A
    /// number that runs past them costs those bytes, an input that ends
    /// inside the number all of its bytes.
    fn take_varint_raw(&mut self, max_bytes: usize) -> (r: Result<(u128, usize), ReadVarIntError>)
        requires
            max_bytes <= VARLONG_MAX_BYTES,
        ensures
            final(self).data == old(self).data,
            match parse_varint(old(self)@, max_bytes as nat) {
                VarIntParse::Value { value, len } => r == Ok::<(u128, usize), ReadVarIntError>(
                    (value as u128, len as usize),
                ) && value < 0x40_0000_0000_0000_0000 && final(self)@ == old(self)@.skip(
                    len as int,
                ),
                VarIntParse::TooBig => r == Err::<(u128, usize), ReadVarIntError>(
                    ReadVarIntError::TooBig { max_bytes },
                ) && final(self)@ == old(self)@.skip(max_bytes as int),
                VarIntParse::Short => r == Err::<(u128, usize), ReadVarIntError>(
                    ReadVarIntError::IOError,
                ) && final(self)@ == nothing_left(),
            },
    {
        proof {
            use_type_invariant(&*self);
            lemma_parse_varint_too_big(self@, max_bytes as nat);
        }
        let at = self.pos;
        let end = self.data.len();
        assert(self@.len() == end - at);
        match decode_varint_raw(self.data, self.pos, max_bytes) {
            Ok((value, len)) => {
                self.pos = at + len;
                assert(self.data@.skip(at as int).skip(len as int) =~= self.data@.skip(at + len));
                Ok((value, len))
            },
            Err(ReadVarIntError::TooBig { max_bytes: limit }) => {
                self.pos = at + max_bytes;
                assert(self.data@.skip(at as int).skip(max_bytes as int) =~= self.data@.skip(
                    at + max_bytes,
                ));
                Err(ReadVarIntError::TooBig { max_bytes: limit })
            },
            Err(ReadVarIntError::IOError) => {
                self.take_rest();
                Err(ReadVarIntError::IOError)
            },
        }
    }

    /// Reads a variable-length number of at most five bytes.
    pub fn read_varint_u32(&mut self) -> (r: Result<u32, ReadVarIntError>)
        ensures
            read_matches(
                r,
                final(self)@,
                spec_read_varint_u32(old(self)@),
                varint_left(old(self)@, VARINT_MAX_BYTES as nat),
            ),
    {
        let (value, len) = self.take_varint_raw(VARINT_MAX_BYTES)?;
        Ok((value % 0x1_0000_0000) as u32)
    }

    /// Reads a variable-length number of at most five bytes as a signed
    /// value.
    pub fn read_varint(&mut self) -> (r: Result<i32, ReadVarIntError>)
        ensures
            read_matches(
                r,
                final(self)@,
                spec_read_varint(old(self)@),
                varint_left(old(self)@, VARINT_MAX_BYTES as nat),
            ),
    {
        let raw = self.read_varint_u32()?;
        Ok(i32_from_bits(raw))
    }

    /// Reads a variable-length number of at most ten bytes.
    pub fn read_varlong_u64(&mut self) -> (r: Result<u64, ReadVarIntError>)
        ensures
            read_matches(
                r,
                final(self)@,
                spec_read_varlong_u64(old(self)@),
                varint_left(old(self)@, VARLONG_MAX_BYTES as nat),
            ),
    {
        let (value, len) = self.take_varint_raw(VARLONG_MAX_BYTES)?;
        Ok((value % 0x1_0000_0000_0000_0000) as u64)
    }

    /// Reads one byte that indexes a direction.
    pub fn read_direction(&mut self) -> (r: Result<Direction, ReadIndexedEnumError>)
        ensures
            read_matches(
                r,
                final(self)@,
                spec_read_direction(old(self)@),
                direction_left(old(self)@),
            ),
    {
        let at = match self.advance(1) {
            Ok(at) => at,
            Err(_) => {
                return Err(ReadIndexedEnumError::IOError);
            },
        };
        let index = self.data[at];
        match Direction::from_index(index) {
            Some(direction) => Ok(direction),
            None => Err(ReadIndexedEnumError::OutOfRange { index }),
        }
    }

    /// Reads a string: its byte length as a variable-length number, then
    /// that many bytes of UTF-8.
    pub fn read_utf8(&mut self) -> (r: Result<String, ReadUTF8Error>)
        ensures
            match spec_read_utf8(old(self)@) {
                Ok((chars, rest)) => r matches Ok(text) && text@ == chars && final(self)@ == rest,
                Err(e) => r == Err::<String, ReadUTF8Error>(e) && final(self)@ == utf8_left(
                    old(self)@,
                ),
            },
    {
        let (value, prefix) = match self.take_varint_raw(VARINT_MAX_BYTES) {
            Ok(found) => found,
            Err(ReadVarIntError::TooBig { max_bytes }) => {
                return Err(ReadUTF8Error::ProtocolError(ReadVarIntError::TooBig { max_bytes }));
            },
            Err(ReadVarIntError::IOError) => {
                return Err(ReadUTF8Error::IOError);
            },
        };
        let len: usize = (value % 0x1_0000_0000) as usize;
        let ghost rest = self@;
        let from = match self.advance(len) {
            Ok(from) => from,
            Err(_) => {
                return Err(ReadUTF8Error::IOError);
            },
        };
        let raw = slice_to_vec(slice_subrange(self.data, from, from + len));
        assert(raw@ =~= rest.take(len as int));
        match string_from_utf8(raw) {
            Some(text) => Ok(text),
            None => Err(ReadUTF8Error::UnicodeError),
        }
    }
}

/// Something that variable-length numbers can be read from.
pub trait ReadVarInt {
    /// The bytes not yet read.
    spec fn unread(&self) -> Seq<u8>;

    /// Reads a variable-length number of at most five bytes as a signed
    /// value.
    fn read_varint(&mut self) -> (r: Result<i32, ReadVarIntError>)
        ensures
            read_matches(
                r,
                final(self).unread(),
                spec_read_varint(old(self).unread()),
                varint_left(old(self).unread(), VARINT_MAX_BYTES as nat),
            ),
    ;

    /// Reads a variable-length number of at most ten bytes.
    fn read_varlong(&mut self) -> (r: Result<u64, ReadVarIntError>)
        ensures
            read_matches(
                r,
                final(self).unread(),
                spec_read_varlong_u64(old(self).unread()),
                varint_left(old(self).unread(), VARLONG_MAX_BYTES as nat),
            ),
    ;
}

impl<'a> ReadVarInt for PacketReader<'a> {
    open spec fn unread(&self) -> Seq<u8> {
        self@
    }

    fn read_varint(&mut self) -> (r: Result<i32, ReadVarIntError>) {
        PacketReader::read_varint(self)
    }

    fn read_varlong(&mut self) -> (r: Result<u64, ReadVarIntError>) {
        self.read_varlong_u64()
    }
}

/// Something that length-prefixed strings can be read from.
pub trait ReadUTF8: ReadVarInt {
    /// Reads a string: its byte length as a variable-length number, then
    /// that many bytes of UTF-8.
    fn read_utf8(&mut self) -> (r: Result<String, ReadUTF8Error>)
        ensures
            match spec_read_utf8(old(self).unread()) {
                Ok((chars, rest)) => r matches Ok(text) && text@ == chars && final(self).unread()
                    == rest,
                Err(e) => r == Err::<String, ReadUTF8Error>(e) && final(self).unread()
                    == utf8_left(old(self).unread()),
            },
    ;
}

impl<'a> ReadUTF8 for PacketReader<'a> {
    fn read_utf8(&mut self) -> (r: Result<String, ReadUTF8Error>) {
        PacketReader::read_utf8(self)
    }
}

/// What was written as a variable-length number is read back as written,
/// whatever follows it.
pub proof fn lemma_varint_read_back(v: i32, rest: Seq<u8>)
    ensures
        spec_read_varint(varint_bytes(i32_as_u32(v) as nat) + rest)
            == Ok::<(i32, Seq<u8>), ReadVarIntError>((v, rest)),
{
    let raw = i32_as_u32(v);
    let bytes = varint_bytes(raw as nat);
    lemma_varint_size_limits(raw as nat);
    lemma_varint_round_trip(raw as nat, rest, 5);
    lemma_varint_bytes_len(raw as nat);
    assert((bytes + rest).skip(bytes.len() as int) =~= rest);
}

/// What was read as a variable-length number is written as it was read,
/// if the bytes read end in no needless byte and hold no more than 32
/// bits.
pub proof fn lemma_varint_write_back(s: Seq<u8>)
    requires
        parse_varint(s, 5) matches VarIntParse::Value { value, len } && (len == 1 || s[len - 1]
            != 0) && value < 0x1_0000_0000,
    ensures
        spec_read_varint_u32(s) matches Ok((v, rest)) && varint_bytes(v as nat) + rest == s,
{
    lemma_varint_decode_encode(s, 5);
    let len = parse_varint(s, 5)->len;
    assert(s.take(len as int) + s.skip(len as int) =~= s);
}

/// What was written as a variable-length number of 64 bits is read back
/// as written, whatever follows it.
pub proof fn lemma_varlong_read_back(v: u64, rest: Seq<u8>)
    ensures
        spec_read_varlong_u64(varint_bytes(v as nat) + rest) == Ok::<
            (u64, Seq<u8>),
            ReadVarIntError,
        >((v, rest)),
{
    let bytes = varint_bytes(v as nat);
    lemma_varint_size_limits(v as nat);
    lemma_varint_round_trip(v as nat, rest, 10);
    lemma_varint_bytes_len(v as nat);
    assert((bytes + rest).skip(bytes.len() as int) =~= rest);
}

/// What was written as a number of fixed width is read back as written,
/// whatever follows it.
pub proof fn lemma_fixed_read_back(a: u16, b: u32, c: u64, d: u128, rest: Seq<u8>)
    ensures
        spec_read_u16(crate::network::primitives::be_bytes_u16(a) + rest) == Ok::<
            (u16, Seq<u8>),
            EIOReadExactError,
        >((a, rest)),
        spec_read_u32(crate::network::primitives::be_bytes_u32(b) + rest) == Ok::<
            (u32, Seq<u8>),
            EIOReadExactError,
        >((b, rest)),
        spec_read_u64(crate::network::primitives::be_bytes_u64(c) + rest) == Ok::<
            (u64, Seq<u8>),
            EIOReadExactError,
        >((c, rest)),
        spec_read_uuid(crate::network::primitives::be_bytes_u128(d) + rest) == Ok::<
            (u128, Seq<u8>),
            EIOReadExactError,
        >((d, rest)),
{
    crate::network::primitives::lemma_be_round_trip_u16(a, rest);
    crate::network::primitives::lemma_be_round_trip_u32(b, rest);
    crate::network::primitives::lemma_be_round_trip_u64(c, rest);
    crate::network::primitives::lemma_be_round_trip_u128(d, rest);
    assert((crate::network::primitives::be_bytes_u16(a) + rest).skip(2) =~= rest);
    assert((crate::network::primitives::be_bytes_u32(b) + rest).skip(4) =~= rest);
    assert((crate::network::primitives::be_bytes_u64(c) + rest).skip(8) =~= rest);
    assert((crate::network::primitives::be_bytes_u128(d) + rest).skip(16) =~= rest);
}

} // verus!
