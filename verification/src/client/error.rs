//! Why a session ends.

use crate::network::reader::{EIOReadExactError, ReadIndexedEnumError, ReadUTF8Error};
use crate::network::varint::ReadVarIntError;
use vstd::prelude::*;

verus! {

/// A violation of the protocol's rules.
#[derive(Debug, Clone, Copy, PartialEq, Eq, Structural)]
pub enum ProtocolViolation {
    /// A handshake asked for an intent that does not exist.
    InvalidIntent { intent: i32 },
    /// A packet came that the phase does not allow.
    UnexpectedPacket { packet_type: i32 },
    /// A variable-length number ran past its longest form.
    VarIntTooBig { max_bytes: usize },
}

/// A value that cannot be what it should be.
#[derive(Debug, Clone, Copy, PartialEq, Eq, Structural)]
pub enum DataFault {
    /// A string is not UTF-8.
    InvalidUtf8,
    /// An enum index names no variant.
    EnumOutOfRange { index: u8 },
}

/// Why a session ends.
#[derive(Debug, Clone, Copy, PartialEq, Eq, Structural)]
pub enum MCClientError {
    /// The client broke the protocol's rules.
    ProtocolError(ProtocolViolation),
    /// The client sent a malformed value.
    DataError(DataFault),
    /// The input failed or ended inside a value; the cause is kept.
    NetworkError(EIOReadExactError),
}

impl MCClientError {
    pub open spec fn spec_from_varint(e: ReadVarIntError) -> MCClientError {
        match e {
            ReadVarIntError::TooBig { max_bytes } => MCClientError::ProtocolError(
                ProtocolViolation::VarIntTooBig { max_bytes },
            ),
            ReadVarIntError::IOError => MCClientError::NetworkError(
                EIOReadExactError::UnexpectedEof,
            ),
        }
    }

    pub open spec fn spec_from_utf8(e: ReadUTF8Error) -> MCClientError {
        match e {
            ReadUTF8Error::ProtocolError(inner) => MCClientError::spec_from_varint(inner),
            ReadUTF8Error::UnicodeError => MCClientError::DataError(DataFault::InvalidUtf8),
            ReadUTF8Error::IOError => MCClientError::NetworkError(
                EIOReadExactError::UnexpectedEof,
            ),
        }
    }

    pub open spec fn spec_from_enum(e: ReadIndexedEnumError) -> MCClientError {
        match e {
            ReadIndexedEnumError::IOError => MCClientError::NetworkError(
                EIOReadExactError::UnexpectedEof,
            ),
            ReadIndexedEnumError::OutOfRange { index } => MCClientError::DataError(
                DataFault::EnumOutOfRange { index },
            ),
        }
    }

    /// A number that runs too long breaks the protocol; input that ends
    /// early is a network error.
    pub fn from_varint(e: ReadVarIntError) -> (r: MCClientError)
        ensures
            r == MCClientError::spec_from_varint(e),
    {
        match e {
            ReadVarIntError::TooBig { max_bytes } => MCClientError::ProtocolError(
                ProtocolViolation::VarIntTooBig { max_bytes },
            ),
            ReadVarIntError::IOError => MCClientError::NetworkError(
                EIOReadExactError::UnexpectedEof,
            ),
        }
    }

    /// A string that is not UTF-8 is a data error.
    pub fn from_utf8(e: ReadUTF8Error) -> (r: MCClientError)
        ensures
            r == MCClientError::spec_from_utf8(e),
    {
        match e {
            ReadUTF8Error::ProtocolError(inner) => MCClientError::from_varint(inner),
            ReadUTF8Error::UnicodeError => MCClientError::DataError(DataFault::InvalidUtf8),
            ReadUTF8Error::IOError => MCClientError::NetworkError(
                EIOReadExactError::UnexpectedEof,
            ),
        }
    }

    /// An enum index that names no variant is a data error.
    pub fn from_enum(e: ReadIndexedEnumError) -> (r: MCClientError)
        ensures
            r == MCClientError::spec_from_enum(e),
    {
        match e {
            ReadIndexedEnumError::IOError => MCClientError::NetworkError(
                EIOReadExactError::UnexpectedEof,
            ),
            ReadIndexedEnumError::OutOfRange { index } => MCClientError::DataError(
                DataFault::EnumOutOfRange { index },
            ),
        }
    }

    /// Input that ends inside a value of fixed width is a network error
    /// with that cause.
    pub fn from_read_exact(e: EIOReadExactError) -> (r: MCClientError)
        ensures
            r == MCClientError::NetworkError(e),
    {
        MCClientError::NetworkError(e)
    }
}

} // verus!
