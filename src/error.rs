//! The one error type of the library.

use vstd::prelude::*;

verus! {

/// Why a protocol step failed.
#[derive(Debug, Clone, PartialEq, Eq)]
pub enum AdbError {
    /// The byte stream ended before the frame did, or the transport failed.
    IOError,
    /// Bad magic or checksum, an unexpected tag, or a malformed length field.
    ProtocolViolation,
    /// The peer reported failure, with its diagnostic text.
    RequestFailed(String),
    /// An operation needed a live socket and there was none.
    NotConnected,
    /// A length does not fit the target width, or text is not valid UTF-8.
    ConversionError,
    /// A status or tag outside the recognized set, with its raw bytes.
    UnknownResponseType(Vec<u8>),
    /// The peer closed the session.
    PeerClosed,
}

} // verus!
