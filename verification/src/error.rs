//! The errors of a connection.
use vstd::prelude::*;

verus! {

/// Everything that can go wrong on a connection.
///
/// Nothing is recovered inside the library: each error ends the operation
/// that met it and is handed to the caller. Only [`Error::TimedOut`] leaves
/// the connection in a state from which the same operation can be tried
/// again.
#[derive(Debug, Clone, PartialEq, Eq)]
pub enum Error {
    /// Reading from the stream failed; the payload is the operating system's
    /// error number, where the failure had one.
    IoError(Option<i32>),
    /// A socket call failed; the payload is its `errno`, where it had one.
    NixError(Option<i32>),
    /// The bytes received are not a message; the payload says why.
    UnmarshalError(String),
    /// The message could not be turned into bytes; the payload says why.
    MarshalError(String),
    /// The peer rejected the authentication.
    AuthFailed,
    /// The peer refused to pass file descriptors.
    UnixFdNegotiationFailed,
    /// The requested bus name belongs to somebody else.
    NameTaken,
    /// The bus address is not of the form `unix:path=...`; the payload is the
    /// address.
    AddressTypeNotSupported(String),
    /// Nothing exists at the socket path in the payload.
    PathDoesNotExist(String),
    /// No bus address is configured.
    NoAdressFound,
    /// A message of the invalid type arrived.
    UnexpectedTypeReceived,
    /// The time allowed for the operation ran out.
    TimedOut,
    /// The byte stream and the message boundaries no longer agree.
    FramingError,
}

} // verus!
