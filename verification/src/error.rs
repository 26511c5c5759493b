//! The error taxonomy of the asynchronous layer.
//!
//! Failures of the engine are reported as numeric status codes. A nonzero
//! code is either one of the well-known engine errors, an operating-system
//! error tagged with a fixed offset, or a transport-specific error tagged
//! with another fixed offset. Codes outside those ranges are surfaced
//! verbatim as [`Error::Unknown`].
use vstd::prelude::*;

verus! {

/// First code of the range that carries an operating-system error number.
pub const SYSTEM_ERROR_BASE: u32 = 0x1000_0000;

/// First code of the range that carries a transport-specific error number.
pub const TRANSPORT_ERROR_BASE: u32 = 0x2000_0000;

/// One past the last code of the transport-specific error range.
pub const TRANSPORT_ERROR_END: u32 = 0x3000_0000;

/// An error reported by the asynchronous layer or by the engine.
///
/// `TryAgain` is the one error returned synchronously by a start operation:
/// it means an operation is already outstanding on the handle and nothing
/// was started. All other values are observed through the completion
/// classification or through synchronous socket calls.
#[derive(Clone, Copy, Debug, PartialEq, Eq, Structural)]
pub enum Error {
    /// The operation was interrupted.
    Interrupted,
    /// The engine ran out of memory.
    OutOfMemory,
    /// An argument was invalid.
    InvalidInput,
    /// The resource is busy.
    Busy,
    /// The operation did not complete within its deadline.
    TimedOut,
    /// The remote peer refused the connection.
    ConnectionRefused,
    /// The object is closed.
    Closed,
    /// An operation is already outstanding; retry after its completion.
    TryAgain,
    /// The option or operation is not supported.
    NotSupported,
    /// The address is already in use.
    AddressInUse,
    /// The object is in the wrong state for the operation.
    IncorrectState,
    /// No such entry exists.
    EntryNotFound,
    /// A protocol error occurred.
    Protocol,
    /// The destination is unreachable.
    DestUnreachable,
    /// The address is syntactically invalid.
    AddressInvalid,
    /// The caller lacks permission.
    PermissionDenied,
    /// The message is larger than the configured maximum.
    MessageTooLarge,
    /// The connection was aborted.
    ConnectionAborted,
    /// The connection was reset by the peer.
    ConnectionReset,
    /// The operation was canceled.
    Canceled,
    /// The process is out of file descriptors.
    OutOfFiles,
    /// The device is out of space.
    OutOfSpace,
    /// The resource already exists.
    ResourceExists,
    /// The option is read-only.
    ReadOnly,
    /// The option is write-only.
    WriteOnly,
    /// A cryptographic error occurred.
    Crypto,
    /// Peer authentication failed.
    PeerAuthentication,
    /// A required option argument was missing.
    NoArgument,
    /// The command was ambiguous.
    Ambiguous,
    /// The option value has the wrong type.
    BadType,
    /// An internal engine error occurred.
    Internal,
    /// An operating-system error, carrying the system error number.
    SystemErr(u32),
    /// A transport-specific error, carrying the transport's own code.
    TransportErr(u32),
    /// A status code this layer does not recognize, carried verbatim.
    Unknown(u32),
}

/// The error that a given engine status code denotes.
pub open spec fn error_for_code(code: u32) -> Error {
    if code == 1 {
        Error::Interrupted
    } else if code == 2 {
        Error::OutOfMemory
    } else if code == 3 {
        Error::InvalidInput
    } else if code == 4 {
        Error::Busy
    } else if code == 5 {
        Error::TimedOut
    } else if code == 6 {
        Error::ConnectionRefused
    } else if code == 7 {
        Error::Closed
    } else if code == 8 {
        Error::TryAgain
    } else if code == 9 {
        Error::NotSupported
    } else if code == 10 {
        Error::AddressInUse
    } else if code == 11 {
        Error::IncorrectState
    } else if code == 12 {
        Error::EntryNotFound
    } else if code == 13 {
        Error::Protocol
    } else if code == 14 {
        Error::DestUnreachable
    } else if code == 15 {
        Error::AddressInvalid
    } else if code == 16 {
        Error::PermissionDenied
    } else if code == 17 {
        Error::MessageTooLarge
    } else if code == 18 {
        Error::ConnectionAborted
    } else if code == 19 {
        Error::ConnectionReset
    } else if code == 20 {
        Error::Canceled
    } else if code == 21 {
        Error::OutOfFiles
    } else if code == 22 {
        Error::OutOfSpace
    } else if code == 23 {
        Error::ResourceExists
    } else if code == 24 {
        Error::ReadOnly
    } else if code == 25 {
        Error::WriteOnly
    } else if code == 26 {
        Error::Crypto
    } else if code == 27 {
        Error::PeerAuthentication
    } else if code == 28 {
        Error::NoArgument
    } else if code == 29 {
        Error::Ambiguous
    } else if code == 30 {
        Error::BadType
    } else if code == 1000 {
        Error::Internal
    } else if SYSTEM_ERROR_BASE <= code && code < TRANSPORT_ERROR_BASE {
        Error::SystemErr((code - SYSTEM_ERROR_BASE) as u32)
    } else if TRANSPORT_ERROR_BASE <= code && code < TRANSPORT_ERROR_END {
        Error::TransportErr((code - TRANSPORT_ERROR_BASE) as u32)
    } else {
        Error::Unknown(code)
    }
}

impl Error {
    /// Maps an engine status code to the error it denotes.
    pub fn from_code(code: u32) -> (r: Error)
        ensures
            r == error_for_code(code),
    {
        match code {
            1 => Error::Interrupted,
            2 => Error::OutOfMemory,
            3 => Error::InvalidInput,
            4 => Error::Busy,
            5 => Error::TimedOut,
            6 => Error::ConnectionRefused,
            7 => Error::Closed,
            8 => Error::TryAgain,
            9 => Error::NotSupported,
            10 => Error::AddressInUse,
            11 => Error::IncorrectState,
            12 => Error::EntryNotFound,
            13 => Error::Protocol,
            14 => Error::DestUnreachable,
            15 => Error::AddressInvalid,
            16 => Error::PermissionDenied,
            17 => Error::MessageTooLarge,
            18 => Error::ConnectionAborted,
            19 => Error::ConnectionReset,
            20 => Error::Canceled,
            21 => Error::OutOfFiles,
            22 => Error::OutOfSpace,
            23 => Error::ResourceExists,
            24 => Error::ReadOnly,
            25 => Error::WriteOnly,
            26 => Error::Crypto,
            27 => Error::PeerAuthentication,
            28 => Error::NoArgument,
            29 => Error::Ambiguous,
            30 => Error::BadType,
            1000 => Error::Internal,
            c => {
                if SYSTEM_ERROR_BASE <= c && c < TRANSPORT_ERROR_BASE {
                    Error::SystemErr(c - SYSTEM_ERROR_BASE)
                } else if TRANSPORT_ERROR_BASE <= c && c < TRANSPORT_ERROR_END {
                    Error::TransportErr(c - TRANSPORT_ERROR_BASE)
                } else {
                    Error::Unknown(c)
                }
            },
        }
    }
}

/// Turns an engine status code into a result: zero is success, and any other
/// code is the error it denotes.
pub fn result_for_status(rv: u32) -> (r: Result<(), Error>)
    ensures
        rv == 0 <==> r is Ok,
        rv != 0 ==> (r matches Err(e) && e == error_for_code(rv)),
{
    if rv == 0 {
        Ok(())
    } else {
        Err(Error::from_code(rv))
    }
}

} // verus!
