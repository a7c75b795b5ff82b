//! I/O errors as the reconnect rules see them.

use vstd::prelude::*;

use crate::poll::Poll;

verus! {

/// The category of an I/O error.
#[derive(Clone, Copy, Debug, PartialEq, Eq, Structural)]
pub enum ErrorKind {
    NotFound,
    PermissionDenied,
    ConnectionRefused,
    ConnectionReset,
    ConnectionAborted,
    NotConnected,
    AddrInUse,
    AddrNotAvailable,
    BrokenPipe,
    AlreadyExists,
    WouldBlock,
    InvalidInput,
    InvalidData,
    TimedOut,
    WriteZero,
    Interrupted,
    UnexpectedEof,
    /// Every category that has no variant of its own.
    Other,
}

/// The error kinds that are taken as the loss of a connection.
pub open spec fn disconnect_kinds() -> Set<ErrorKind> {
    set![
        ErrorKind::NotFound,
        ErrorKind::PermissionDenied,
        ErrorKind::ConnectionRefused,
        ErrorKind::ConnectionReset,
        ErrorKind::ConnectionAborted,
        ErrorKind::NotConnected,
        ErrorKind::AddrInUse,
        ErrorKind::AddrNotAvailable,
        ErrorKind::BrokenPipe,
        ErrorKind::AlreadyExists,
    ]
}

impl ErrorKind {
    /// Whether an error of this kind is taken as the loss of the connection.
    pub fn is_disconnect(self) -> (lost: bool)
        ensures
            lost == disconnect_kinds().contains(self),
    {
        match self {
            ErrorKind::NotFound
            | ErrorKind::PermissionDenied
            | ErrorKind::ConnectionRefused
            | ErrorKind::ConnectionReset
            | ErrorKind::ConnectionAborted
            | ErrorKind::NotConnected
            | ErrorKind::AddrInUse
            | ErrorKind::AddrNotAvailable
            | ErrorKind::BrokenPipe
            | ErrorKind::AlreadyExists => true,
            _ => false,
        }
    }
}

/// Where an I/O error comes from.
#[derive(Debug)]
pub enum Detail<S> {
    /// Raised here, with a text.
    Message(&'static str),
    /// Raised by the underlying I/O, which hands its own error value along.
    Source(S),
}

/// An I/O error: its kind, which the reconnect rules read, and its origin, which they pass on.
#[derive(Debug)]
pub struct IoError<S> {
    pub kind: ErrorKind,
    pub detail: Detail<S>,
}

impl<S> IoError<S> {
    /// The error that stands for a connection that was given up for good.
    pub open spec fn is_exhaustion(self) -> bool {
        &&& self.kind == ErrorKind::NotConnected
        &&& self.detail matches Detail::Message(text)
        &&& text@ == "Disconnected. Connection attempts have been exhausted."@
    }
}

/// A poll that has finished with the error of a connection given up for good.
pub open spec fn is_exhausted_poll<X, S>(poll: Poll<Result<X, IoError<S>>>) -> bool {
    poll matches Poll::Ready(Err(err)) && err.is_exhaustion()
}

/// The answer to every operation once the connection attempts are used up.
pub fn exhausted_err<X, S>() -> (poll: Poll<Result<X, IoError<S>>>)
    ensures
        is_exhausted_poll(poll),
{
    let io_err = IoError {
        kind: ErrorKind::NotConnected,
        detail: Detail::Message("Disconnected. Connection attempts have been exhausted."),
    };
    Poll::Ready(Err(io_err))
}

} // verus!
