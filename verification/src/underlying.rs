//! What a connection has to offer to be made stubborn.

use vstd::prelude::*;

use crate::error::{disconnect_kinds, IoError};

verus! {

/// An I/O item that can be established from an argument of type `C`, over and over again.
///
/// Implement `establish`; the two tests have defaults that suit TCP and may be replaced.
pub trait UnderlyingIo<C>: Sized where C: Clone {
    /// An I/O item on its way. Whoever drives it learns in the end whether it came about.
    type Establishing;

    /// The error value that the I/O item itself reports.
    type Source;

    /// Starts to establish the I/O item. This is used for the first connection and for every
    /// retry after it.
    fn establish(ctor_arg: C) -> Self::Establishing;

    /// Whether an error means that the connection is lost.
    fn is_disconnect_error(&self, err: &IoError<Self::Source>) -> (lost: bool)
        default_ensures
            lost == disconnect_kinds().contains(err.kind),
    {
        err.kind.is_disconnect()
    }

    /// Whether a read of this many bytes means that the connection is lost.
    fn is_final_read(&self, received_bytes: usize) -> (lost: bool)
        default_ensures
            lost == (received_bytes == 0),
    {
        received_bytes == 0
    }
}

} // verus!
