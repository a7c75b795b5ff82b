//! The ingredients of I/O items that reconnect by themselves when their connection fails, so that
//! the code that uses them need not care about a temporary network failure.
//!
//! An I/O item that can be established again and again ([`UnderlyingIo`]) becomes a [`StubbornIo`].
//! When its connection is lost, this hides the loss, and has the connection made anew, after
//! the delays of a retry schedule ([`ReconnectOptions`]); only when that is used up do its users
//! see an error.
//!
//! The crate decides; it does no I/O, waits for nothing and reads no clock. A driver polls what
//! the crate names, hands over the answers and carries out the actions that come back.

pub mod basic_laws;
pub mod config;
pub mod connect;
pub mod connect_laws;
pub mod error;
pub mod laws;
pub mod operation_laws;
pub mod poll;
pub mod retry;
pub mod stubborn;
pub mod underlying;

pub use crate::config::ReconnectOptions;
pub use crate::stubborn::StubbornIo;
pub use crate::underlying::UnderlyingIo;
