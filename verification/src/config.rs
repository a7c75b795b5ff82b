//! How stubborn a connection is.

use vstd::prelude::*;

verus! {

/// The options that govern connecting and reconnecting.
///
/// `F` makes a fresh schedule of retry delays each time that one is needed.
pub struct ReconnectOptions<F> {
    /// Makes the delays to wait before the first, second, ... retry. When they end, so do the
    /// retries.
    pub retries_to_attempt_fn: F,
    /// Whether the failure of the very first connection attempt is final.
    pub exit_if_first_connect_fails: bool,
}

impl<F> ReconnectOptions<F> {
    /// Options with the given schedule maker and the given rule for the first attempt.
    pub fn new(retries_to_attempt_fn: F, exit_if_first_connect_fails: bool) -> (options: Self)
        ensures
            options.retries_to_attempt_fn == retries_to_attempt_fn,
            options.exit_if_first_connect_fails == exit_if_first_connect_fails,
    {
        ReconnectOptions { retries_to_attempt_fn, exit_if_first_connect_fails }
    }
}

} // verus!
