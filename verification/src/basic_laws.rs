//! What the parts that connections are made of do: schedules, attempts, errors, and the tests of an
//! I/O item that keeps the defaults.

use core::time::Duration;
use vstd::prelude::*;

use crate::config::ReconnectOptions;
use crate::error::{exhausted_err, Detail, ErrorKind, IoError};
use crate::poll::Poll;
use crate::retry::{
    next_delay, plan_attempt, Attempt, AttemptsTracker, Draw, Plan, ReconnectStatus,
};
use crate::underlying::UnderlyingIo;

verus! {

/// Taking a delay off a schedule asks the schedule for its next item, once: the delay is the
/// answer, and the rest is what the schedule has become.
pub proof fn law_next_delay_asks_once<I: Iterator<Item = Duration>>(retries: I, draw: Draw<I>)
    requires
        call_ensures(next_delay::<I>, (retries,), draw),
    ensures
        exists|slot: &mut I| #[trigger]
            call_ensures(I::next, (slot,), draw.delay) && *slot == retries && *final(slot)
                == draw.rest,
{
}

/// A delay leads to exactly one attempt more, which waits for that delay and uses a clone of the
/// argument; the rest of the schedule is kept. No delay leads to no attempt.
pub proof fn law_plan_uses_the_delay<C: Clone, I>(
    attempt_num: usize,
    draw: Draw<I>,
    ctor_arg: C,
    plan: Plan<C, I>,
)
    requires
        call_ensures(plan_attempt::<C, I>, (attempt_num, draw, &ctor_arg), plan),
    ensures
        plan is Retry <==> draw.delay is Some,
        plan matches Plan::Retry(tracker, attempt) ==> {
            &&& attempt.delay == draw.delay
            &&& attempt.number == attempt_num + 1
            &&& tracker.attempt_num == attempt.number
            &&& tracker.retries_remaining == draw.rest
            &&& cloned(ctor_arg, attempt.ctor_arg)
        },
{
}

/// The next attempt of a schedule is planned by one draw off what is left of it.
pub proof fn law_next_attempt_draws_once<C: Clone, I: Iterator<Item = Duration>>(
    tracker: AttemptsTracker<I>,
    ctor_arg: C,
    plan: Plan<C, I>,
) -> (draw: Draw<I>)
    requires
        call_ensures(AttemptsTracker::<I>::next_attempt::<C>, (tracker, &ctor_arg), plan),
    ensures
        call_ensures(next_delay::<I>, (tracker.retries_remaining,), draw),
        plan is Retry <==> draw.delay is Some,
        plan matches Plan::Retry(next, attempt) ==> {
            &&& attempt.delay == draw.delay
            &&& attempt.number == tracker.attempt_num + 1
            &&& next.attempt_num == attempt.number
            &&& next.retries_remaining == draw.rest
            &&& cloned(ctor_arg, attempt.ctor_arg)
        },
{
    choose|draw: Draw<I>| #[trigger]
        call_ensures(next_delay::<I>, (tracker.retries_remaining,), draw) && {
            &&& plan is Retry <==> draw.delay is Some
            &&& plan matches Plan::Retry(next, attempt) ==> {
                &&& attempt.delay == draw.delay
                &&& attempt.number == tracker.attempt_num + 1
                &&& next.attempt_num == attempt.number
                &&& next.retries_remaining == draw.rest
                &&& cloned(ctor_arg, attempt.ctor_arg)
            }
        }
}

/// A reconnection begins with no attempt made and with a schedule straight from the options.
pub proof fn law_reconnection_begins_fresh<F: Fn() -> I, I: Iterator<Item = Duration>>(
    options: ReconnectOptions<F>,
    status: ReconnectStatus<I>,
)
    requires
        call_ensures(ReconnectStatus::<I>::new::<F>, (&options,), status),
    ensures
        status.attempts_tracker.attempt_num == 0,
        call_ensures(
            options.retries_to_attempt_fn,
            (),
            status.attempts_tracker.retries_remaining,
        ),
{
}

/// An attempt establishes the I/O item from the argument that it carries, whatever its number and
/// its delay.
pub proof fn law_attempt_establishes<T: UnderlyingIo<C>, C: Clone>(
    attempt: Attempt<C>,
    establishing: T::Establishing,
)
    requires
        call_ensures(Attempt::<C>::start::<T>, (attempt,), establishing),
    ensures
        call_ensures(T::establish, (attempt.ctor_arg,), establishing),
{
}

/// Options hold what they were made from.
pub proof fn law_options_hold_their_parts<F>(make: F, exit: bool, options: ReconnectOptions<F>)
    requires
        call_ensures(ReconnectOptions::<F>::new, (make, exit), options),
    ensures
        options.retries_to_attempt_fn == make,
        options.exit_if_first_connect_fails == exit,
{
}

/// The error of a connection given up for good is of the kind `NotConnected`, and its text says
/// so.
pub proof fn law_exhausted_error<X, S>(poll: Poll<Result<X, IoError<S>>>)
    requires
        call_ensures(exhausted_err::<X, S>, (), poll),
    ensures
        poll matches Poll::Ready(Err(err)) && {
            &&& err.kind == ErrorKind::NotConnected
            &&& err.detail matches Detail::Message(text)
            &&& text@ == "Disconnected. Connection attempts have been exhausted."@
        },
{
}

/// Of all error kinds, these ten and no others are the loss of a connection.
pub proof fn law_kinds_of_loss(kind: ErrorKind, lost: bool)
    requires
        call_ensures(ErrorKind::is_disconnect, (kind,), lost),
    ensures
        lost == (match kind {
            ErrorKind::NotFound => true,
            ErrorKind::PermissionDenied => true,
            ErrorKind::ConnectionRefused => true,
            ErrorKind::ConnectionReset => true,
            ErrorKind::ConnectionAborted => true,
            ErrorKind::NotConnected => true,
            ErrorKind::AddrInUse => true,
            ErrorKind::AddrNotAvailable => true,
            ErrorKind::BrokenPipe => true,
            ErrorKind::AlreadyExists => true,
            ErrorKind::WouldBlock => false,
            ErrorKind::InvalidInput => false,
            ErrorKind::InvalidData => false,
            ErrorKind::TimedOut => false,
            ErrorKind::WriteZero => false,
            ErrorKind::Interrupted => false,
            ErrorKind::UnexpectedEof => false,
            ErrorKind::Other => false,
        }),
{
}

/// An I/O item that keeps the default tests.
pub struct PlainIo;

impl UnderlyingIo<u64> for PlainIo {
    type Establishing = PlainIo;

    type Source = ();

    fn establish(_ctor_arg: u64) -> PlainIo {
        PlainIo
    }
}

/// By default the empty read, and no other, is the final one.
pub proof fn law_default_final_read(io: PlainIo, received_bytes: usize, lost: bool)
    requires
        call_ensures(<PlainIo as UnderlyingIo<u64>>::is_final_read, (&io, received_bytes), lost),
    ensures
        lost <==> received_bytes == 0,
{
}

/// By default an error is the loss of the connection by its kind alone.
pub proof fn law_default_disconnect_error(io: PlainIo, err: IoError<()>, lost: bool)
    requires
        call_ensures(<PlainIo as UnderlyingIo<u64>>::is_disconnect_error, (&io, &err), lost),
    ensures
        lost == (match err.kind {
            ErrorKind::NotFound => true,
            ErrorKind::PermissionDenied => true,
            ErrorKind::ConnectionRefused => true,
            ErrorKind::ConnectionReset => true,
            ErrorKind::ConnectionAborted => true,
            ErrorKind::NotConnected => true,
            ErrorKind::AddrInUse => true,
            ErrorKind::AddrNotAvailable => true,
            ErrorKind::BrokenPipe => true,
            ErrorKind::AlreadyExists => true,
            ErrorKind::WouldBlock => false,
            ErrorKind::InvalidInput => false,
            ErrorKind::InvalidData => false,
            ErrorKind::TimedOut => false,
            ErrorKind::WriteZero => false,
            ErrorKind::Interrupted => false,
            ErrorKind::UnexpectedEof => false,
            ErrorKind::Other => false,
        }),
{
}

} // verus!
