//! What each operation on a connection does, in the terms of whoever uses it: what it answers and
//! where it leaves the connection, given where the connection stood, what was polled, and what the
//! I/O item's own tests say of that.

use core::ops::{Deref, DerefMut};
use core::time::Duration;
use vstd::prelude::*;

use crate::basic_laws::{law_default_final_read, PlainIo};
use crate::error::IoError;
use crate::laws::{action_of, attempt_of, is_pending, lemma_failure, operates, Answer, Operation};
use crate::poll::Poll;
use crate::retry::{next_delay, Draw};
use crate::stubborn::{Action, Outcome, PollTarget, Polled, Status, StubbornIo};
use crate::underlying::UnderlyingIo;

verus! {

/// What `poll_read` does is a read.
pub proof fn law_poll_read_operates<T, C, F, I, E>(
    before: StubbornIo<T, C, F, I>,
    polled: Polled<T, usize, T::Source, E>,
    after: StubbornIo<T, C, F, I>,
    outcome: Outcome<usize, T::Source, C>,
) where T: UnderlyingIo<C>, C: Clone, F: Fn() -> I, I: Iterator<Item = Duration>
    requires
        before.fits(polled),
        exists|slot: &mut StubbornIo<T, C, F, I>| #[trigger]
            call_ensures(StubbornIo::<T, C, F, I>::poll_read::<E>, (slot, polled), outcome) && *slot
                == before && *final(slot) == after,
    ensures
        operates(before, Operation::Read(polled), after, Answer::Size(outcome)),
{
}

/// What `poll_read_buf` does is a read.
pub proof fn law_poll_read_buf_operates<T, C, F, I, E>(
    before: StubbornIo<T, C, F, I>,
    polled: Polled<T, usize, T::Source, E>,
    after: StubbornIo<T, C, F, I>,
    outcome: Outcome<usize, T::Source, C>,
) where T: UnderlyingIo<C>, C: Clone, F: Fn() -> I, I: Iterator<Item = Duration>
    requires
        before.fits(polled),
        exists|slot: &mut StubbornIo<T, C, F, I>| #[trigger]
            call_ensures(StubbornIo::<T, C, F, I>::poll_read_buf::<E>, (slot, polled), outcome) && *slot
                == before && *final(slot) == after,
    ensures
        operates(before, Operation::Read(polled), after, Answer::Size(outcome)),
{
}

/// What `poll_write` does is a write.
pub proof fn law_poll_write_operates<T, C, F, I, E>(
    before: StubbornIo<T, C, F, I>,
    polled: Polled<T, usize, T::Source, E>,
    after: StubbornIo<T, C, F, I>,
    outcome: Outcome<usize, T::Source, C>,
) where T: UnderlyingIo<C>, C: Clone, F: Fn() -> I, I: Iterator<Item = Duration>
    requires
        before.fits(polled),
        exists|slot: &mut StubbornIo<T, C, F, I>| #[trigger]
            call_ensures(StubbornIo::<T, C, F, I>::poll_write::<E>, (slot, polled), outcome) && *slot
                == before && *final(slot) == after,
    ensures
        operates(before, Operation::Write(polled), after, Answer::Size(outcome)),
{
}

/// What `poll_write_buf` does is a write.
pub proof fn law_poll_write_buf_operates<T, C, F, I, E>(
    before: StubbornIo<T, C, F, I>,
    polled: Polled<T, usize, T::Source, E>,
    after: StubbornIo<T, C, F, I>,
    outcome: Outcome<usize, T::Source, C>,
) where T: UnderlyingIo<C>, C: Clone, F: Fn() -> I, I: Iterator<Item = Duration>
    requires
        before.fits(polled),
        exists|slot: &mut StubbornIo<T, C, F, I>| #[trigger]
            call_ensures(StubbornIo::<T, C, F, I>::poll_write_buf::<E>, (slot, polled), outcome) && *slot
                == before && *final(slot) == after,
    ensures
        operates(before, Operation::Write(polled), after, Answer::Size(outcome)),
{
}

/// What `poll_flush` does is a flush.
pub proof fn law_poll_flush_operates<T, C, F, I, E>(
    before: StubbornIo<T, C, F, I>,
    polled: Polled<T, (), T::Source, E>,
    after: StubbornIo<T, C, F, I>,
    outcome: Outcome<(), T::Source, C>,
) where T: UnderlyingIo<C>, C: Clone, F: Fn() -> I, I: Iterator<Item = Duration>
    requires
        before.fits(polled),
        exists|slot: &mut StubbornIo<T, C, F, I>| #[trigger]
            call_ensures(StubbornIo::<T, C, F, I>::poll_flush::<E>, (slot, polled), outcome) && *slot
                == before && *final(slot) == after,
    ensures
        operates(before, Operation::Flush(polled), after, Answer::Done(outcome)),
{
}

/// What `poll_shutdown` does is a shutdown.
pub proof fn law_poll_shutdown_operates<T, C, F, I, E>(
    before: StubbornIo<T, C, F, I>,
    stream_poll: Option<Poll<Result<(), IoError<T::Source>>>>,
    after: StubbornIo<T, C, F, I>,
    outcome: Outcome<(), T::Source, C>,
) where T: UnderlyingIo<C>, C: Clone, F: Fn() -> I, I: Iterator<Item = Duration>
    requires
        stream_poll is Some <==> before.status() is Connected,
        exists|slot: &mut StubbornIo<T, C, F, I>| #[trigger]
            call_ensures(StubbornIo::<T, C, F, I>::poll_shutdown, (slot, stream_poll), outcome)
                && *slot == before && *final(slot) == after,
    ensures
        operates(
            before,
            Operation::<T, T::Source, E>::Shutdown(stream_poll),
            after,
            Answer::Done(outcome),
        ),
{
}

/// `poll_disconnect` does with an attempt's answer what a flush does with it.
pub proof fn law_poll_disconnect_operates<T, C, F, I, E>(
    before: StubbornIo<T, C, F, I>,
    attempt: Poll<Result<T, E>>,
    after: StubbornIo<T, C, F, I>,
    action: Action<C>,
) where T: UnderlyingIo<C>, C: Clone, F: Fn() -> I, I: Iterator<Item = Duration>
    requires
        before.awaits(attempt),
        exists|slot: &mut StubbornIo<T, C, F, I>| #[trigger]
            call_ensures(StubbornIo::<T, C, F, I>::poll_disconnect::<E>, (slot, attempt), action)
                && *slot == before && *final(slot) == after,
    ensures
        operates(
            before,
            Operation::Flush(Polled::Attempt(attempt)),
            after,
            Answer::Done(Outcome { poll: Poll::Pending, action }),
        ),
{
}

/// `on_disconnect` does to a connection in use what a shutdown that has finished does, and to one
/// that is being re-established what the failure of the attempt under way does.
pub proof fn law_on_disconnect_operates<T, C, F, I, E>(
    before: StubbornIo<T, C, F, I>,
    err: E,
    after: StubbornIo<T, C, F, I>,
    action: Action<C>,
) where T: UnderlyingIo<C>, C: Clone, F: Fn() -> I, I: Iterator<Item = Duration>
    requires
        before.status() matches Status::Disconnected(reconnect)
            ==> reconnect.attempts_tracker.attempt_num < usize::MAX,
        exists|slot: &mut StubbornIo<T, C, F, I>| #[trigger]
            call_ensures(StubbornIo::<T, C, F, I>::on_disconnect, (slot,), action) && *slot
                == before && *final(slot) == after,
    ensures
        before.status() is Connected ==> operates(
            before,
            Operation::<T, T::Source, E>::Shutdown(Some(Poll::Ready(Ok(())))),
            after,
            Answer::Done(Outcome { poll: Poll::Ready(Ok(())), action }),
        ),
        before.status() is Disconnected ==> operates(
            before,
            Operation::Flush(Polled::Attempt(Poll::Ready(Err(err)))),
            after,
            Answer::Done(Outcome { poll: Poll::Pending, action }),
        ),
{
}

/// The failure of a connection attempt never goes by unnoticed, whichever operation learns of it:
/// the very next delay is drawn off the schedule in use, and the next attempt, one number up, is
/// asked for after that delay; or no delay was left, and the connection is given up. The result is
/// what was drawn.
pub proof fn law_failed_attempt_leads_to_the_next<T, C, F, I, E>(
    before: StubbornIo<T, C, F, I>,
    operation: Operation<T, T::Source, E>,
    after: StubbornIo<T, C, F, I>,
    answer: Answer<T::Source, C>,
) -> (draw: Draw<I>) where
    T: UnderlyingIo<C>,
    C: Clone,
    F: Fn() -> I,
    I: Iterator<Item = Duration>,

    requires
        operates(before, operation, after, answer),
        attempt_of(operation) matches Some(Poll::Ready(Err(_))),
    ensures
        is_pending(answer),
        after != before,
        after.stream() == before.stream(),
        after.options() == before.options(),
        after.ctor_arg() == before.ctor_arg(),
        before.status() matches Status::Disconnected(reconnect) && {
            let tracker = reconnect.attempts_tracker;
            &&& call_ensures(next_delay::<I>, (tracker.retries_remaining,), draw)
            &&& draw.delay is Some ==> {
                &&& after.status() matches Status::Disconnected(next)
                &&& next.attempts_tracker.attempt_num == tracker.attempt_num + 1
                &&& next.attempts_tracker.retries_remaining == draw.rest
                &&& action_of(answer) matches Action::Retry(attempt)
                &&& attempt.number == tracker.attempt_num + 1
                &&& attempt.delay == draw.delay
                &&& cloned(before.ctor_arg(), attempt.ctor_arg)
            }
        },
        draw.delay is None ==> after.status() is FailedAndExhausted && action_of(answer) is Quiet,
{
    let (_, draw, _) = lemma_failure(before, after, action_of(answer));
    draw
}

/// A connection that an operation takes out of use starts on a schedule straight from the
/// options: attempt 1 is asked for after the first delay; or there is none, and the connection is
/// given up. The result is that schedule and what was drawn off it.
pub proof fn law_loss_leads_to_attempt_one<T, C, F, I, E>(
    before: StubbornIo<T, C, F, I>,
    operation: Operation<T, T::Source, E>,
    after: StubbornIo<T, C, F, I>,
    answer: Answer<T::Source, C>,
) -> (r: (I, Draw<I>)) where
    T: UnderlyingIo<C>,
    C: Clone,
    F: Fn() -> I,
    I: Iterator<Item = Duration>,

    requires
        operates(before, operation, after, answer),
        before.status() is Connected,
        !(after.status() is Connected),
    ensures
        after.stream() == before.stream(),
        after.options() == before.options(),
        after.ctor_arg() == before.ctor_arg(),
        call_ensures(before.options().retries_to_attempt_fn, (), r.0),
        call_ensures(next_delay::<I>, (r.0,), r.1),
        r.1.delay is Some ==> {
            &&& after.status() matches Status::Disconnected(reconnect)
            &&& reconnect.attempts_tracker.attempt_num == 1
            &&& reconnect.attempts_tracker.retries_remaining == r.1.rest
            &&& action_of(answer) matches Action::Retry(attempt)
            &&& attempt.number == 1
            &&& attempt.delay == r.1.delay
            &&& cloned(before.ctor_arg(), attempt.ctor_arg)
        },
        r.1.delay is None ==> after.status() is FailedAndExhausted && action_of(answer) is Quiet,
{
    let (reconnect, draw, _) = lemma_failure(before, after, action_of(answer));
    (reconnect.attempts_tracker.retries_remaining, draw)
}

/// A read of `size` bytes on a connection in use: when the I/O item's own test says that this is
/// the final read, the user waits and the connection is out of use; when it says that it is not,
/// the user gets the size and nothing else happens. The result is what the test said.
pub proof fn law_read_goes_by_final_read_test<T, C, F, I, E>(
    before: StubbornIo<T, C, F, I>,
    size: usize,
    after: StubbornIo<T, C, F, I>,
    outcome: Outcome<usize, T::Source, C>,
) -> (lost: bool) where
    T: UnderlyingIo<C>,
    C: Clone,
    F: Fn() -> I,
    I: Iterator<Item = Duration>,

    requires
        before.status() is Connected,
        operates(
            before,
            Operation::<T, T::Source, E>::Read(Polled::Stream(Poll::Ready(Ok(size)))),
            after,
            Answer::Size(outcome),
        ),
    ensures
        call_ensures(T::is_final_read, (&before.stream(), size), lost),
        lost ==> outcome.poll is Pending && !(after.status() is Connected),
        !lost ==> {
            &&& outcome.poll == Poll::<Result<usize, IoError<T::Source>>>::Ready(Ok(size))
            &&& outcome.action is Quiet
            &&& after == before
        },
        (forall|b: bool| call_ensures(T::is_final_read, (&before.stream(), size), b) ==> b) ==> {
            outcome.poll is Pending && !(after.status() is Connected)
        },
        (forall|b: bool| call_ensures(T::is_final_read, (&before.stream(), size), b) ==> !b) ==> {
            &&& outcome.poll == Poll::<Result<usize, IoError<T::Source>>>::Ready(Ok(size))
            &&& outcome.action is Quiet
            &&& after == before
        },
{
    let lost = outcome.poll is Pending;
    lost
}

/// A read that fails on a connection in use: when the I/O item's own test says that the error is
/// the loss of the connection, the user waits and the connection is out of use; when it says that
/// it is not, the user gets the error and nothing else happens. The result is what the test said.
pub proof fn law_read_goes_by_disconnect_error_test<T, C, F, I, E>(
    before: StubbornIo<T, C, F, I>,
    err: IoError<T::Source>,
    after: StubbornIo<T, C, F, I>,
    outcome: Outcome<usize, T::Source, C>,
) -> (lost: bool) where
    T: UnderlyingIo<C>,
    C: Clone,
    F: Fn() -> I,
    I: Iterator<Item = Duration>,

    requires
        before.status() is Connected,
        operates(
            before,
            Operation::<T, T::Source, E>::Read(Polled::Stream(Poll::Ready(Err(err)))),
            after,
            Answer::Size(outcome),
        ),
    ensures
        call_ensures(T::is_disconnect_error, (&before.stream(), &err), lost),
        lost ==> outcome.poll is Pending && !(after.status() is Connected),
        !lost ==> {
            &&& outcome.poll == Poll::<Result<usize, IoError<T::Source>>>::Ready(Err(err))
            &&& outcome.action is Quiet
            &&& after == before
        },
        (forall|b: bool| call_ensures(T::is_disconnect_error, (&before.stream(), &err), b) ==> b)
            ==> { outcome.poll is Pending && !(after.status() is Connected) },
        (forall|b: bool| call_ensures(T::is_disconnect_error, (&before.stream(), &err), b) ==> !b)
            ==> {
            &&& outcome.poll == Poll::<Result<usize, IoError<T::Source>>>::Ready(Err(err))
            &&& outcome.action is Quiet
            &&& after == before
        },
{
    let lost = outcome.poll is Pending;
    lost
}

/// A write or a flush that fails on a connection in use: when the I/O item's own test says that
/// the error is the loss of the connection, the user waits and the connection is out of use; when
/// it says that it is not, the user gets the error and nothing else happens. The result is what the
/// test said.
pub proof fn law_write_goes_by_disconnect_error_test<T, C, F, I, X, E>(
    before: StubbornIo<T, C, F, I>,
    err: IoError<T::Source>,
    after: StubbornIo<T, C, F, I>,
    outcome: Outcome<X, T::Source, C>,
) -> (lost: bool) where
    T: UnderlyingIo<C>,
    C: Clone,
    F: Fn() -> I,
    I: Iterator<Item = Duration>,

    requires
        before.status() is Connected,
        StubbornIo::writes(
            before,
            Polled::<T, X, T::Source, E>::Stream(Poll::Ready(Err(err))),
            after,
            outcome,
        ),
    ensures
        call_ensures(T::is_disconnect_error, (&before.stream(), &err), lost),
        lost ==> outcome.poll is Pending && !(after.status() is Connected),
        !lost ==> {
            &&& outcome.poll == Poll::<Result<X, IoError<T::Source>>>::Ready(Err(err))
            &&& outcome.action is Quiet
            &&& after == before
        },
        (forall|b: bool| call_ensures(T::is_disconnect_error, (&before.stream(), &err), b) ==> b)
            ==> { outcome.poll is Pending && !(after.status() is Connected) },
        (forall|b: bool| call_ensures(T::is_disconnect_error, (&before.stream(), &err), b) ==> !b)
            ==> {
            &&& outcome.poll == Poll::<Result<X, IoError<T::Source>>>::Ready(Err(err))
            &&& outcome.action is Quiet
            &&& after == before
        },
{
    let lost = outcome.poll is Pending;
    lost
}

/// A write or a flush that succeeds on a connection in use is passed on as it is, whatever it
/// gives, and nothing else happens.
pub proof fn law_successful_write_is_passed_on<T, C, F, I, X, E>(
    before: StubbornIo<T, C, F, I>,
    value: X,
    after: StubbornIo<T, C, F, I>,
    outcome: Outcome<X, T::Source, C>,
) where T: UnderlyingIo<C>, C: Clone, F: Fn() -> I, I: Iterator<Item = Duration>
    requires
        before.status() is Connected,
        StubbornIo::writes(
            before,
            Polled::<T, X, T::Source, E>::Stream(Poll::Ready(Ok(value))),
            after,
            outcome,
        ),
    ensures
        outcome.poll == Poll::<Result<X, IoError<T::Source>>>::Ready(Ok(value)),
        outcome.action is Quiet,
        after == before,
{
}

/// An I/O item that is not ready makes the user wait, and nothing else happens: no operation takes
/// waiting for a loss.
pub proof fn law_waiting_is_no_loss<T, C, F, I, E>(
    before: StubbornIo<T, C, F, I>,
    operation: Operation<T, T::Source, E>,
    after: StubbornIo<T, C, F, I>,
    answer: Answer<T::Source, C>,
) where T: UnderlyingIo<C>, C: Clone, F: Fn() -> I, I: Iterator<Item = Duration>
    requires
        operates(before, operation, after, answer),
        match operation {
            Operation::Read(polled) => polled == Polled::<T, usize, T::Source, E>::Stream(
                Poll::Pending,
            ),
            Operation::Write(polled) => polled == Polled::<T, usize, T::Source, E>::Stream(
                Poll::Pending,
            ),
            Operation::Flush(polled) => polled == Polled::<T, (), T::Source, E>::Stream(
                Poll::Pending,
            ),
            Operation::Shutdown(poll) => poll == Some(
                Poll::<Result<(), IoError<T::Source>>>::Pending,
            ),
        },
    ensures
        is_pending(answer),
        action_of(answer) is Quiet,
        after == before,
{
}

/// What a shutdown of a connection in use answers is what the I/O item answered, be it success, an
/// error of any kind, or to wait; and the connection is out of use exactly when the shutdown has
/// finished.
pub proof fn law_shutdown_is_passed_on<T, C, F, I, E>(
    before: StubbornIo<T, C, F, I>,
    poll: Poll<Result<(), IoError<T::Source>>>,
    after: StubbornIo<T, C, F, I>,
    outcome: Outcome<(), T::Source, C>,
) where T: UnderlyingIo<C>, C: Clone, F: Fn() -> I, I: Iterator<Item = Duration>
    requires
        before.status() is Connected,
        operates(
            before,
            Operation::<T, T::Source, E>::Shutdown(Some(poll)),
            after,
            Answer::Done(outcome),
        ),
    ensures
        outcome.poll == poll,
        poll is Ready <==> !(after.status() is Connected),
        poll is Pending ==> after == before && outcome.action is Quiet,
{
    if poll is Ready {
        let _ = lemma_failure(before, after, outcome.action);
    }
}

/// A shutdown of a connection that is being re-established waits and leaves everything alone; in
/// particular the attempt under way goes on.
pub proof fn law_shutdown_leaves_reconnection_alone<T, C, F, I, E>(
    before: StubbornIo<T, C, F, I>,
    after: StubbornIo<T, C, F, I>,
    outcome: Outcome<(), T::Source, C>,
) where T: UnderlyingIo<C>, C: Clone, F: Fn() -> I, I: Iterator<Item = Duration>
    requires
        before.status() is Disconnected,
        operates(
            before,
            Operation::<T, T::Source, E>::Shutdown(None),
            after,
            Answer::Done(outcome),
        ),
    ensures
        outcome.poll is Pending,
        outcome.action is Quiet,
        after == before,
{
}

/// With an answer of the connection attempt, or with nothing to poll, a read does what a write
/// does: they differ only in how the I/O item's own answer is judged.
pub proof fn law_reads_and_writes_agree_offline<T, C, F, I, E>(
    before: StubbornIo<T, C, F, I>,
    polled: Polled<T, usize, T::Source, E>,
    after: StubbornIo<T, C, F, I>,
    outcome: Outcome<usize, T::Source, C>,
) where T: UnderlyingIo<C>, C: Clone, F: Fn() -> I, I: Iterator<Item = Duration>
    requires
        !(polled is Stream),
    ensures
        StubbornIo::reads(before, polled, after, outcome) <==> StubbornIo::writes(
            before,
            polled,
            after,
            outcome,
        ),
{
}

/// The test of a read's answer asks the I/O item about exactly that answer: its size, or its
/// error. Waiting is never a loss.
pub proof fn law_read_detection_asks_the_item<T, C, F, I>(
    io: StubbornIo<T, C, F, I>,
    poll: Poll<Result<usize, IoError<T::Source>>>,
    lost: bool,
) where T: UnderlyingIo<C>, C: Clone, F: Fn() -> I, I: Iterator<Item = Duration>
    requires
        call_ensures(StubbornIo::<T, C, F, I>::is_read_disconnect_detected, (&io, &poll), lost),
    ensures
        poll matches Poll::Ready(Ok(size)) ==> call_ensures(
            T::is_final_read,
            (&io.stream(), size),
            lost,
        ),
        poll matches Poll::Ready(Err(err)) ==> call_ensures(
            T::is_disconnect_error,
            (&io.stream(), &err),
            lost,
        ),
        poll is Pending ==> !lost,
{
}

/// The test of a write's or a flush's answer asks the I/O item about exactly its error. Success and
/// waiting are never a loss.
pub proof fn law_write_detection_asks_the_item<T, C, F, I, X>(
    io: StubbornIo<T, C, F, I>,
    poll: Poll<Result<X, IoError<T::Source>>>,
    lost: bool,
) where T: UnderlyingIo<C>, C: Clone, F: Fn() -> I, I: Iterator<Item = Duration>
    requires
        call_ensures(
            StubbornIo::<T, C, F, I>::is_write_disconnect_detected::<X>,
            (&io, &poll),
            lost,
        ),
    ensures
        poll matches Poll::Ready(Err(err)) ==> call_ensures(
            T::is_disconnect_error,
            (&io.stream(), &err),
            lost,
        ),
        !(poll matches Poll::Ready(Err(_))) ==> !lost,
{
}

/// Settling an answer hides it and takes the connection out of use when it is judged a loss, and
/// passes it on with nothing else done when it is not, whatever the answer is.
pub proof fn law_settling_goes_by_the_judgement<T, C, F, I, X>(
    before: StubbornIo<T, C, F, I>,
    poll: Poll<Result<X, IoError<T::Source>>>,
    lost: bool,
    after: StubbornIo<T, C, F, I>,
    outcome: Outcome<X, T::Source, C>,
) where T: UnderlyingIo<C>, C: Clone, F: Fn() -> I, I: Iterator<Item = Duration>
    requires
        before.status() is Connected,
        exists|slot: &mut StubbornIo<T, C, F, I>| #[trigger]
            call_ensures(StubbornIo::<T, C, F, I>::settle::<X>, (slot, poll, lost), outcome)
                && *slot == before && *final(slot) == after,
    ensures
        lost ==> outcome.poll is Pending && !(after.status() is Connected) && !(
        outcome.action is Wake),
        !lost ==> outcome.poll == poll && outcome.action is Quiet && after == before,
{
    if lost {
        let _ = lemma_failure(before, after, outcome.action);
    }
}

/// What has to be polled is named right: an answer fits a connection only if it is of what was
/// named, and for each status just one thing is named.
pub proof fn law_poll_target_fits<T, C, F, I, X, E>(
    io: StubbornIo<T, C, F, I>,
    target: PollTarget,
    polled: Polled<T, X, T::Source, E>,
) where T: UnderlyingIo<C>, C: Clone, F: Fn() -> I, I: Iterator<Item = Duration>
    requires
        call_ensures(StubbornIo::<T, C, F, I>::poll_target, (&io,), target),
    ensures
        target is Stream <==> io.status() is Connected,
        target is Attempt <==> io.status() is Disconnected,
        target is Nothing <==> io.status() is FailedAndExhausted,
        io.fits(polled) ==> {
            &&& target is Stream <==> polled is Stream
            &&& target is Attempt <==> polled is Attempt
            &&& target is Nothing <==> polled is Nothing
        },
        polled is Stream && target is Stream ==> io.fits(polled),
        polled is Nothing && target is Nothing ==> io.fits(polled),
        polled matches Polled::Attempt(attempt) && target is Attempt && (attempt matches Poll::Ready(
            Err(_),
        ) ==> io.status()->Disconnected_0.attempts_tracker.attempt_num < usize::MAX) ==> io.fits(
            polled,
        ),
{
}

/// After an operation that asks for an attempt, the number of the attempt under way is the number
/// of that attempt; a connection in use or given up has no attempt under way.
pub proof fn law_attempt_num_is_the_one_asked_for<T, C, F, I, E>(
    before: StubbornIo<T, C, F, I>,
    operation: Operation<T, T::Source, E>,
    after: StubbornIo<T, C, F, I>,
    answer: Answer<T::Source, C>,
    number: Option<usize>,
) where T: UnderlyingIo<C>, C: Clone, F: Fn() -> I, I: Iterator<Item = Duration>
    requires
        operates(before, operation, after, answer),
        call_ensures(StubbornIo::<T, C, F, I>::attempt_num, (&after,), number),
    ensures
        action_of(answer) matches Action::Retry(attempt) ==> number == Some(attempt.number),
        number is Some <==> after.status() is Disconnected,
{
}

/// A buffer is prepared as the I/O item says while it is in use, and not at all otherwise.
pub proof fn law_buffer_preparation<T, C, F, I>(
    io: StubbornIo<T, C, F, I>,
    stream_answer: Option<bool>,
    prepare: bool,
) where T: UnderlyingIo<C>, C: Clone, F: Fn() -> I, I: Iterator<Item = Duration>
    requires
        stream_answer is Some <==> io.status() is Connected,
        call_ensures(
            StubbornIo::<T, C, F, I>::prepare_uninitialized_buffer,
            (&io, stream_answer),
            prepare,
        ),
    ensures
        io.status() is Connected ==> stream_answer == Some(prepare),
        !(io.status() is Connected) ==> !prepare,
{
}

/// Reaching for the I/O item gives the one that the connection is over.
pub proof fn law_deref_gives_the_item<T, C, F, I>(io: StubbornIo<T, C, F, I>, stream: &T)
    requires
        call_ensures(<StubbornIo<T, C, F, I> as Deref>::deref, (&io,), stream),
    ensures
        *stream == io.stream(),
{
}

/// Reaching for the I/O item to change it gives the one that the connection is over, and what
/// becomes of it is all that changes: not the status, the options or the argument.
pub proof fn law_deref_mut_changes_the_item_only<T, C, F, I>()
    ensures
        forall|slot: &mut StubbornIo<T, C, F, I>, stream: &mut T| #[trigger]
            call_ensures(<StubbornIo<T, C, F, I> as DerefMut>::deref_mut, (slot,), stream) ==> {
                &&& *stream == (*slot).stream()
                &&& (*final(slot)).stream() == *final(stream)
                &&& (*final(slot)).status() == (*slot).status()
                &&& (*final(slot)).options() == (*slot).options()
                &&& (*final(slot)).ctor_arg() == (*slot).ctor_arg()
            },
{
}

/// With the default tests, a read that brings any bytes at all is passed on and changes nothing,
/// and the empty read is hidden and takes the connection out of use.
pub proof fn law_default_reads<F, I, E>(
    before: StubbornIo<PlainIo, u64, F, I>,
    size: usize,
    after: StubbornIo<PlainIo, u64, F, I>,
    outcome: Outcome<usize, (), u64>,
) where F: Fn() -> I, I: Iterator<Item = Duration>
    requires
        before.status() is Connected,
        operates(
            before,
            Operation::<PlainIo, (), E>::Read(Polled::Stream(Poll::Ready(Ok(size)))),
            after,
            Answer::Size(outcome),
        ),
    ensures
        size > 0 ==> {
            &&& outcome.poll == Poll::<Result<usize, IoError<()>>>::Ready(Ok(size))
            &&& outcome.action is Quiet
            &&& after == before
        },
        size == 0 ==> outcome.poll is Pending && !(after.status() is Connected),
{
    let lost = law_read_goes_by_final_read_test::<PlainIo, u64, F, I, E>(
        before,
        size,
        after,
        outcome,
    );
    law_default_final_read(before.stream(), size, lost);
}

} // verus!
