//! A connection that re-establishes itself.
//!
//! A [`StubbornIo`] owns the I/O item and decides what each poll of it comes to. The polls
//! themselves, the timers and the making of new I/O items are the driver's: it asks
//! [`StubbornIo::poll_target`] what to poll, hands the answer to the operation at hand as a
//! [`Polled`], and carries out the [`Action`] that comes back.

use core::ops::{Deref, DerefMut};
use core::time::Duration;
use vstd::prelude::*;

use crate::config::ReconnectOptions;
use crate::error::{exhausted_err, is_exhausted_poll, IoError};
use crate::poll::Poll;
use crate::retry::{Attempt, Plan, ReconnectStatus};
use crate::underlying::UnderlyingIo;

verus! {

/// Where a stubborn connection stands.
pub enum Status<I> {
    /// The I/O item is in use.
    Connected,
    /// The connection is lost; an attempt to re-establish it is under way.
    Disconnected(ReconnectStatus<I>),
    /// The connection is lost and the retry schedule is used up. This is final.
    FailedAndExhausted,
}

/// What the driver has to poll for an operation to go on.
#[derive(Debug, PartialEq, Eq)]
pub enum PollTarget {
    /// The I/O item itself.
    Stream,
    /// The connection attempt under way.
    Attempt,
    /// Nothing: the connection is given up.
    Nothing,
}

/// What the driver polled, and the answer: `X` is what the operation gives when it succeeds, `E`
/// the error of a failed connection attempt.
pub enum Polled<T, X, S, E> {
    Stream(Poll<Result<X, IoError<S>>>),
    Attempt(Poll<Result<T, E>>),
    Nothing,
}

/// What the driver has to do before it returns the answer of a poll.
pub enum Action<C> {
    /// Nothing.
    Quiet,
    /// Wake the task, so that it polls again.
    Wake,
    /// Let this attempt take the place of the one before it, and wake the task.
    Retry(Attempt<C>),
}

/// The answer of an operation, and what has to be done before it is returned.
pub struct Outcome<X, S, C> {
    pub poll: Poll<Result<X, IoError<S>>>,
    pub action: Action<C>,
}

/// An I/O item of type `T`, made from arguments of type `C`, that is established anew whenever
/// the connection is lost.
///
/// `F` makes the retry schedules, which are of type `I`.
pub struct StubbornIo<T, C, F, I> {
    status: Status<I>,
    stream: T,
    options: ReconnectOptions<F>,
    ctor_arg: C,
}

impl<T, C, F, I> StubbornIo<T, C, F, I> {
    pub closed spec fn status(self) -> Status<I> {
        self.status
    }

    pub closed spec fn stream(self) -> T {
        self.stream
    }

    pub closed spec fn options(self) -> ReconnectOptions<F> {
        self.options
    }

    pub closed spec fn ctor_arg(self) -> C {
        self.ctor_arg
    }

    /// Whether `after` has the options and the argument of `before`.
    pub open spec fn same_setup(before: Self, after: Self) -> bool {
        after.options() == before.options() && after.ctor_arg() == before.ctor_arg()
    }

    /// A connection over `stream` that has just been established.
    pub(crate) fn connected(stream: T, options: ReconnectOptions<F>, ctor_arg: C) -> (io: Self)
        ensures
            io.status() == Status::<I>::Connected,
            io.stream() == stream,
            io.options() == options,
            io.ctor_arg() == ctor_arg,
    {
        StubbornIo { status: Status::Connected, stream, options, ctor_arg }
    }

    /// What has to be polled for a read, a write or a flush to go on.
    pub fn poll_target(&self) -> (target: PollTarget)
        ensures
            target == (match self.status() {
                Status::Connected => PollTarget::Stream,
                Status::Disconnected(_) => PollTarget::Attempt,
                Status::FailedAndExhausted => PollTarget::Nothing,
            }),
    {
        match &self.status {
            Status::Connected => PollTarget::Stream,
            Status::Disconnected(_) => PollTarget::Attempt,
            Status::FailedAndExhausted => PollTarget::Nothing,
        }
    }

    /// The number of the connection attempt under way, if there is one.
    pub fn attempt_num(&self) -> (number: Option<usize>)
        ensures
            number == (match self.status() {
                Status::Disconnected(reconnect) => Some(reconnect.attempts_tracker.attempt_num),
                _ => None,
            }),
    {
        match &self.status {
            Status::Disconnected(reconnect) => Some(reconnect.attempts_tracker.attempt_num),
            _ => None,
        }
    }
}

impl<T, C, F, I> Deref for StubbornIo<T, C, F, I> {
    type Target = T;

    fn deref(&self) -> (stream: &T)
        ensures
            *stream == self.stream(),
    {
        &self.stream
    }
}

impl<T, C, F, I> DerefMut for StubbornIo<T, C, F, I> {
    fn deref_mut(&mut self) -> (stream: &mut T)
        ensures
            *stream == old(self).stream(),
            final(self).stream() == *final(stream),
            final(self).status() == old(self).status(),
            Self::same_setup(*old(self), *final(self)),
    {
        &mut self.stream
    }
}

impl<T, C, F, I> StubbornIo<T, C, F, I> where
    T: UnderlyingIo<C>,
    C: Clone,
    F: Fn() -> I,
    I: Iterator<Item = Duration>,
 {
    /// A connection that is being re-established has made an attempt, and retry schedules can
    /// be had at any time.
    pub open spec fn wf(self) -> bool {
        &&& self.status() matches Status::Disconnected(reconnect)
            ==> reconnect.attempts_tracker.attempt_num >= 1
        &&& call_requires(self.options().retries_to_attempt_fn, ())
    }

    /// The reconnection that a failure belongs to: a fresh one when the connection was in use,
    /// the one under way when it was lost already.
    pub open spec fn reconnection(self, reconnect: ReconnectStatus<I>) -> bool {
        match self.status() {
            Status::Connected => ReconnectStatus::is_fresh(self.options(), reconnect),
            Status::Disconnected(current) => reconnect == current,
            Status::FailedAndExhausted => false,
        }
    }

    /// Whether a connection that follows `plan` is left with `status` and asks for `action`.
    pub open spec fn follows(plan: Plan<C, I>, status: Status<I>, action: Action<C>) -> bool {
        match plan {
            Plan::Retry(attempts_tracker, attempt) => {
                &&& status == Status::Disconnected(ReconnectStatus { attempts_tracker })
                &&& action == Action::Retry(attempt)
            },
            Plan::GiveUp => {
                &&& status == Status::<I>::FailedAndExhausted
                &&& action == Action::<C>::Quiet
            },
        }
    }

    /// Whether a failure may turn `before` into `after` and ask for `action`: the next delay is
    /// drawn from the schedule; another attempt is made, or the connection is given up.
    pub open spec fn disconnects(before: Self, after: Self, action: Action<C>) -> bool {
        &&& after.stream() == before.stream()
        &&& Self::same_setup(before, after)
        &&& exists|reconnect: ReconnectStatus<I>, plan: Plan<C, I>|
            #![trigger
                before.reconnection(reconnect),
                reconnect.attempts_tracker.leads_to(before.ctor_arg(), plan),
            ]
            {
                &&& before.reconnection(reconnect)
                &&& reconnect.attempts_tracker.leads_to(before.ctor_arg(), plan)
                &&& Self::follows(plan, after.status(), action)
            }
    }

    /// Reacts to a failure: the loss of the connection, or of an attempt to re-establish it.
    ///
    /// When the schedule is used up, nothing is asked for, not even to wake the task: the next
    /// operation that is polled for another reason finds the connection given up.
    pub fn on_disconnect(&mut self) -> (action: Action<C>)
        requires
            old(self).wf(),
            !(old(self).status() is FailedAndExhausted),
            old(self).status() matches Status::Disconnected(reconnect)
                ==> reconnect.attempts_tracker.attempt_num < usize::MAX,
        ensures
            final(self).wf(),
            Self::disconnects(*old(self), *final(self), action),
    {
        let mut status = Status::FailedAndExhausted;
        core::mem::swap(&mut status, &mut self.status);
        let reconnect = match status {
            // initial disconnect
            Status::Connected => ReconnectStatus::new(&self.options),
            Status::Disconnected(reconnect) => reconnect,
            Status::FailedAndExhausted => vstd::pervasive::unreached(),
        };
        assert(old(self).reconnection(reconnect));
        let plan = reconnect.attempts_tracker.next_attempt(&self.ctor_arg);
        assert(reconnect.attempts_tracker.leads_to(old(self).ctor_arg(), plan));
        self.follow(plan)
    }

    /// Sets the status to what the plan after a failure comes to.
    fn follow(&mut self, plan: Plan<C, I>) -> (action: Action<C>)
        ensures
            Self::follows(plan, final(self).status(), action),
            final(self).stream() == old(self).stream(),
            Self::same_setup(*old(self), *final(self)),
    {
        match plan {
            Plan::Retry(attempts_tracker, attempt) => {
                self.status = Status::Disconnected(ReconnectStatus { attempts_tracker });
                Action::Retry(attempt)
            },
            Plan::GiveUp => {
                self.status = Status::FailedAndExhausted;
                Action::Quiet
            },
        }
    }

    /// Whether the answer of a connection attempt may turn `before` into `after` and ask for
    /// `action`: a new I/O item puts the connection back into use, a failure is another
    /// disconnect, and an attempt that goes on changes nothing.
    pub open spec fn reconnects<E>(
        before: Self,
        attempt: Poll<Result<T, E>>,
        after: Self,
        action: Action<C>,
    ) -> bool {
        match attempt {
            Poll::Ready(Ok(stream)) => {
                &&& after.status() == Status::<I>::Connected
                &&& after.stream() == stream
                &&& Self::same_setup(before, after)
                &&& action == Action::<C>::Wake
            },
            Poll::Ready(Err(_)) => Self::disconnects(before, after, action),
            Poll::Pending => after == before && action == Action::<C>::Quiet,
        }
    }

    /// Whether `attempt` is an answer of the connection attempt under way. When it has failed,
    /// there is a number left for the next one.
    pub open spec fn awaits<E>(self, attempt: Poll<Result<T, E>>) -> bool {
        &&& self.status() matches Status::Disconnected(reconnect)
        &&& attempt matches Poll::Ready(Err(_)) ==> reconnect.attempts_tracker.attempt_num
            < usize::MAX
    }

    /// Goes on with re-establishing the connection, given the answer of the attempt under way.
    pub fn poll_disconnect<E>(&mut self, attempt: Poll<Result<T, E>>) -> (action: Action<C>)
        requires
            old(self).wf(),
            old(self).awaits(attempt),
        ensures
            final(self).wf(),
            Self::reconnects(*old(self), attempt, *final(self), action),
    {
        match attempt {
            Poll::Ready(Ok(stream)) => {
                self.status = Status::Connected;
                self.stream = stream;
                Action::Wake
            },
            Poll::Ready(Err(_)) => self.on_disconnect(),
            Poll::Pending => Action::Quiet,
        }
    }

    /// Whether the I/O item may judge by the answer to a read that the connection is lost (or,
    /// with `lost` false, that it is not).
    pub open spec fn read_judged(
        self,
        poll_result: Poll<Result<usize, IoError<T::Source>>>,
        lost: bool,
    ) -> bool {
        match poll_result {
            Poll::Ready(Ok(size)) => call_ensures(
                T::is_final_read,
                (&self.stream(), size),
                lost,
            ),
            Poll::Ready(Err(err)) => call_ensures(
                T::is_disconnect_error,
                (&self.stream(), &err),
                lost,
            ),
            Poll::Pending => !lost,
        }
    }

    /// Whether the I/O item may judge by the answer to a write or a flush that the connection is
    /// lost (or, with `lost` false, that it is not).
    pub open spec fn write_judged<X>(
        self,
        poll_result: Poll<Result<X, IoError<T::Source>>>,
        lost: bool,
    ) -> bool {
        match poll_result {
            Poll::Ready(Err(err)) => call_ensures(
                T::is_disconnect_error,
                (&self.stream(), &err),
                lost,
            ),
            _ => !lost,
        }
    }

    /// Whether the answer to a read shows that the connection is lost.
    pub fn is_read_disconnect_detected(
        &self,
        poll_result: &Poll<Result<usize, IoError<T::Source>>>,
    ) -> (lost: bool)
        ensures
            self.read_judged(*poll_result, lost),
    {
        match poll_result {
            Poll::Ready(Ok(size)) => self.stream.is_final_read(*size),
            Poll::Ready(Err(err)) => self.stream.is_disconnect_error(err),
            Poll::Pending => false,
        }
    }

    /// Whether the answer to a write or a flush shows that the connection is lost.
    pub fn is_write_disconnect_detected<X>(
        &self,
        poll_result: &Poll<Result<X, IoError<T::Source>>>,
    ) -> (lost: bool)
        ensures
            self.write_judged(*poll_result, lost),
    {
        match poll_result {
            Poll::Ready(Err(err)) => self.stream.is_disconnect_error(err),
            _ => false,
        }
    }

    /// Whether the I/O item's answer `poll`, judged to show a loss or not, may turn `before` into
    /// `after` and come out as `outcome`: a loss is hidden and reacted to, anything else is
    /// passed on.
    pub open spec fn settles<X>(
        before: Self,
        poll: Poll<Result<X, IoError<T::Source>>>,
        lost: bool,
        after: Self,
        outcome: Outcome<X, T::Source, C>,
    ) -> bool {
        if lost {
            &&& Self::disconnects(before, after, outcome.action)
            &&& outcome.poll == Poll::<Result<X, IoError<T::Source>>>::Pending
        } else {
            &&& after == before
            &&& outcome.poll == poll
            &&& outcome.action == Action::<C>::Quiet
        }
    }

    /// Turns the I/O item's answer into the outcome, once it is known whether it shows that the
    /// connection is lost.
    pub fn settle<X>(&mut self, poll: Poll<Result<X, IoError<T::Source>>>, lost: bool) -> (outcome:
        Outcome<X, T::Source, C>)
        requires
            old(self).wf(),
            old(self).status() is Connected,
        ensures
            final(self).wf(),
            Self::settles(*old(self), poll, lost, *final(self), outcome),
    {
        if lost {
            let action = self.on_disconnect();
            Outcome { poll: Poll::Pending, action }
        } else {
            Outcome { poll, action: Action::Quiet }
        }
    }

    /// Whether `polled` is the answer of what had to be polled.
    pub open spec fn fits<X, E>(self, polled: Polled<T, X, T::Source, E>) -> bool {
        match polled {
            Polled::Stream(_) => self.status() is Connected,
            Polled::Attempt(attempt) => self.awaits(attempt),
            Polled::Nothing => self.status() is FailedAndExhausted,
        }
    }

    /// Whether a read may turn `before` into `after` and come out as `outcome`.
    pub open spec fn reads<E>(
        before: Self,
        polled: Polled<T, usize, T::Source, E>,
        after: Self,
        outcome: Outcome<usize, T::Source, C>,
    ) -> bool {
        match polled {
            Polled::Stream(poll) => exists|lost: bool| #[trigger]
                before.read_judged(poll, lost) && Self::settles(before, poll, lost, after, outcome),
            Polled::Attempt(attempt) => {
                &&& Self::reconnects(before, attempt, after, outcome.action)
                &&& outcome.poll is Pending
            },
            Polled::Nothing => {
                &&& after == before
                &&& is_exhausted_poll(outcome.poll)
                &&& outcome.action == Action::<C>::Quiet
            },
        }
    }

    /// Whether a write or a flush may turn `before` into `after` and come out as `outcome`.
    pub open spec fn writes<X, E>(
        before: Self,
        polled: Polled<T, X, T::Source, E>,
        after: Self,
        outcome: Outcome<X, T::Source, C>,
    ) -> bool {
        match polled {
            Polled::Stream(poll) => exists|lost: bool| #[trigger]
                before.write_judged(poll, lost) && Self::settles(
                    before,
                    poll,
                    lost,
                    after,
                    outcome,
                ),
            Polled::Attempt(attempt) => {
                &&& Self::reconnects(before, attempt, after, outcome.action)
                &&& outcome.poll is Pending
            },
            Polled::Nothing => {
                &&& after == before
                &&& is_exhausted_poll(outcome.poll)
                &&& outcome.action == Action::<C>::Quiet
            },
        }
    }

    /// Reads.
    pub fn poll_read<E>(&mut self, polled: Polled<T, usize, T::Source, E>) -> (outcome: Outcome<
        usize,
        T::Source,
        C,
    >)
        requires
            old(self).wf(),
            old(self).fits(polled),
        ensures
            final(self).wf(),
            Self::reads(*old(self), polled, *final(self), outcome),
    {
        match polled {
            Polled::Stream(poll) => {
                let lost = self.is_read_disconnect_detected(&poll);
                self.settle(poll, lost)
            },
            Polled::Attempt(attempt) => {
                let action = self.poll_disconnect(attempt);
                Outcome { poll: Poll::Pending, action }
            },
            Polled::Nothing => Outcome { poll: exhausted_err(), action: Action::Quiet },
        }
    }

    /// Reads into a growing buffer.
    pub fn poll_read_buf<E>(&mut self, polled: Polled<T, usize, T::Source, E>) -> (outcome: Outcome<
        usize,
        T::Source,
        C,
    >)
        requires
            old(self).wf(),
            old(self).fits(polled),
        ensures
            final(self).wf(),
            Self::reads(*old(self), polled, *final(self), outcome),
    {
        self.poll_read(polled)
    }

    /// Writes.
    pub fn poll_write<E>(&mut self, polled: Polled<T, usize, T::Source, E>) -> (outcome: Outcome<
        usize,
        T::Source,
        C,
    >)
        requires
            old(self).wf(),
            old(self).fits(polled),
        ensures
            final(self).wf(),
            Self::writes(*old(self), polled, *final(self), outcome),
    {
        self.poll_out(polled)
    }

    /// Writes from a buffer that is used up on the way.
    pub fn poll_write_buf<E>(&mut self, polled: Polled<T, usize, T::Source, E>) -> (outcome:
        Outcome<usize, T::Source, C>)
        requires
            old(self).wf(),
            old(self).fits(polled),
        ensures
            final(self).wf(),
            Self::writes(*old(self), polled, *final(self), outcome),
    {
        self.poll_out(polled)
    }

    /// Flushes.
    pub fn poll_flush<E>(&mut self, polled: Polled<T, (), T::Source, E>) -> (outcome: Outcome<
        (),
        T::Source,
        C,
    >)
        requires
            old(self).wf(),
            old(self).fits(polled),
        ensures
            final(self).wf(),
            Self::writes(*old(self), polled, *final(self), outcome),
    {
        self.poll_out(polled)
    }

    /// Writes or flushes, as the case may be.
    fn poll_out<X, E>(&mut self, polled: Polled<T, X, T::Source, E>) -> (outcome: Outcome<
        X,
        T::Source,
        C,
    >)
        requires
            old(self).wf(),
            old(self).fits(polled),
        ensures
            final(self).wf(),
            Self::writes(*old(self), polled, *final(self), outcome),
    {
        match polled {
            Polled::Stream(poll) => {
                let lost = self.is_write_disconnect_detected(&poll);
                self.settle(poll, lost)
            },
            Polled::Attempt(attempt) => {
                let action = self.poll_disconnect(attempt);
                Outcome { poll: Poll::Pending, action }
            },
            Polled::Nothing => Outcome { poll: exhausted_err(), action: Action::Quiet },
        }
    }

    /// Whether a shutdown may turn `before` into `after` and come out as `outcome`. `stream_poll`
    /// is what the I/O item answered; it is asked exactly when it is in use. A shutdown that has
    /// finished, with an error or without, disconnects.
    pub open spec fn shuts_down(
        before: Self,
        stream_poll: Option<Poll<Result<(), IoError<T::Source>>>>,
        after: Self,
        outcome: Outcome<(), T::Source, C>,
    ) -> bool {
        match before.status() {
            Status::Connected => {
                &&& outcome.poll == stream_poll->0
                &&& if stream_poll->0 is Ready {
                    Self::disconnects(before, after, outcome.action)
                } else {
                    after == before && outcome.action == Action::<C>::Quiet
                }
            },
            Status::Disconnected(_) => {
                &&& after == before
                &&& outcome.poll is Pending
                &&& outcome.action == Action::<C>::Quiet
            },
            Status::FailedAndExhausted => {
                &&& after == before
                &&& is_exhausted_poll(outcome.poll)
                &&& outcome.action == Action::<C>::Quiet
            },
        }
    }

    /// Shuts the connection down. `stream_poll` is what the I/O item answered to that, if it was
    /// in use and so was asked.
    pub fn poll_shutdown(
        &mut self,
        stream_poll: Option<Poll<Result<(), IoError<T::Source>>>>,
    ) -> (outcome: Outcome<(), T::Source, C>)
        requires
            old(self).wf(),
            stream_poll is Some <==> old(self).status() is Connected,
        ensures
            final(self).wf(),
            Self::shuts_down(*old(self), stream_poll, *final(self), outcome),
            old(self).status() is Connected ==> outcome.poll == stream_poll->0,
    {
        match stream_poll {
            Some(Poll::Ready(result)) => {
                // if completed, we are disconnected whether error or not
                let action = self.on_disconnect();
                Outcome { poll: Poll::Ready(result), action }
            },
            Some(Poll::Pending) => Outcome { poll: Poll::Pending, action: Action::Quiet },
            None => match &self.status {
                Status::FailedAndExhausted => Outcome {
                    poll: exhausted_err(),
                    action: Action::Quiet,
                },
                _ => Outcome { poll: Poll::Pending, action: Action::Quiet },
            },
        }
    }

    /// Whether a read buffer has to be prepared. `stream_answer` is what the I/O item says, if it
    /// is in use and so was asked; without a connection there is nothing to prepare for.
    pub fn prepare_uninitialized_buffer(&self, stream_answer: Option<bool>) -> (prepare: bool)
        requires
            stream_answer is Some <==> self.status() is Connected,
        ensures
            prepare == (stream_answer == Some(true)),
    {
        match (&self.status, stream_answer) {
            (Status::Connected, Some(answer)) => answer,
            _ => false,
        }
    }
}

} // verus!
