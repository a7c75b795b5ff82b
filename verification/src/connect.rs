//! Establishing a connection for the first time.
//!
//! [`StubbornIo::connect_with_options`] gives the first attempt. The driver makes it and hands
//! the result to [`Connecting::attempted`], which says what is next: the connection, another
//! attempt, or the error to fail with.

use core::time::Duration;
use vstd::prelude::*;

use crate::config::ReconnectOptions;
use crate::retry::{Attempt, AttemptsTracker, Plan, ReconnectStatus};
use crate::stubborn::{Status, StubbornIo};
use crate::underlying::UnderlyingIo;

verus! {

/// A connection that is being established for the first time; an attempt is under way.
pub struct Connecting<C, F, I> {
    ctor_arg: C,
    options: ReconnectOptions<F>,
    retries: Option<AttemptsTracker<I>>,
}

/// What comes after an attempt to establish a connection.
pub enum ConnectStep<T, C, F, I, E> {
    /// The connection is established.
    Connected(StubbornIo<T, C, F, I>),
    /// This attempt is to be made.
    Retry(Connecting<C, F, I>, Attempt<C>),
    /// The connection cannot be established; this is the error of the last attempt.
    Failed(E),
}

impl<C, F, I> Connecting<C, F, I> {
    pub closed spec fn ctor_arg(self) -> C {
        self.ctor_arg
    }

    pub closed spec fn options(self) -> ReconnectOptions<F> {
        self.options
    }

    /// The retry schedule in use; none as long as the very first attempt is under way.
    pub closed spec fn retries(self) -> Option<AttemptsTracker<I>> {
        self.retries
    }
}

impl<C, F, I> Connecting<C, F, I> where C: Clone, F: Fn() -> I, I: Iterator<Item = Duration> {
    /// Retry schedules can be had, and an attempt off a schedule has a number.
    pub open spec fn wf(self) -> bool {
        &&& call_requires(self.options().retries_to_attempt_fn, ())
        &&& self.retries() matches Some(tracker) ==> tracker.attempt_num >= 1
    }

    /// The number of the attempt under way: 0 for the very first one, which belongs to no
    /// schedule, then 1, 2, ... for the retries.
    pub fn attempt_num(&self) -> (number: usize)
        ensures
            self.retries() is None ==> number == 0,
            self.retries() matches Some(tracker) ==> number == tracker.attempt_num,
    {
        match &self.retries {
            Some(tracker) => tracker.attempt_num,
            None => 0,
        }
    }

    /// Whether the failure of the attempt under way is final without any retry.
    pub open spec fn bails(self) -> bool {
        self.retries() is None && self.options().exit_if_first_connect_fails
    }

    /// The schedule that the next attempt comes from: a fresh one after the very first attempt,
    /// then the one in use.
    pub open spec fn schedule(self, tracker: AttemptsTracker<I>) -> bool {
        match self.retries() {
            Some(current) => tracker == current,
            None => ReconnectStatus::is_fresh(
                self.options(),
                ReconnectStatus { attempts_tracker: tracker },
            ),
        }
    }

    /// Whether a connection attempt that follows `plan` after `err` comes to `step`.
    pub open spec fn follows<T, E>(
        self,
        plan: Plan<C, I>,
        err: E,
        step: ConnectStep<T, C, F, I, E>,
    ) -> bool {
        match plan {
            Plan::Retry(tracker, attempt) => {
                &&& step matches ConnectStep::Retry(connecting, next)
                &&& connecting.retries() == Some(tracker)
                &&& connecting.options() == self.options()
                &&& connecting.ctor_arg() == self.ctor_arg()
                &&& next == attempt
            },
            Plan::GiveUp => step == ConnectStep::<T, C, F, I, E>::Failed(err),
        }
    }

    /// Whether `result`, of the attempt under way, may come to `step`.
    pub open spec fn comes_to<T, E>(
        self,
        result: Result<T, E>,
        step: ConnectStep<T, C, F, I, E>,
    ) -> bool {
        match result {
            Ok(stream) => {
                &&& step matches ConnectStep::Connected(io)
                &&& io.status() == Status::<I>::Connected
                &&& io.stream() == stream
                &&& io.options() == self.options()
                &&& io.ctor_arg() == self.ctor_arg()
            },
            Err(err) => if self.bails() {
                step == ConnectStep::<T, C, F, I, E>::Failed(err)
            } else {
                exists|tracker: AttemptsTracker<I>, plan: Plan<C, I>|
                    #![trigger self.schedule(tracker), tracker.leads_to(self.ctor_arg(), plan)]
                    {
                        &&& self.schedule(tracker)
                        &&& tracker.leads_to(self.ctor_arg(), plan)
                        &&& self.follows(plan, err, step)
                    }
            },
        }
    }

    /// Goes on, given the result of the attempt under way.
    pub fn attempted<T, E>(self, result: Result<T, E>) -> (step: ConnectStep<T, C, F, I, E>) where
        T: UnderlyingIo<C>,

        requires
            self.wf(),
            result is Err && self.retries() is Some ==> self.retries()->0.attempt_num < usize::MAX,
        ensures
            self.comes_to(result, step),
            step matches ConnectStep::Connected(io) ==> io.wf(),
            step matches ConnectStep::Retry(connecting, _) ==> connecting.wf(),
    {
        let err = match result {
            Ok(stream) => {
                return ConnectStep::Connected(
                    StubbornIo::connected(stream, self.options, self.ctor_arg),
                );
            },
            Err(err) => err,
        };
        let tracker = match self.retries {
            Some(tracker) => tracker,
            None => {
                if self.options.exit_if_first_connect_fails {
                    return ConnectStep::Failed(err);
                }
                ReconnectStatus::new(&self.options).attempts_tracker
            },
        };
        assert(self.schedule(tracker));
        let plan = tracker.next_attempt(&self.ctor_arg);
        assert(tracker.leads_to(self.ctor_arg(), plan));
        match plan {
            Plan::Retry(tracker, attempt) => {
                let connecting = Connecting {
                    ctor_arg: self.ctor_arg,
                    options: self.options,
                    retries: Some(tracker),
                };
                ConnectStep::Retry(connecting, attempt)
            },
            Plan::GiveUp => ConnectStep::Failed(err),
        }
    }
}

impl<T, C, F, I> StubbornIo<T, C, F, I> where
    T: UnderlyingIo<C>,
    C: Clone,
    F: Fn() -> I,
    I: Iterator<Item = Duration>,
 {
    /// Whether connecting with these arguments may begin with `first`, in the state `connecting`.
    pub open spec fn begins(
        ctor_arg: C,
        options: ReconnectOptions<F>,
        connecting: Connecting<C, F, I>,
        first: Attempt<C>,
    ) -> bool {
        &&& connecting.retries() is None
        &&& connecting.options() == options
        &&& cloned(ctor_arg, connecting.ctor_arg())
        &&& first.delay is None
        &&& first.number == 0
        &&& cloned(connecting.ctor_arg(), first.ctor_arg)
    }

    /// Connects with the default options, which the driver provides.
    pub fn connect(ctor_arg: &C, defaults: ReconnectOptions<F>) -> (begun: (
        Connecting<C, F, I>,
        Attempt<C>,
    ))
        requires
            call_requires(defaults.retries_to_attempt_fn, ()),
        ensures
            begun.0.wf(),
            Self::begins(*ctor_arg, defaults, begun.0, begun.1),
            begun.1.delay is None,
            begun.1.number == 0,
    {
        Self::connect_with_options(ctor_arg, defaults)
    }

    /// Connects with the given options. The first attempt is made at once.
    pub fn connect_with_options(ctor_arg: &C, options: ReconnectOptions<F>) -> (begun: (
        Connecting<C, F, I>,
        Attempt<C>,
    ))
        requires
            call_requires(options.retries_to_attempt_fn, ()),
        ensures
            begun.0.wf(),
            Self::begins(*ctor_arg, options, begun.0, begun.1),
            begun.1.delay is None,
            begun.1.number == 0,
    {
        let ctor_arg = ctor_arg.clone();
        let first = Attempt { delay: None, number: 0, ctor_arg: ctor_arg.clone() };
        (Connecting { ctor_arg, options, retries: None }, first)
    }
}

} // verus!
