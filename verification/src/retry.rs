//! Retry schedules, and the attempts that are made from them.

use core::time::Duration;
use vstd::prelude::*;

use crate::config::ReconnectOptions;
use crate::underlying::UnderlyingIo;

verus! {

/// One step of a retry schedule: the delay that it gave, if any was left, and the schedule from
/// there on.
pub struct Draw<I> {
    pub delay: Option<Duration>,
    pub rest: I,
}

/// Takes the next delay off a retry schedule.
pub fn next_delay<I: Iterator<Item = Duration>>(retries: I) -> (draw: Draw<I>)
    ensures
        exists|slot: &mut I| #[trigger]
            call_ensures(I::next, (slot,), draw.delay) && *slot == retries && *final(slot)
                == draw.rest,
{
    let mut rest = retries;
    let delay = rest.next();
    Draw { delay, rest }
}

/// Whether `draw` is what taking the next delay off `retries` may give.
pub open spec fn drawn<I: Iterator<Item = Duration>>(retries: I, draw: Draw<I>) -> bool {
    call_ensures(next_delay::<I>, (retries,), draw)
}

/// A connection attempt that is to be made.
pub struct Attempt<C> {
    /// How long to wait before it is made; the very first attempt is made at once.
    pub delay: Option<Duration>,
    /// Its place in the schedule, from 1 on; the very first attempt, outside any schedule, has 0.
    pub number: usize,
    /// What the I/O item is to be established from.
    pub ctor_arg: C,
}

impl<C: Clone> Attempt<C> {
    /// Makes the attempt, once its delay is over.
    pub fn start<T: UnderlyingIo<C>>(self) -> (establishing: T::Establishing)
        ensures
            call_ensures(T::establish, (self.ctor_arg,), establishing),
    {
        T::establish(self.ctor_arg)
    }
}

/// The attempts made from one schedule so far, and the delays that it has left.
pub struct AttemptsTracker<I> {
    pub attempt_num: usize,
    pub retries_remaining: I,
}

/// What comes after a failure: another attempt, or the end.
pub enum Plan<C, I> {
    Retry(AttemptsTracker<I>, Attempt<C>),
    GiveUp,
}

/// Whether `plan` is what to do after `attempts` attempts, when the schedule gave `draw`: one
/// more attempt after the delay that was drawn, with a clone of `ctor_arg`; the end when no delay
/// was left.
pub open spec fn planned<C: Clone, I>(
    attempts: nat,
    draw: Draw<I>,
    ctor_arg: C,
    plan: Plan<C, I>,
) -> bool {
    match draw.delay {
        Some(delay) => {
            &&& plan matches Plan::Retry(tracker, attempt)
            &&& tracker.attempt_num == attempts + 1
            &&& tracker.retries_remaining == draw.rest
            &&& attempt.number == attempts + 1
            &&& attempt.delay == Some(delay)
            &&& cloned(ctor_arg, attempt.ctor_arg)
        },
        None => plan is GiveUp,
    }
}

/// Plans what comes after `attempt_num` attempts, when the schedule gave `draw`.
pub fn plan_attempt<C: Clone, I>(attempt_num: usize, draw: Draw<I>, ctor_arg: &C) -> (plan: Plan<
    C,
    I,
>)
    requires
        draw.delay is Some ==> attempt_num < usize::MAX,
    ensures
        planned(attempt_num as nat, draw, *ctor_arg, plan),
{
    match draw.delay {
        Some(delay) => {
            let number: usize = attempt_num + 1;
            let tracker = AttemptsTracker { attempt_num: number, retries_remaining: draw.rest };
            let attempt = Attempt { delay: Some(delay), number, ctor_arg: ctor_arg.clone() };
            Plan::Retry(tracker, attempt)
        },
        None => Plan::GiveUp,
    }
}

impl<I: Iterator<Item = Duration>> AttemptsTracker<I> {
    /// Whether `plan` is what the schedule, as far as it has been used, may lead to next.
    pub open spec fn leads_to<C: Clone>(self, ctor_arg: C, plan: Plan<C, I>) -> bool {
        exists|draw: Draw<I>| #[trigger]
            drawn(self.retries_remaining, draw) && planned(
                self.attempt_num as nat,
                draw,
                ctor_arg,
                plan,
            )
    }

    /// Draws the next delay and plans the attempt that it is for.
    pub fn next_attempt<C: Clone>(self, ctor_arg: &C) -> (plan: Plan<C, I>)
        requires
            self.attempt_num < usize::MAX,
        ensures
            self.leads_to(*ctor_arg, plan),
    {
        let draw = next_delay(self.retries_remaining);
        assert(drawn(self.retries_remaining, draw));
        plan_attempt(self.attempt_num, draw, ctor_arg)
    }
}

/// The state of a connection that is being re-established.
pub struct ReconnectStatus<I> {
    pub attempts_tracker: AttemptsTracker<I>,
}

impl<I: Iterator<Item = Duration>> ReconnectStatus<I> {
    /// Whether `status` is a reconnection that has not begun: a fresh schedule, no attempt made.
    pub open spec fn is_fresh<F: Fn() -> I>(options: ReconnectOptions<F>, status: Self) -> bool {
        &&& status.attempts_tracker.attempt_num == 0
        &&& call_ensures(
            options.retries_to_attempt_fn,
            (),
            status.attempts_tracker.retries_remaining,
        )
    }

    /// A reconnection with a fresh schedule, of which nothing is used yet.
    pub fn new<F: Fn() -> I>(options: &ReconnectOptions<F>) -> (status: Self)
        requires
            call_requires(options.retries_to_attempt_fn, ()),
        ensures
            Self::is_fresh(*options, status),
    {
        ReconnectStatus {
            attempts_tracker: AttemptsTracker {
                attempt_num: 0,
                retries_remaining: (options.retries_to_attempt_fn)(),
            },
        }
    }
}

} // verus!
