//! What holds of stubborn connections across several operations.

use core::time::Duration;
use vstd::prelude::*;
use vstd::std_specs::iter::IteratorSpec;

use crate::config::ReconnectOptions;
use crate::error::{Detail, ErrorKind, IoError};
use crate::poll::Poll;
use crate::retry::{drawn, planned, AttemptsTracker, Draw, Plan, ReconnectStatus};
use crate::stubborn::{Action, Outcome, Polled, Status, StubbornIo};
use crate::underlying::UnderlyingIo;

verus! {

/// The schedule that step `k` draws from, when the steps before it are `draws[0..k]`, the first of
/// them off `fresh`.
pub open spec fn left_before<I>(fresh: I, draws: Seq<Draw<I>>, k: int) -> I {
    if k == 0 {
        fresh
    } else {
        draws[k - 1].rest
    }
}

/// Whether `draws` are taken one after the other, the first of them off `fresh`.
pub open spec fn draws_from<I: Iterator<Item = Duration>>(fresh: I, draws: Seq<Draw<I>>) -> bool {
    forall|k: int|
        0 <= k < draws.len() ==> drawn(#[trigger] left_before(fresh, draws, k), draws[k])
}

/// A finite schedule gives its delays in order, each of them once, and then no more.
pub proof fn law_schedule_in_order<I: Iterator<Item = Duration>>(fresh: I, draws: Seq<Draw<I>>)
    requires
        fresh.obeys_prophetic_iter_laws(),
        draws_from(fresh, draws),
    ensures
        forall|k: int|
            0 <= k < draws.len() ==> (#[trigger] draws[k]).delay == (if k
                < fresh.remaining().len() {
                Some(fresh.remaining()[k])
            } else {
                None
            }),
{
    assert forall|k: int| 0 <= k < draws.len() implies (#[trigger] draws[k]).delay == (if k
        < fresh.remaining().len() {
        Some(fresh.remaining()[k])
    } else {
        None
    }) by {
        lemma_schedule_in_order(fresh, draws, k);
    }
}

/// What is drawn at step `k` of a finite schedule, and what it leaves.
proof fn lemma_schedule_in_order<I: Iterator<Item = Duration>>(
    fresh: I,
    draws: Seq<Draw<I>>,
    k: int,
)
    requires
        0 <= k < draws.len(),
        fresh.obeys_prophetic_iter_laws(),
        draws_from(fresh, draws),
    ensures
        draws[k].rest.obeys_prophetic_iter_laws(),
        k < fresh.remaining().len() ==> {
            &&& draws[k].delay == Some(fresh.remaining()[k])
            &&& draws[k].rest.remaining() == fresh.remaining().skip(k + 1)
        },
        k >= fresh.remaining().len() ==> {
            &&& draws[k].delay is None
            &&& draws[k].rest.remaining().len() == 0
        },
    decreases k,
{
    if k > 0 {
        lemma_schedule_in_order(fresh, draws, k - 1);
    }
    assert(drawn(left_before(fresh, draws, k), draws[k]));
    assert(k < fresh.remaining().len() ==> fresh.remaining().skip(k).drop_first()
        =~= fresh.remaining().skip(k + 1));
    assert(fresh.remaining().skip(0) =~= fresh.remaining());
}

/// Whether `run` is a connection that was in use, then lost, and then failed to be re-established
/// over and over, with `actions[k]` the reaction to failure `k`.
pub open spec fn fails_over_and_over<T, C, F, I>(
    run: Seq<StubbornIo<T, C, F, I>>,
    actions: Seq<Action<C>>,
) -> bool where T: UnderlyingIo<C>, C: Clone, F: Fn() -> I, I: Iterator<Item = Duration> {
    &&& run.len() == actions.len() + 1
    &&& run[0].status() is Connected
    &&& forall|k: int|
        0 <= k < actions.len() ==> StubbornIo::disconnects(
            run[k],
            run[k + 1],
            #[trigger] actions[k],
        )
}

/// Whether failure `k` leaves `after` and asks for `action`, when `delay` was drawn for it: with a
/// delay, attempt `k + 1` comes after it, with a clone of `ctor_arg`; without, nothing comes.
pub open spec fn failure_answered<T, C: Clone, F, I>(
    ctor_arg: C,
    k: int,
    delay: Option<Duration>,
    after: StubbornIo<T, C, F, I>,
    action: Action<C>,
) -> bool {
    match delay {
        Some(_) => {
            &&& after.status() matches Status::Disconnected(reconnect)
            &&& reconnect.attempts_tracker.attempt_num == k + 1
            &&& action matches Action::Retry(attempt)
            &&& attempt.number == k + 1
            &&& attempt.delay == delay
            &&& cloned(ctor_arg, attempt.ctor_arg)
        },
        None => after.status() is FailedAndExhausted && action is Quiet,
    }
}

/// The plan behind the reaction to a failure, and the draw behind the plan.
pub(crate) proof fn lemma_failure<T, C, F, I>(
    before: StubbornIo<T, C, F, I>,
    after: StubbornIo<T, C, F, I>,
    action: Action<C>,
) -> (r: (ReconnectStatus<I>, Draw<I>, Plan<C, I>)) where
    T: UnderlyingIo<C>,
    C: Clone,
    F: Fn() -> I,
    I: Iterator<Item = Duration>,

    requires
        StubbornIo::disconnects(before, after, action),
    ensures
        before.reconnection(r.0),
        drawn(r.0.attempts_tracker.retries_remaining, r.1),
        planned(r.0.attempts_tracker.attempt_num as nat, r.1, before.ctor_arg(), r.2),
        StubbornIo::<T, C, F, I>::follows(r.2, after.status(), action),
{
    let (reconnect, plan) = choose|reconnect: ReconnectStatus<I>, plan: Plan<C, I>|
        #![trigger
            before.reconnection(reconnect),
            reconnect.attempts_tracker.leads_to(before.ctor_arg(), plan),
        ]
        {
            &&& before.reconnection(reconnect)
            &&& reconnect.attempts_tracker.leads_to(before.ctor_arg(), plan)
            &&& StubbornIo::<T, C, F, I>::follows(plan, after.status(), action)
        };
    let tracker = reconnect.attempts_tracker;
    let draw = choose|draw: Draw<I>| #[trigger]
        drawn(tracker.retries_remaining, draw) && planned(
            tracker.attempt_num as nat,
            draw,
            before.ctor_arg(),
            plan,
        );
    (reconnect, draw, plan)
}

/// When a connection is lost, a fresh schedule is made, and every failure from there on draws one
/// delay off it: the loss draws the delay before attempt 1, the failure of attempt 1 the delay
/// before attempt 2, and so on. The connection is given up at the failure for which no delay is
/// left, and not before. All the while the I/O item and the setup stay as they were.
///
/// This holds of every schedule, endless ones included. The result is the fresh schedule and what
/// was drawn from it.
pub proof fn law_failures_follow_schedule<T, C, F, I>(
    run: Seq<StubbornIo<T, C, F, I>>,
    actions: Seq<Action<C>>,
) -> (r: (I, Seq<Draw<I>>)) where
    T: UnderlyingIo<C>,
    C: Clone,
    F: Fn() -> I,
    I: Iterator<Item = Duration>,

    requires
        actions.len() >= 1,
        fails_over_and_over(run, actions),
    ensures
        call_ensures(run[0].options().retries_to_attempt_fn, (), r.0),
        draws_from(r.0, r.1),
        r.1.len() == actions.len(),
        forall|k: int|
            0 <= k < actions.len() ==> failure_answered(
                run[0].ctor_arg(),
                k,
                r.1[k].delay,
                run[k + 1],
                #[trigger] actions[k],
            ),
        forall|k: int| 0 <= k < actions.len() - 1 ==> (#[trigger] r.1[k]).delay is Some,
        run.last().status() matches Status::Disconnected(reconnect)
            ==> reconnect.attempts_tracker.retries_remaining == r.1.last().rest,
        run.last().stream() == run[0].stream(),
        run.last().options() == run[0].options(),
        run.last().ctor_arg() == run[0].ctor_arg(),
    decreases actions.len(),
{
    let last = actions.len() - 1;
    let before = run[last];
    let after = run[last + 1];
    assert(StubbornIo::disconnects(before, after, actions[last]));
    let (reconnect, draw, plan) = lemma_failure(before, after, actions[last]);
    let tracker = reconnect.attempts_tracker;
    if last == 0 {
        (tracker.retries_remaining, seq![draw])
    } else {
        let earlier = actions.drop_last();
        assert forall|k: int| 0 <= k < earlier.len() implies StubbornIo::disconnects(
            run.drop_last()[k],
            run.drop_last()[k + 1],
            #[trigger] earlier[k],
        ) by {
            assert(StubbornIo::disconnects(run[k], run[k + 1], actions[k]));
        }
        let (fresh, draws) = law_failures_follow_schedule(run.drop_last(), earlier);
        let all = draws.push(draw);
        assert(failure_answered(
            run[0].ctor_arg(),
            last - 1,
            draws[last - 1].delay,
            run.drop_last()[last],
            earlier[last - 1],
        ));
        assert forall|k: int| 0 <= k < all.len() implies drawn(
            #[trigger] left_before(fresh, all, k),
            all[k],
        ) by {
            if k < last {
                assert(drawn(left_before(fresh, draws, k), draws[k]));
            }
        }
        assert forall|k: int| 0 <= k < actions.len() implies failure_answered(
            run[0].ctor_arg(),
            k,
            all[k].delay,
            run[k + 1],
            #[trigger] actions[k],
        ) by {
            if k < last {
                assert(failure_answered(
                    run[0].ctor_arg(),
                    k,
                    draws[k].delay,
                    run.drop_last()[k + 1],
                    earlier[k],
                ));
            }
        }
        assert forall|k: int| 0 <= k < last implies (#[trigger] all[k]).delay is Some by {
            if k < last - 1 {
                assert(draws[k].delay is Some);
            }
        }
        (fresh, all)
    }
}

/// A connection whose schedules all hold the delays `schedule` makes, when it is lost, as many
/// attempts as there are delays: attempt `k + 1` after `schedule[k]`. It is given up when they
/// have all failed, and not before.
pub proof fn law_finite_schedule<T, C, F, I>(
    run: Seq<StubbornIo<T, C, F, I>>,
    actions: Seq<Action<C>>,
    schedule: Seq<Duration>,
) where T: UnderlyingIo<C>, C: Clone, F: Fn() -> I, I: Iterator<Item = Duration>
    requires
        actions.len() >= 1,
        fails_over_and_over(run, actions),
        forall|retries: I| #[trigger]
            call_ensures(run[0].options().retries_to_attempt_fn, (), retries) ==> {
                &&& retries.obeys_prophetic_iter_laws()
                &&& retries.remaining() == schedule
            },
    ensures
        actions.len() <= schedule.len() + 1,
        forall|k: int|
            0 <= k < actions.len() ==> failure_answered(
                run[0].ctor_arg(),
                k,
                if k < schedule.len() {
                    Some(schedule[k])
                } else {
                    None
                },
                run[k + 1],
                #[trigger] actions[k],
            ),
{
    let (fresh, draws) = law_failures_follow_schedule(run, actions);
    law_schedule_in_order(fresh, draws);
    if actions.len() > schedule.len() + 1 {
        assert(draws[schedule.len() as int].delay is Some);
    }
    assert forall|k: int| 0 <= k < actions.len() implies failure_answered(
        run[0].ctor_arg(),
        k,
        if k < schedule.len() {
            Some(schedule[k])
        } else {
            None
        },
        run[k + 1],
        #[trigger] actions[k],
    ) by {
        assert(failure_answered(run[0].ctor_arg(), k, draws[k].delay, run[k + 1], actions[k]));
    }
}

/// A connection comes back: as long as an attempt is under way, whatever number of attempts have
/// failed before it, its success puts the connection back into use, over the new I/O item and
/// with the setup it had.
pub proof fn law_recovery<T, C, F, I, E>(
    run: Seq<StubbornIo<T, C, F, I>>,
    actions: Seq<Action<C>>,
    stream: T,
    after: StubbornIo<T, C, F, I>,
    action: Action<C>,
) where T: UnderlyingIo<C>, C: Clone, F: Fn() -> I, I: Iterator<Item = Duration>
    requires
        actions.len() >= 1,
        fails_over_and_over(run, actions),
        !(run.last().status() is FailedAndExhausted),
        StubbornIo::reconnects(run.last(), Poll::<Result<T, E>>::Ready(Ok(stream)), after, action),
    ensures
        run.last().status() matches Status::Disconnected(reconnect)
            && reconnect.attempts_tracker.attempt_num == actions.len(),
        after.status() is Connected,
        after.stream() == stream,
        after.options() == run[0].options(),
        after.ctor_arg() == run[0].ctor_arg(),
        action is Wake,
{
    let (fresh, draws) = law_failures_follow_schedule(run, actions);
    let last = actions.len() - 1;
    assert(failure_answered(
        run[0].ctor_arg(),
        last,
        draws[last].delay,
        run[last + 1],
        actions[last],
    ));
}

/// A connection that came back starts over when it is lost again: with attempt 1 and a fresh
/// schedule, whatever was used of the schedule before.
pub proof fn law_recovery_starts_over<T, C, F, I, E>(
    before: StubbornIo<T, C, F, I>,
    stream: T,
    back: StubbornIo<T, C, F, I>,
    woken: Action<C>,
    after: StubbornIo<T, C, F, I>,
    action: Action<C>,
) -> (r: (I, Draw<I>)) where
    T: UnderlyingIo<C>,
    C: Clone,
    F: Fn() -> I,
    I: Iterator<Item = Duration>,

    requires
        StubbornIo::reconnects(before, Poll::<Result<T, E>>::Ready(Ok(stream)), back, woken),
        StubbornIo::disconnects(back, after, action),
    ensures
        call_ensures(before.options().retries_to_attempt_fn, (), r.0),
        drawn(r.0, r.1),
        failure_answered(before.ctor_arg(), 0, r.1.delay, after, action),
{
    let run = seq![back, after];
    let actions = seq![action];
    let (fresh, draws) = law_failures_follow_schedule(run, actions);
    assert(failure_answered(back.ctor_arg(), 0, draws[0].delay, run[1], actions[0]));
    assert(drawn(left_before(fresh, draws, 0), draws[0]));
    (fresh, draws[0])
}

/// Reads hide the loss of the connection: as long as it is not given up, an answer comes out of a
/// read only where the connection is in use and the I/O item judged that it is not lost.
pub proof fn law_reads_hide_losses<T, C, F, I, E>(
    before: StubbornIo<T, C, F, I>,
    polled: Polled<T, usize, T::Source, E>,
    after: StubbornIo<T, C, F, I>,
    outcome: Outcome<usize, T::Source, C>,
) where T: UnderlyingIo<C>, C: Clone, F: Fn() -> I, I: Iterator<Item = Duration>
    requires
        before.fits(polled),
        !(before.status() is FailedAndExhausted),
        StubbornIo::reads(before, polled, after, outcome),
        outcome.poll is Ready,
    ensures
        before.status() is Connected,
        after == before,
        match outcome.poll {
            Poll::Ready(Ok(size)) => call_ensures(
                T::is_final_read,
                (&before.stream(), size),
                false,
            ),
            Poll::Ready(Err(err)) => call_ensures(
                T::is_disconnect_error,
                (&before.stream(), &err),
                false,
            ),
            Poll::Pending => false,
        },
        polled == Polled::<T, usize, T::Source, E>::Stream(outcome.poll),
{
}

/// Writes and flushes hide the loss of the connection in the same way.
pub proof fn law_writes_hide_losses<T, C, F, I, X, E>(
    before: StubbornIo<T, C, F, I>,
    polled: Polled<T, X, T::Source, E>,
    after: StubbornIo<T, C, F, I>,
    outcome: Outcome<X, T::Source, C>,
) where T: UnderlyingIo<C>, C: Clone, F: Fn() -> I, I: Iterator<Item = Duration>
    requires
        before.fits(polled),
        !(before.status() is FailedAndExhausted),
        StubbornIo::writes(before, polled, after, outcome),
        outcome.poll is Ready,
    ensures
        before.status() is Connected,
        after == before,
        outcome.poll matches Poll::Ready(Err(err)) ==> call_ensures(
            T::is_disconnect_error,
            (&before.stream(), &err),
            false,
        ),
        polled == Polled::<T, X, T::Source, E>::Stream(outcome.poll),
{
}

/// One operation on a connection, together with what was polled for it.
pub enum Operation<T, S, E> {
    Read(Polled<T, usize, S, E>),
    Write(Polled<T, usize, S, E>),
    Flush(Polled<T, (), S, E>),
    Shutdown(Option<Poll<Result<(), IoError<S>>>>),
}

/// What an operation gave.
pub enum Answer<S, C> {
    Size(Outcome<usize, S, C>),
    Done(Outcome<(), S, C>),
}

/// Whether `operation` may turn `before` into `after` and give `answer`.
pub open spec fn operates<T, C, F, I, E>(
    before: StubbornIo<T, C, F, I>,
    operation: Operation<T, T::Source, E>,
    after: StubbornIo<T, C, F, I>,
    answer: Answer<T::Source, C>,
) -> bool where T: UnderlyingIo<C>, C: Clone, F: Fn() -> I, I: Iterator<Item = Duration> {
    match (operation, answer) {
        (Operation::Read(polled), Answer::Size(outcome)) => {
            before.fits(polled) && StubbornIo::reads(before, polled, after, outcome)
        },
        (Operation::Write(polled), Answer::Size(outcome)) => {
            before.fits(polled) && StubbornIo::writes(before, polled, after, outcome)
        },
        (Operation::Flush(polled), Answer::Done(outcome)) => {
            before.fits(polled) && StubbornIo::writes(before, polled, after, outcome)
        },
        (Operation::Shutdown(poll), Answer::Done(outcome)) => {
            &&& poll is Some <==> before.status() is Connected
            &&& StubbornIo::shuts_down(before, poll, after, outcome)
        },
        _ => false,
    }
}

/// Whether `run` is a connection under `operations`, which gave `answers`.
pub open spec fn runs<T, C, F, I, E>(
    run: Seq<StubbornIo<T, C, F, I>>,
    operations: Seq<Operation<T, T::Source, E>>,
    answers: Seq<Answer<T::Source, C>>,
) -> bool where T: UnderlyingIo<C>, C: Clone, F: Fn() -> I, I: Iterator<Item = Duration> {
    &&& run.len() == operations.len() + 1
    &&& answers.len() == operations.len()
    &&& forall|k: int|
        0 <= k < operations.len() ==> operates(
            run[k],
            #[trigger] operations[k],
            run[k + 1],
            answers[k],
        )
}

/// Whatever is done to a connection, its options and its argument stay as they were, and it stays
/// well formed: whenever it is being re-established, an attempt has been asked for.
pub proof fn law_setup_is_kept<T, C, F, I, E>(
    run: Seq<StubbornIo<T, C, F, I>>,
    operations: Seq<Operation<T, T::Source, E>>,
    answers: Seq<Answer<T::Source, C>>,
    k: int,
) where T: UnderlyingIo<C>, C: Clone, F: Fn() -> I, I: Iterator<Item = Duration>
    requires
        run[0].wf(),
        runs(run, operations, answers),
        0 <= k < run.len(),
    ensures
        run[k].options() == run[0].options(),
        run[k].ctor_arg() == run[0].ctor_arg(),
        run[k].wf(),
        run[k].status() matches Status::Disconnected(reconnect)
            ==> reconnect.attempts_tracker.attempt_num >= 1,
    decreases k,
{
    if k > 0 {
        law_setup_is_kept(run, operations, answers, k - 1);
        assert(operates(run[k - 1], operations[k - 1], run[k - 1 + 1], answers[k - 1]));
    }
}

/// A connection that was given up stays so, whatever is done to it, and every operation on it is
/// answered with the same error, at once and with nothing to do.
pub proof fn law_giving_up_is_final<T, C, F, I, E>(
    run: Seq<StubbornIo<T, C, F, I>>,
    operations: Seq<Operation<T, T::Source, E>>,
    answers: Seq<Answer<T::Source, C>>,
    k: int,
) where T: UnderlyingIo<C>, C: Clone, F: Fn() -> I, I: Iterator<Item = Duration>
    requires
        run[0].status() is FailedAndExhausted,
        runs(run, operations, answers),
        0 <= k < operations.len(),
    ensures
        run[k + 1] == run[0],
        action_of(answers[k]) is Quiet,
        error_of(answers[k]) matches Some(err) && {
            &&& err.kind == ErrorKind::NotConnected
            &&& err.detail matches Detail::Message(text)
            &&& text@ == "Disconnected. Connection attempts have been exhausted."@
        },
    decreases k,
{
    if k > 0 {
        law_giving_up_is_final(run, operations, answers, k - 1);
    }
    assert(operates(run[k], operations[k], run[k + 1], answers[k]));
}

/// While a connection is being re-established nothing but waiting comes out of it: every
/// operation on it is pending.
pub proof fn law_pending_while_disconnected<T, C, F, I, E>(
    before: StubbornIo<T, C, F, I>,
    operation: Operation<T, T::Source, E>,
    after: StubbornIo<T, C, F, I>,
    answer: Answer<T::Source, C>,
) where T: UnderlyingIo<C>, C: Clone, F: Fn() -> I, I: Iterator<Item = Duration>
    requires
        before.status() is Disconnected,
        operates(before, operation, after, answer),
    ensures
        is_pending(answer),
{
}

/// What an operation asks the driver to do.
pub open spec fn action_of<S, C>(answer: Answer<S, C>) -> Action<C> {
    match answer {
        Answer::Size(outcome) => outcome.action,
        Answer::Done(outcome) => outcome.action,
    }
}

/// The error that an operation gives, if it has finished with one.
pub open spec fn error_of<S, C>(answer: Answer<S, C>) -> Option<IoError<S>> {
    match answer {
        Answer::Size(Outcome { poll: Poll::Ready(Err(err)), .. }) => Some(err),
        Answer::Done(Outcome { poll: Poll::Ready(Err(err)), .. }) => Some(err),
        _ => None,
    }
}

/// Whether an operation has not finished.
pub open spec fn is_pending<S, C>(answer: Answer<S, C>) -> bool {
    match answer {
        Answer::Size(outcome) => outcome.poll is Pending,
        Answer::Done(outcome) => outcome.poll is Pending,
    }
}

/// The connection attempt's answer that an operation goes by, if it goes by one.
pub open spec fn attempt_of<T, S, E>(operation: Operation<T, S, E>) -> Option<
    Poll<Result<T, E>>,
> {
    match operation {
        Operation::Read(Polled::Attempt(attempt)) => Some(attempt),
        Operation::Write(Polled::Attempt(attempt)) => Some(attempt),
        Operation::Flush(Polled::Attempt(attempt)) => Some(attempt),
        _ => None,
    }
}

/// An operation leaves the I/O item alone, unless a connection attempt has just made a new one,
/// which then takes its place; this is also the only way back into use. An attempt that goes on
/// changes nothing at all.
pub proof fn law_item_is_replaced_by_success_only<T, C, F, I, E>(
    before: StubbornIo<T, C, F, I>,
    operation: Operation<T, T::Source, E>,
    after: StubbornIo<T, C, F, I>,
    answer: Answer<T::Source, C>,
) where T: UnderlyingIo<C>, C: Clone, F: Fn() -> I, I: Iterator<Item = Duration>
    requires
        operates(before, operation, after, answer),
    ensures
        match attempt_of(operation) {
            Some(Poll::Ready(Ok(stream))) => {
                &&& after.stream() == stream
                &&& after.status() is Connected
                &&& after.options() == before.options()
                &&& after.ctor_arg() == before.ctor_arg()
                &&& action_of(answer) is Wake
                &&& is_pending(answer)
            },
            Some(Poll::Pending) => {
                &&& after == before
                &&& action_of(answer) is Quiet
                &&& is_pending(answer)
            },
            _ => {
                &&& after.stream() == before.stream()
                &&& after.status() is Connected ==> after == before
                &&& !(action_of(answer) is Wake)
            },
        },
{
}

/// No connection is left waiting for an attempt that nobody makes: an operation that changes how
/// a connection is being re-established asks for the attempt that it now waits for, and an
/// attempt is asked for in no other case.
pub proof fn law_every_attempt_is_asked_for<T, C, F, I, E>(
    before: StubbornIo<T, C, F, I>,
    operation: Operation<T, T::Source, E>,
    after: StubbornIo<T, C, F, I>,
    answer: Answer<T::Source, C>,
) where T: UnderlyingIo<C>, C: Clone, F: Fn() -> I, I: Iterator<Item = Duration>
    requires
        operates(before, operation, after, answer),
    ensures
        action_of(answer) is Retry <==> after.status() is Disconnected && after != before,
        action_of(answer) matches Action::Retry(attempt) ==> {
            &&& after.status() matches Status::Disconnected(reconnect)
            &&& attempt.number == reconnect.attempts_tracker.attempt_num
            &&& attempt.delay is Some
            &&& cloned(before.ctor_arg(), attempt.ctor_arg)
        },
{
}

/// Whether `tracker` accounts for a schedule that `options` made: one attempt for every delay drawn
/// off it so far, of which there is at least one, and the rest of it still to come.
pub open spec fn on_schedule<F, I>(
    options: ReconnectOptions<F>,
    tracker: AttemptsTracker<I>,
) -> bool where F: Fn() -> I, I: Iterator<Item = Duration> {
    exists|fresh: I, draws: Seq<Draw<I>>| #[trigger]
        draws_from(fresh, draws) && {
            &&& call_ensures(options.retries_to_attempt_fn, (), fresh)
            &&& draws.len() == tracker.attempt_num
            &&& draws.len() >= 1
            &&& forall|k: int| 0 <= k < draws.len() ==> (#[trigger] draws[k]).delay is Some
            &&& tracker.retries_remaining == draws.last().rest
        }
}

/// Whether a schedule that `options` made has been used up: after all its delays were drawn, it
/// had none left.
pub open spec fn used_up<F, I>(options: ReconnectOptions<F>) -> bool where
    F: Fn() -> I,
    I: Iterator<Item = Duration>,
 {
    exists|fresh: I, draws: Seq<Draw<I>>| #[trigger]
        draws_from(fresh, draws) && {
            &&& call_ensures(options.retries_to_attempt_fn, (), fresh)
            &&& draws.len() >= 1
            &&& forall|k: int| 0 <= k < draws.len() - 1 ==> (#[trigger] draws[k]).delay is Some
            &&& draws.last().delay is None
        }
}

/// Whether a connection stands where its schedule has brought it: on the schedule while it is
/// being re-established, at the end of one when it is given up.
pub open spec fn accounted<T, C, F, I>(io: StubbornIo<T, C, F, I>) -> bool where
    F: Fn() -> I,
    I: Iterator<Item = Duration>,
 {
    match io.status() {
        Status::Connected => true,
        Status::Disconnected(reconnect) => on_schedule(io.options(), reconnect.attempts_tracker),
        Status::FailedAndExhausted => used_up::<F, I>(io.options()),
    }
}

/// A failure leaves a connection accounted for.
proof fn lemma_failure_is_accounted<T, C, F, I>(
    before: StubbornIo<T, C, F, I>,
    after: StubbornIo<T, C, F, I>,
    action: Action<C>,
) where T: UnderlyingIo<C>, C: Clone, F: Fn() -> I, I: Iterator<Item = Duration>
    requires
        accounted(before),
        StubbornIo::disconnects(before, after, action),
    ensures
        accounted(after),
{
    let (reconnect, draw, plan) = lemma_failure(before, after, action);
    let tracker = reconnect.attempts_tracker;
    let f = before.options().retries_to_attempt_fn;
    let (fresh, draws): (I, Seq<Draw<I>>) = if before.status() is Connected {
        (tracker.retries_remaining, Seq::empty())
    } else {
        choose|fresh: I, draws: Seq<Draw<I>>| #[trigger]
            draws_from(fresh, draws) && {
                &&& call_ensures(f, (), fresh)
                &&& draws.len() == tracker.attempt_num
                &&& draws.len() >= 1
                &&& forall|k: int| 0 <= k < draws.len() ==> (#[trigger] draws[k]).delay is Some
                &&& tracker.retries_remaining == draws.last().rest
            }
    };
    let all = draws.push(draw);
    assert forall|k: int| 0 <= k < all.len() implies drawn(
        #[trigger] left_before(fresh, all, k),
        all[k],
    ) by {
        if k < draws.len() {
            assert(drawn(left_before(fresh, draws, k), draws[k]));
        }
    }
    assert(draws_from(fresh, all));
    assert forall|k: int| 0 <= k < all.len() - 1 implies (#[trigger] all[k]).delay is Some by {
        assert(draws[k].delay is Some);
    }
}

/// However operations are mixed, a connection that was in use is accounted for ever after: while
/// it is being re-established, it has made exactly one attempt for every delay that it drew off
/// the schedule made at its loss; and it is given up only when such a schedule has been used up.
pub proof fn law_schedule_is_accounted_for<T, C, F, I, E>(
    run: Seq<StubbornIo<T, C, F, I>>,
    operations: Seq<Operation<T, T::Source, E>>,
    answers: Seq<Answer<T::Source, C>>,
    k: int,
) where T: UnderlyingIo<C>, C: Clone, F: Fn() -> I, I: Iterator<Item = Duration>
    requires
        run[0].status() is Connected,
        runs(run, operations, answers),
        0 <= k < run.len(),
    ensures
        accounted(run[k]),
    decreases k,
{
    if k > 0 {
        law_schedule_is_accounted_for(run, operations, answers, k - 1);
        let before = run[k - 1];
        assert(operates(before, operations[k - 1], run[k - 1 + 1], answers[k - 1]));
        let action = action_of(answers[k - 1]);
        if StubbornIo::disconnects(before, run[k], action) {
            lemma_failure_is_accounted(before, run[k], action);
        }
    }
}

/// A connection whose schedules all hold the delays `schedule` never makes more attempts on end
/// than there are delays.
pub proof fn law_attempts_are_bounded<T, C, F, I>(
    io: StubbornIo<T, C, F, I>,
    schedule: Seq<Duration>,
) where T: UnderlyingIo<C>, C: Clone, F: Fn() -> I, I: Iterator<Item = Duration>
    requires
        accounted(io),
        forall|retries: I| #[trigger]
            call_ensures(io.options().retries_to_attempt_fn, (), retries) ==> {
                &&& retries.obeys_prophetic_iter_laws()
                &&& retries.remaining() == schedule
            },
    ensures
        io.status() matches Status::Disconnected(reconnect)
            ==> reconnect.attempts_tracker.attempt_num <= schedule.len(),
{
    if let Status::Disconnected(reconnect) = io.status() {
        let tracker = reconnect.attempts_tracker;
        let f = io.options().retries_to_attempt_fn;
        let (fresh, draws) = choose|fresh: I, draws: Seq<Draw<I>>| #[trigger]
            draws_from(fresh, draws) && {
                &&& call_ensures(f, (), fresh)
                &&& draws.len() == tracker.attempt_num
                &&& draws.len() >= 1
                &&& forall|k: int| 0 <= k < draws.len() ==> (#[trigger] draws[k]).delay is Some
                &&& tracker.retries_remaining == draws.last().rest
            };
        law_schedule_in_order(fresh, draws);
        assert(draws[draws.len() - 1].delay is Some);
    }
}

} // verus!
