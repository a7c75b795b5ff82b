//! What holds of establishing a connection, from the first attempt to the end.

use core::time::Duration;
use vstd::prelude::*;
use vstd::std_specs::iter::IteratorSpec;

use crate::config::ReconnectOptions;
use crate::connect::{ConnectStep, Connecting};
use crate::laws::{draws_from, law_schedule_in_order, left_before};
use crate::retry::{drawn, next_delay, planned, Attempt, AttemptsTracker, Draw, Plan};
use crate::stubborn::StubbornIo;
use crate::underlying::UnderlyingIo;

verus! {

/// Whether `run` is a connection attempt that has failed `retries.len()` times, the first time
/// included: failure `k`, with `errors[k]`, led to the retry `retries[k]`.
pub open spec fn retries_over_and_over<T, C, F, I, E>(
    run: Seq<Connecting<C, F, I>>,
    errors: Seq<E>,
    retries: Seq<Attempt<C>>,
) -> bool where T: UnderlyingIo<C>, C: Clone, F: Fn() -> I, I: Iterator<Item = Duration> {
    &&& run.len() == retries.len() + 1
    &&& errors.len() == retries.len()
    &&& run[0].retries() is None
    &&& forall|k: int|
        0 <= k < retries.len() ==> run[k].comes_to(
            Err::<T, E>(errors[k]),
            ConnectStep::Retry(run[k + 1], #[trigger] retries[k]),
        )
}

/// Whether `retry` is retry `k + 1`, after `delay` and with a clone of `ctor_arg`.
pub open spec fn is_retry<C: Clone>(
    ctor_arg: C,
    k: int,
    delay: Option<Duration>,
    retry: Attempt<C>,
) -> bool {
    &&& delay is Some
    &&& retry.delay == delay
    &&& retry.number == k + 1
    &&& cloned(ctor_arg, retry.ctor_arg)
}

/// The plan behind a failure that is not final by the options, and the draw behind the plan.
proof fn lemma_failure<T, C, F, I, E>(
    connecting: Connecting<C, F, I>,
    err: E,
    step: ConnectStep<T, C, F, I, E>,
) -> (r: (AttemptsTracker<I>, Draw<I>, Plan<C, I>)) where
    T: UnderlyingIo<C>,
    C: Clone,
    F: Fn() -> I,
    I: Iterator<Item = Duration>,

    requires
        !connecting.bails(),
        connecting.comes_to(Err::<T, E>(err), step),
    ensures
        connecting.schedule(r.0),
        drawn(r.0.retries_remaining, r.1),
        planned(r.0.attempt_num as nat, r.1, connecting.ctor_arg(), r.2),
        connecting.follows(r.2, err, step),
{
    let (tracker, plan) = choose|tracker: AttemptsTracker<I>, plan: Plan<C, I>|
        #![trigger connecting.schedule(tracker), tracker.leads_to(connecting.ctor_arg(), plan)]
        {
            &&& connecting.schedule(tracker)
            &&& tracker.leads_to(connecting.ctor_arg(), plan)
            &&& connecting.follows(plan, err, step)
        };
    let draw = choose|draw: Draw<I>| #[trigger]
        drawn(tracker.retries_remaining, draw) && planned(
            tracker.attempt_num as nat,
            draw,
            connecting.ctor_arg(),
            plan,
        );
    (tracker, draw, plan)
}

/// When the first attempt to connect fails and that is not final, a fresh schedule is made, and
/// every failure draws one delay off it: the first failure the delay before retry 1, the failure
/// of retry 1 the delay before retry 2, and so on. All the while the setup stays as it was.
///
/// This holds of every schedule, endless ones included. The result is the fresh schedule and what
/// was drawn from it.
pub proof fn law_retries_follow_schedule<T, C, F, I, E>(
    run: Seq<Connecting<C, F, I>>,
    errors: Seq<E>,
    retries: Seq<Attempt<C>>,
) -> (r: (I, Seq<Draw<I>>)) where
    T: UnderlyingIo<C>,
    C: Clone,
    F: Fn() -> I,
    I: Iterator<Item = Duration>,

    requires
        retries.len() >= 1,
        retries_over_and_over::<T, C, F, I, E>(run, errors, retries),
    ensures
        !run[0].options().exit_if_first_connect_fails,
        call_ensures(run[0].options().retries_to_attempt_fn, (), r.0),
        draws_from(r.0, r.1),
        r.1.len() == retries.len(),
        forall|k: int|
            0 <= k < retries.len() ==> is_retry(
                run[0].ctor_arg(),
                k,
                r.1[k].delay,
                #[trigger] retries[k],
            ),
        run.last().retries() matches Some(tracker) && tracker.attempt_num == retries.len()
            && tracker.retries_remaining == r.1.last().rest,
        run.last().options() == run[0].options(),
        run.last().ctor_arg() == run[0].ctor_arg(),
    decreases retries.len(),
{
    let last = retries.len() - 1;
    let step = ConnectStep::<T, C, F, I, E>::Retry(run[last + 1], retries[last]);
    assert(run[last].comes_to(Err::<T, E>(errors[last]), step));
    if last == 0 {
        let (tracker, draw, plan) = lemma_failure(run[last], errors[last], step);
        (tracker.retries_remaining, seq![draw])
    } else {
        let earlier = retries.drop_last();
        assert forall|k: int| 0 <= k < earlier.len() implies run.drop_last()[k].comes_to(
            Err::<T, E>(errors.drop_last()[k]),
            ConnectStep::Retry(run.drop_last()[k + 1], #[trigger] earlier[k]),
        ) by {
            assert(run[k].comes_to(
                Err::<T, E>(errors[k]),
                ConnectStep::Retry(run[k + 1], retries[k]),
            ));
        }
        let (fresh, draws) = law_retries_follow_schedule::<T, C, F, I, E>(
            run.drop_last(),
            errors.drop_last(),
            earlier,
        );
        let (tracker, draw, plan) = lemma_failure(run[last], errors[last], step);
        let all = draws.push(draw);
        assert forall|k: int| 0 <= k < all.len() implies drawn(
            #[trigger] left_before(fresh, all, k),
            all[k],
        ) by {
            if k < last {
                assert(drawn(left_before(fresh, draws, k), draws[k]));
            }
        }
        assert forall|k: int| 0 <= k < retries.len() implies is_retry(
            run[0].ctor_arg(),
            k,
            all[k].delay,
            #[trigger] retries[k],
        ) by {
            if k < last {
                assert(is_retry(run[0].ctor_arg(), k, draws[k].delay, earlier[k]));
            }
        }
        (fresh, all)
    }
}

/// A connection attempt that fails for good fails with the error of the last attempt. That is the
/// very first attempt when its failure is final by the options; else it is the attempt after
/// which the schedule had no delay left.
pub proof fn law_fails_with_last_error<T, C, F, I, E>(
    run: Seq<Connecting<C, F, I>>,
    errors: Seq<E>,
    retries: Seq<Attempt<C>>,
    last_error: E,
    failure: E,
) -> (r: (I, Seq<Draw<I>>)) where
    T: UnderlyingIo<C>,
    C: Clone,
    F: Fn() -> I,
    I: Iterator<Item = Duration>,

    requires
        retries_over_and_over::<T, C, F, I, E>(run, errors, retries),
        run.last().comes_to(Err::<T, E>(last_error), ConnectStep::Failed(failure)),
    ensures
        failure == last_error,
        run[0].options().exit_if_first_connect_fails ==> retries.len() == 0,
        !run[0].options().exit_if_first_connect_fails ==> {
            &&& call_ensures(run[0].options().retries_to_attempt_fn, (), r.0)
            &&& draws_from(r.0, r.1)
            &&& r.1.len() == retries.len() + 1
            &&& r.1.last().delay is None
        },
{
    let failed = ConnectStep::<T, C, F, I, E>::Failed(failure);
    if run.last().bails() {
        if retries.len() > 0 {
            let _ = law_retries_follow_schedule::<T, C, F, I, E>(run, errors, retries);
        }
        (arbitrary(), arbitrary())
    } else if retries.len() == 0 {
        let (tracker, draw, plan) = lemma_failure(run.last(), last_error, failed);
        (tracker.retries_remaining, seq![draw])
    } else {
        let (fresh, draws) = law_retries_follow_schedule::<T, C, F, I, E>(run, errors, retries);
        let (tracker, draw, plan) = lemma_failure(run.last(), last_error, failed);
        let all = draws.push(draw);
        assert forall|k: int| 0 <= k < all.len() implies drawn(
            #[trigger] left_before(fresh, all, k),
            all[k],
        ) by {
            if k < draws.len() {
                assert(drawn(left_before(fresh, draws, k), draws[k]));
            }
        }
        (fresh, all)
    }
}

/// With schedules that all hold the delays `schedule`, and when the first failure is not final,
/// retry `k + 1` comes after `schedule[k]`, and there are never more retries than delays.
pub proof fn law_finite_retries<T, C, F, I, E>(
    run: Seq<Connecting<C, F, I>>,
    errors: Seq<E>,
    retries: Seq<Attempt<C>>,
    schedule: Seq<Duration>,
) where T: UnderlyingIo<C>, C: Clone, F: Fn() -> I, I: Iterator<Item = Duration>
    requires
        retries_over_and_over::<T, C, F, I, E>(run, errors, retries),
        forall|fresh: I| #[trigger]
            call_ensures(run[0].options().retries_to_attempt_fn, (), fresh) ==> {
                &&& fresh.obeys_prophetic_iter_laws()
                &&& fresh.remaining() == schedule
            },
    ensures
        retries.len() <= schedule.len(),
        forall|k: int|
            0 <= k < retries.len() ==> is_retry(
                run[0].ctor_arg(),
                k,
                Some(schedule[k]),
                #[trigger] retries[k],
            ),
{
    if retries.len() > 0 {
        let (fresh, draws) = law_retries_follow_schedule::<T, C, F, I, E>(run, errors, retries);
        law_schedule_in_order(fresh, draws);
        let last = retries.len() - 1;
        assert(is_retry(run[0].ctor_arg(), last, draws[last].delay, retries[last]));
        assert forall|k: int| 0 <= k < retries.len() implies is_retry(
            run[0].ctor_arg(),
            k,
            Some(schedule[k]),
            #[trigger] retries[k],
        ) by {
            assert(is_retry(run[0].ctor_arg(), k, draws[k].delay, retries[k]));
        }
    }
}

/// With schedules that all hold the delays `schedule`, and when the first failure is not final,
/// a connection attempt fails for good exactly after one attempt more than there are delays.
pub proof fn law_all_retries_are_made<T, C, F, I, E>(
    run: Seq<Connecting<C, F, I>>,
    errors: Seq<E>,
    retries: Seq<Attempt<C>>,
    schedule: Seq<Duration>,
    last_error: E,
    step: ConnectStep<T, C, F, I, E>,
) where T: UnderlyingIo<C>, C: Clone, F: Fn() -> I, I: Iterator<Item = Duration>
    requires
        retries_over_and_over::<T, C, F, I, E>(run, errors, retries),
        !run[0].options().exit_if_first_connect_fails,
        run.last().comes_to(Err::<T, E>(last_error), step),
        forall|fresh: I| #[trigger]
            call_ensures(run[0].options().retries_to_attempt_fn, (), fresh) ==> {
                &&& fresh.obeys_prophetic_iter_laws()
                &&& fresh.remaining() == schedule
            },
    ensures
        if retries.len() == schedule.len() {
            step == ConnectStep::<T, C, F, I, E>::Failed(last_error)
        } else {
            step is Retry
        },
{
    law_finite_retries::<T, C, F, I, E>(run, errors, retries, schedule);
    if retries.len() > 0 {
        let _ = law_retries_follow_schedule::<T, C, F, I, E>(run, errors, retries);
    }
    let (_, _, _) = lemma_failure(run.last(), last_error, step);
    match step {
        ConnectStep::Failed(failure) => {
            let (fresh, draws) = law_fails_with_last_error::<T, C, F, I, E>(
                run,
                errors,
                retries,
                last_error,
                failure,
            );
            law_schedule_in_order(fresh, draws);
            assert(draws[retries.len() as int].delay is None);
        },
        ConnectStep::Retry(connecting, attempt) => {
            let longer = run.push(connecting);
            let more_errors = errors.push(last_error);
            let more = retries.push(attempt);
            assert forall|k: int| 0 <= k < more.len() implies longer[k].comes_to(
                Err::<T, E>(more_errors[k]),
                ConnectStep::Retry(longer[k + 1], #[trigger] more[k]),
            ) by {
                if k < retries.len() {
                    assert(run[k].comes_to(
                        Err::<T, E>(errors[k]),
                        ConnectStep::Retry(run[k + 1], retries[k]),
                    ));
                }
            }
            law_finite_retries::<T, C, F, I, E>(longer, more_errors, more, schedule);
        },
        _ => {},
    }
}

/// A connection attempt that succeeds, be it the first one or any retry, gives a connection in
/// use over the I/O item that was made, with the setup that connecting began with.
pub proof fn law_success_connects<T, C, F, I, E>(
    run: Seq<Connecting<C, F, I>>,
    errors: Seq<E>,
    retries: Seq<Attempt<C>>,
    stream: T,
    step: ConnectStep<T, C, F, I, E>,
) where T: UnderlyingIo<C>, C: Clone, F: Fn() -> I, I: Iterator<Item = Duration>
    requires
        retries_over_and_over::<T, C, F, I, E>(run, errors, retries),
        run.last().comes_to(Ok::<T, E>(stream), step),
    ensures
        step matches ConnectStep::Connected(io) && {
            &&& io.status() is Connected
            &&& io.stream() == stream
            &&& io.options() == run[0].options()
            &&& io.ctor_arg() == run[0].ctor_arg()
        },
{
    if retries.len() > 0 {
        let _ = law_retries_follow_schedule::<T, C, F, I, E>(run, errors, retries);
    }
}

/// Whatever the options say, connecting begins with an attempt that waits for nothing and belongs to
/// no schedule, made with a clone of the argument; no schedule is in use, and the options are
/// those that were given.
pub proof fn law_first_attempt_is_made_at_once<T, C, F, I>(
    ctor_arg: C,
    options: ReconnectOptions<F>,
    connecting: Connecting<C, F, I>,
    first: Attempt<C>,
) where T: UnderlyingIo<C>, C: Clone, F: Fn() -> I, I: Iterator<Item = Duration>
    requires
        call_ensures(
            StubbornIo::<T, C, F, I>::connect_with_options,
            (&ctor_arg, options),
            (connecting, first),
        ),
    ensures
        first.delay is None,
        first.number == 0,
        connecting.retries() is None,
        connecting.options() == options,
        cloned(ctor_arg, connecting.ctor_arg()),
        cloned(connecting.ctor_arg(), first.ctor_arg),
{
}

/// Connecting with the default options begins in the same way: at once, off no schedule, with a
/// clone of the argument and with those options.
pub proof fn law_connect_begins_alike<T, C, F, I>(
    ctor_arg: C,
    options: ReconnectOptions<F>,
    connecting: Connecting<C, F, I>,
    first: Attempt<C>,
) where T: UnderlyingIo<C>, C: Clone, F: Fn() -> I, I: Iterator<Item = Duration>
    requires
        call_ensures(
            StubbornIo::<T, C, F, I>::connect,
            (&ctor_arg, options),
            (connecting, first),
        ),
    ensures
        first.delay is None,
        first.number == 0,
        connecting.retries() is None,
        connecting.options() == options,
        cloned(ctor_arg, connecting.ctor_arg()),
        cloned(connecting.ctor_arg(), first.ctor_arg),
{
}

/// Success, of the first attempt or of any retry and whatever the options say, gives the connection:
/// in use, over the I/O item that was made, with the argument and the options that connecting
/// began with.
pub proof fn law_attempt_succeeds<T, C, F, I, E>(
    connecting: Connecting<C, F, I>,
    stream: T,
    step: ConnectStep<T, C, F, I, E>,
) where T: UnderlyingIo<C>, C: Clone, F: Fn() -> I, I: Iterator<Item = Duration>
    requires
        call_ensures(
            Connecting::<C, F, I>::attempted::<T, E>,
            (connecting, Ok::<T, E>(stream)),
            step,
        ),
    ensures
        step matches ConnectStep::Connected(io) && {
            &&& io.status() is Connected
            &&& io.stream() == stream
            &&& io.options() == connecting.options()
            &&& io.ctor_arg() == connecting.ctor_arg()
        },
{
}

/// Failure of the very first attempt is final, with its own error, when the options say so.
pub proof fn law_first_failure_is_final<T, C, F, I, E>(
    connecting: Connecting<C, F, I>,
    err: E,
    step: ConnectStep<T, C, F, I, E>,
) where T: UnderlyingIo<C>, C: Clone, F: Fn() -> I, I: Iterator<Item = Duration>
    requires
        connecting.retries() is None,
        connecting.options().exit_if_first_connect_fails,
        call_ensures(
            Connecting::<C, F, I>::attempted::<T, E>,
            (connecting, Err::<T, E>(err)),
            step,
        ),
    ensures
        step == ConnectStep::<T, C, F, I, E>::Failed(err),
{
}

/// Every other failure draws the next delay: after the very first attempt off a schedule straight
/// from the options, after a retry off the schedule in use. With a delay, the retry one number up
/// is made after it, with a clone of the argument; without, connecting fails with the error at
/// hand. The result is the schedule that was drawn from, and what was drawn.
pub proof fn law_failure_leads_to_retry<T, C, F, I, E>(
    connecting: Connecting<C, F, I>,
    err: E,
    step: ConnectStep<T, C, F, I, E>,
) -> (r: (I, Draw<I>)) where
    T: UnderlyingIo<C>,
    C: Clone,
    F: Fn() -> I,
    I: Iterator<Item = Duration>,

    requires
        connecting.retries() is Some || !connecting.options().exit_if_first_connect_fails,
        call_ensures(
            Connecting::<C, F, I>::attempted::<T, E>,
            (connecting, Err::<T, E>(err)),
            step,
        ),
    ensures
        connecting.retries() matches Some(tracker) ==> r.0 == tracker.retries_remaining,
        connecting.retries() is None ==> call_ensures(
            connecting.options().retries_to_attempt_fn,
            (),
            r.0,
        ),
        call_ensures(next_delay::<I>, (r.0,), r.1),
        r.1.delay is None ==> step == ConnectStep::<T, C, F, I, E>::Failed(err),
        r.1.delay is Some ==> {
            let made = match connecting.retries() {
                Some(tracker) => tracker.attempt_num as int,
                None => 0,
            };
            &&& step matches ConnectStep::Retry(next, retry)
            &&& retry.delay == r.1.delay
            &&& retry.number == made + 1
            &&& cloned(connecting.ctor_arg(), retry.ctor_arg)
            &&& next.options() == connecting.options()
            &&& next.ctor_arg() == connecting.ctor_arg()
            &&& next.retries() matches Some(tracker)
            &&& tracker.attempt_num == made + 1
            &&& tracker.retries_remaining == r.1.rest
        },
{
    let (tracker, draw, _) = lemma_failure(connecting, err, step);
    (tracker.retries_remaining, draw)
}

/// The number of the attempt under way is that of the retry that was asked for, and 0 as long as
/// none was.
pub proof fn law_attempt_number<C, F, I>(connecting: Connecting<C, F, I>, number: usize) where
    C: Clone,
    F: Fn() -> I,
    I: Iterator<Item = Duration>,

    requires
        call_ensures(Connecting::<C, F, I>::attempt_num, (&connecting,), number),
    ensures
        number == (match connecting.retries() {
            Some(tracker) => tracker.attempt_num,
            None => 0,
        }),
{
}

} // verus!
