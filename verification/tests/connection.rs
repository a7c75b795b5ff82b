use std::time::Duration;

use stubborn_io::connect::{ConnectStep, Connecting};
use stubborn_io::error::{exhausted_err, Detail, ErrorKind, IoError};
use stubborn_io::poll::Poll;
use stubborn_io::retry::{next_delay, plan_attempt, Attempt, Plan, ReconnectStatus};
use stubborn_io::stubborn::{Action, Outcome, PollTarget, Polled};
use stubborn_io::{ReconnectOptions, StubbornIo, UnderlyingIo};

/// A connection to a port, with the default tests for a loss.
#[derive(Debug, PartialEq)]
struct Socket {
    port: u16,
}

impl UnderlyingIo<u16> for Socket {
    type Establishing = Result<Socket, &'static str>;
    type Source = &'static str;

    fn establish(ctor_arg: u16) -> Result<Socket, &'static str> {
        if ctor_arg == 0 {
            Err("no port")
        } else {
            Ok(Socket { port: ctor_arg })
        }
    }
}

/// A connection with tests of its own: only a full buffer ends it.
struct Pipe;

impl UnderlyingIo<u16> for Pipe {
    type Establishing = Pipe;
    type Source = &'static str;

    fn establish(_ctor_arg: u16) -> Pipe {
        Pipe
    }

    fn is_disconnect_error(&self, err: &IoError<&'static str>) -> bool {
        matches!(err.detail, Detail::Source("gone"))
    }

    fn is_final_read(&self, received_bytes: usize) -> bool {
        received_bytes == 4096
    }
}

type Schedule = Box<dyn Iterator<Item = Duration>>;
type Maker = Box<dyn Fn() -> Schedule>;
type Stubborn = StubbornIo<Socket, u16, Maker, Schedule>;
type Pending = Connecting<u16, Maker, Schedule>;
type Step = ConnectStep<Socket, u16, Maker, Schedule, &'static str>;
type IoPoll<X> = Poll<Result<X, IoError<&'static str>>>;

fn secs(seconds: u64) -> Duration {
    Duration::from_secs(seconds)
}

fn options(delays: &'static [u64], exit: bool) -> ReconnectOptions<Maker> {
    let make: Maker = Box::new(move || Box::new(delays.iter().map(|s| secs(*s))));
    ReconnectOptions::new(make, exit)
}

fn connected(delays: &'static [u64]) -> Stubborn {
    let (connecting, _) = Stubborn::connect_with_options(&80, options(delays, true));
    match connecting.attempted::<Socket, &'static str>(Ok(Socket { port: 80 })) {
        ConnectStep::Connected(io) => io,
        _ => panic!("a first attempt that succeeds connects"),
    }
}

fn stream<X>(poll: IoPoll<X>) -> Polled<Socket, X, &'static str, &'static str> {
    Polled::Stream(poll)
}

fn attempt<X>(
    poll: Poll<Result<Socket, &'static str>>,
) -> Polled<Socket, X, &'static str, &'static str> {
    Polled::Attempt(poll)
}

fn nothing<X>() -> Polled<Socket, X, &'static str, &'static str> {
    Polled::Nothing
}

fn source(kind: ErrorKind, text: &'static str) -> IoError<&'static str> {
    IoError { kind, detail: Detail::Source(text) }
}

fn assert_pending<X>(outcome: &Outcome<X, &'static str, u16>) {
    assert!(matches!(outcome.poll, Poll::Pending));
}

fn assert_quiet(action: &Action<u16>) {
    assert!(matches!(action, Action::Quiet));
}

fn assert_retry(action: &Action<u16>, number: usize, delay: u64) {
    match action {
        Action::Retry(attempt) => {
            assert_eq!(attempt.number, number);
            assert_eq!(attempt.delay, Some(secs(delay)));
            assert_eq!(attempt.ctor_arg, 80);
        }
        _ => panic!("a retry was expected"),
    }
}

fn assert_exhausted<X>(poll: &IoPoll<X>) {
    match poll {
        Poll::Ready(Err(err)) => {
            assert_eq!(err.kind, ErrorKind::NotConnected);
            assert!(matches!(
                err.detail,
                Detail::Message("Disconnected. Connection attempts have been exhausted.")
            ));
        }
        _ => panic!("the error of a connection given up was expected"),
    }
}

fn lose(io: &mut Stubborn) -> Action<u16> {
    let outcome = io.poll_read(stream(Poll::Ready(Ok(0))));
    assert_pending(&outcome);
    outcome.action
}

fn fail(io: &mut Stubborn) -> Action<u16> {
    let outcome = io.poll_read(attempt(Poll::Ready(Err("refused"))));
    assert_pending(&outcome);
    outcome.action
}

fn give_up() -> Stubborn {
    let mut io = connected(&[]);
    assert_quiet(&lose(&mut io));
    assert_eq!(io.poll_target(), PollTarget::Nothing);
    io
}

#[test]
fn disconnect_kinds_are_ten() {
    let lost = [
        ErrorKind::NotFound,
        ErrorKind::PermissionDenied,
        ErrorKind::ConnectionRefused,
        ErrorKind::ConnectionReset,
        ErrorKind::ConnectionAborted,
        ErrorKind::NotConnected,
        ErrorKind::AddrInUse,
        ErrorKind::AddrNotAvailable,
        ErrorKind::BrokenPipe,
        ErrorKind::AlreadyExists,
    ];
    let kept = [
        ErrorKind::WouldBlock,
        ErrorKind::InvalidInput,
        ErrorKind::InvalidData,
        ErrorKind::TimedOut,
        ErrorKind::WriteZero,
        ErrorKind::Interrupted,
        ErrorKind::UnexpectedEof,
        ErrorKind::Other,
    ];
    let socket = Socket { port: 1 };
    for kind in lost {
        assert!(kind.is_disconnect());
        assert!(socket.is_disconnect_error(&source(kind, "x")));
    }
    for kind in kept {
        assert!(!kind.is_disconnect());
        assert!(!socket.is_disconnect_error(&source(kind, "x")));
    }
}

#[test]
fn final_read_is_empty() {
    let socket = Socket { port: 1 };
    assert!(socket.is_final_read(0));
    assert!(!socket.is_final_read(1));
}

#[test]
fn exhausted_err_is_not_connected() {
    let poll: IoPoll<u8> = exhausted_err();
    assert_exhausted(&poll);
}

#[test]
fn options_hold_what_they_are_given() {
    let options = options(&[3, 4], false);
    assert!(!options.exit_if_first_connect_fails);
    let delays: Vec<Duration> = (options.retries_to_attempt_fn)().collect();
    assert_eq!(delays, vec![secs(3), secs(4)]);
}

#[test]
fn next_delay_takes_delays_in_order() {
    let draw = next_delay(vec![secs(1), secs(2)].into_iter());
    assert_eq!(draw.delay, Some(secs(1)));
    let draw = next_delay(draw.rest);
    assert_eq!(draw.delay, Some(secs(2)));
    let draw = next_delay(draw.rest);
    assert_eq!(draw.delay, None);
}

#[test]
fn plan_follows_the_draw() {
    match plan_attempt(4, next_delay(vec![secs(9)].into_iter()), &80u16) {
        Plan::Retry(tracker, attempt) => {
            assert_eq!(tracker.attempt_num, 5);
            assert_eq!(tracker.retries_remaining.count(), 0);
            assert_eq!(attempt.number, 5);
            assert_eq!(attempt.delay, Some(secs(9)));
            assert_eq!(attempt.ctor_arg, 80);
        }
        Plan::GiveUp => panic!("a delay was left"),
    }
    assert!(matches!(plan_attempt(4, next_delay(std::iter::empty()), &80u16), Plan::GiveUp));
}

#[test]
fn reconnect_status_starts_fresh() {
    let status = ReconnectStatus::new(&options(&[5], true));
    assert_eq!(status.attempts_tracker.attempt_num, 0);
    let left: Vec<Duration> = status.attempts_tracker.retries_remaining.collect();
    assert_eq!(left, vec![secs(5)]);
}

#[test]
fn attempt_establishes_from_its_argument() {
    let attempt = Attempt { delay: None, number: 0, ctor_arg: 443 };
    assert_eq!(attempt.start::<Socket>(), Ok(Socket { port: 443 }));
    let attempt = Attempt { delay: Some(secs(1)), number: 1, ctor_arg: 0 };
    assert_eq!(attempt.start::<Socket>(), Err("no port"));
}

#[test]
fn first_attempt_is_made_at_once() {
    let (connecting, first) = Stubborn::connect(&80, options(&[1], true));
    assert_eq!(connecting.attempt_num(), 0);
    assert_eq!(first.delay, None);
    assert_eq!(first.number, 0);
    assert_eq!(first.ctor_arg, 80);
}

#[test]
fn first_success_connects() {
    let io = connected(&[1]);
    assert_eq!(io.poll_target(), PollTarget::Stream);
    assert_eq!(io.attempt_num(), None);
    assert_eq!(io.port, 80);
}

#[test]
fn first_failure_can_be_final() {
    let (connecting, _) = Stubborn::connect_with_options(&80, options(&[1, 2], true));
    let step: Step = connecting.attempted(Err("down"));
    assert!(matches!(step, ConnectStep::Failed("down")));
}

fn retried(connecting: Pending, error: &'static str, number: usize, delay: u64) -> Pending {
    let step: Step = connecting.attempted(Err(error));
    match step {
        ConnectStep::Retry(connecting, attempt) => {
            assert_eq!(attempt.number, number);
            assert_eq!(attempt.delay, Some(secs(delay)));
            assert_eq!(attempt.ctor_arg, 80);
            assert_eq!(connecting.attempt_num(), number);
            connecting
        }
        _ => panic!("a retry was expected"),
    }
}

#[test]
fn connecting_fails_with_the_last_error() {
    let (connecting, _) = Stubborn::connect_with_options(&80, options(&[1, 2], false));
    let connecting = retried(connecting, "first", 1, 1);
    let connecting = retried(connecting, "second", 2, 2);
    let step: Step = connecting.attempted(Err("third"));
    assert!(matches!(step, ConnectStep::Failed("third")));
}

#[test]
fn connecting_succeeds_on_a_retry() {
    let (connecting, _) = Stubborn::connect_with_options(&80, options(&[1, 2], false));
    let connecting = retried(connecting, "first", 1, 1);
    match connecting.attempted::<Socket, &'static str>(Ok(Socket { port: 81 })) {
        ConnectStep::Connected(mut io) => {
            assert_eq!(io.port, 81);
            // the schedule starts over for the connection
            assert_retry(&lose(&mut io), 1, 1);
        }
        _ => panic!("the retry succeeded"),
    }
}

#[test]
fn connecting_without_delays_tries_once() {
    let (connecting, _) = Stubborn::connect_with_options(&80, options(&[], false));
    let step: Step = connecting.attempted(Err("only"));
    assert!(matches!(step, ConnectStep::Failed("only")));
}

#[test]
fn reads_pass_through() {
    let mut io = connected(&[1]);
    let outcome = io.poll_read(stream(Poll::Ready(Ok(5))));
    assert!(matches!(outcome.poll, Poll::Ready(Ok(5))));
    assert_quiet(&outcome.action);
    let outcome = io.poll_read_buf(stream(Poll::Ready(Ok(6))));
    assert!(matches!(outcome.poll, Poll::Ready(Ok(6))));
    let outcome = io.poll_read(stream(Poll::Pending));
    assert_pending(&outcome);
    assert_quiet(&outcome.action);
    let outcome = io.poll_read(stream(Poll::Ready(Err(source(ErrorKind::TimedOut, "slow")))));
    match outcome.poll {
        Poll::Ready(Err(err)) => {
            assert_eq!(err.kind, ErrorKind::TimedOut);
            assert!(matches!(err.detail, Detail::Source("slow")));
        }
        _ => panic!("an error that is no loss passes through"),
    }
    assert_eq!(io.poll_target(), PollTarget::Stream);
}

#[test]
fn reads_hide_losses() {
    let mut io = connected(&[7]);
    let outcome = io.poll_read(stream(Poll::Ready(Ok(0))));
    assert_pending(&outcome);
    assert_retry(&outcome.action, 1, 7);
    assert_eq!(io.poll_target(), PollTarget::Attempt);
    assert_eq!(io.attempt_num(), Some(1));
    assert_eq!(io.port, 80);

    let mut io = connected(&[7]);
    let reset = source(ErrorKind::ConnectionReset, "reset");
    let outcome = io.poll_read_buf(stream(Poll::Ready(Err(reset))));
    assert_pending(&outcome);
    assert_retry(&outcome.action, 1, 7);
}

#[test]
fn writes_pass_through() {
    let mut io = connected(&[1]);
    let outcome = io.poll_write(stream(Poll::Ready(Ok(0))));
    assert!(matches!(outcome.poll, Poll::Ready(Ok(0))));
    assert_quiet(&outcome.action);
    let outcome = io.poll_write_buf(stream(Poll::Ready(Ok(9))));
    assert!(matches!(outcome.poll, Poll::Ready(Ok(9))));
    let outcome = io.poll_flush(stream(Poll::Ready(Ok(()))));
    assert!(matches!(outcome.poll, Poll::Ready(Ok(()))));
    let outcome = io.poll_flush(stream(Poll::Pending));
    assert_pending(&outcome);
    let zero = source(ErrorKind::WriteZero, "full");
    let outcome = io.poll_write(stream(Poll::Ready(Err(zero))));
    assert!(matches!(outcome.poll, Poll::Ready(Err(_))));
    assert_eq!(io.poll_target(), PollTarget::Stream);
}

#[test]
fn writes_hide_losses() {
    let mut io = connected(&[7]);
    let broken = source(ErrorKind::BrokenPipe, "broken");
    let outcome = io.poll_write(stream(Poll::Ready(Err(broken))));
    assert_pending(&outcome);
    assert_retry(&outcome.action, 1, 7);

    let mut io = connected(&[7]);
    let aborted = source(ErrorKind::ConnectionAborted, "aborted");
    let outcome = io.poll_write_buf(stream(Poll::Ready(Err(aborted))));
    assert_pending(&outcome);
    assert_retry(&outcome.action, 1, 7);

    let mut io = connected(&[7]);
    let refused = source(ErrorKind::ConnectionRefused, "refused");
    let outcome = io.poll_flush(stream(Poll::Ready(Err(refused))));
    assert_pending(&outcome);
    assert_retry(&outcome.action, 1, 7);
}

#[test]
fn settle_goes_by_the_judgement() {
    let mut io = connected(&[7]);
    let outcome = io.settle(Poll::Ready(Ok(0u8)), false);
    assert!(matches!(outcome.poll, Poll::Ready(Ok(0))));
    assert_quiet(&outcome.action);
    let outcome = io.settle(Poll::Ready(Ok(3u8)), true);
    assert_pending(&outcome);
    assert_retry(&outcome.action, 1, 7);
}

#[test]
fn losses_are_detected_by_the_item() {
    let maker: Maker = Box::new(|| Box::new(std::iter::empty()));
    let (connecting, _) =
        StubbornIo::<Pipe, u16, _, _>::connect_with_options(&1, ReconnectOptions::new(maker, true));
    let io = match connecting.attempted::<Pipe, ()>(Ok(Pipe)) {
        ConnectStep::Connected(io) => io,
        _ => panic!("a first attempt that succeeds connects"),
    };
    assert!(!io.is_read_disconnect_detected(&Poll::Ready(Ok(0))));
    assert!(io.is_read_disconnect_detected(&Poll::Ready(Ok(4096))));
    assert!(!io.is_read_disconnect_detected(&Poll::Pending));
    let gone = Poll::Ready(Err(source(ErrorKind::Other, "gone")));
    assert!(io.is_read_disconnect_detected(&gone));
    assert!(io.is_write_disconnect_detected(&gone));
    let reset = Poll::Ready(Err(source(ErrorKind::ConnectionReset, "reset")));
    assert!(!io.is_read_disconnect_detected(&reset));
    assert!(!io.is_write_disconnect_detected(&reset));
    assert!(!io.is_write_disconnect_detected(&Poll::Ready(Ok(4096usize))));
}

#[test]
fn attempts_follow_the_schedule() {
    let mut io = connected(&[3, 5, 8]);
    assert_retry(&lose(&mut io), 1, 3);
    assert_retry(&fail(&mut io), 2, 5);
    let outcome = io.poll_write(attempt(Poll::Pending));
    assert_pending(&outcome);
    assert_quiet(&outcome.action);
    assert_eq!(io.attempt_num(), Some(2));
    let outcome = io.poll_flush(attempt(Poll::Ready(Err("refused"))));
    assert_pending(&outcome);
    assert_retry(&outcome.action, 3, 8);
    assert_quiet(&fail(&mut io));
    assert_eq!(io.poll_target(), PollTarget::Nothing);
    assert_eq!(io.attempt_num(), None);
}

#[test]
fn endless_schedules_never_give_up() {
    let maker: Maker = Box::new(|| Box::new(std::iter::repeat(secs(2))));
    let (connecting, _) =
        Stubborn::connect_with_options(&80, ReconnectOptions::new(maker, true));
    let mut io = match connecting.attempted::<Socket, &'static str>(Ok(Socket { port: 80 })) {
        ConnectStep::Connected(io) => io,
        _ => panic!("a first attempt that succeeds connects"),
    };
    assert_retry(&lose(&mut io), 1, 2);
    for number in 2..1000 {
        assert_retry(&fail(&mut io), number, 2);
    }
}

#[test]
fn connection_comes_back() {
    let mut io = connected(&[3, 5]);
    lose(&mut io);
    assert_retry(&fail(&mut io), 2, 5);
    let outcome = io.poll_write_buf(attempt(Poll::Ready(Ok(Socket { port: 81 }))));
    assert_pending(&outcome);
    assert!(matches!(outcome.action, Action::Wake));
    assert_eq!(io.poll_target(), PollTarget::Stream);
    assert_eq!(io.port, 81);
    let outcome = io.poll_read(stream(Poll::Ready(Ok(4))));
    assert!(matches!(outcome.poll, Poll::Ready(Ok(4))));
    // a second loss starts over, with the argument that was given at first
    assert_retry(&lose(&mut io), 1, 3);
}

#[test]
fn poll_disconnect_goes_by_the_attempt() {
    let mut io = connected(&[3, 5]);
    lose(&mut io);
    assert_quiet(&io.poll_disconnect::<&'static str>(Poll::Pending));
    assert_eq!(io.attempt_num(), Some(1));
    assert_retry(&io.poll_disconnect(Poll::Ready(Err("refused"))), 2, 5);
    let action = io.poll_disconnect::<&'static str>(Poll::Ready(Ok(Socket { port: 9 })));
    assert!(matches!(action, Action::Wake));
    assert_eq!(io.port, 9);
}

#[test]
fn on_disconnect_draws_a_delay() {
    let mut io = connected(&[3]);
    assert_retry(&io.on_disconnect(), 1, 3);
    assert_quiet(&io.on_disconnect());
    assert_eq!(io.poll_target(), PollTarget::Nothing);
}

#[test]
fn giving_up_is_final() {
    let mut io = give_up();
    for _ in 0..3 {
        let outcome = io.poll_read(nothing());
        assert_exhausted(&outcome.poll);
        assert_quiet(&outcome.action);
        let outcome = io.poll_read_buf(nothing());
        assert_exhausted(&outcome.poll);
        let outcome = io.poll_write(nothing());
        assert_exhausted(&outcome.poll);
        assert_quiet(&outcome.action);
        let outcome = io.poll_write_buf(nothing());
        assert_exhausted(&outcome.poll);
        let outcome = io.poll_flush(nothing());
        assert_exhausted(&outcome.poll);
        let outcome = io.poll_shutdown(None);
        assert_exhausted(&outcome.poll);
        assert_quiet(&outcome.action);
        assert_eq!(io.poll_target(), PollTarget::Nothing);
    }
}

#[test]
fn shutdown_disconnects_once_it_has_finished() {
    let mut io = connected(&[3, 5]);
    let outcome = io.poll_shutdown(Some(Poll::Pending));
    assert_pending(&outcome);
    assert_quiet(&outcome.action);
    assert_eq!(io.poll_target(), PollTarget::Stream);

    let outcome = io.poll_shutdown(Some(Poll::Ready(Ok(()))));
    assert!(matches!(outcome.poll, Poll::Ready(Ok(()))));
    assert_retry(&outcome.action, 1, 3);
    assert_eq!(io.poll_target(), PollTarget::Attempt);

    let outcome = io.poll_shutdown(None);
    assert_pending(&outcome);
    assert_quiet(&outcome.action);
    assert_eq!(io.attempt_num(), Some(1));

    let mut io = connected(&[3]);
    let slow = source(ErrorKind::TimedOut, "slow");
    let outcome = io.poll_shutdown(Some(Poll::Ready(Err(slow))));
    match outcome.poll {
        Poll::Ready(Err(err)) => assert_eq!(err.kind, ErrorKind::TimedOut),
        _ => panic!("the error of a shutdown passes through"),
    }
    assert_retry(&outcome.action, 1, 3);
}

#[test]
fn buffers_are_prepared_as_the_item_says() {
    let io = connected(&[3]);
    assert!(io.prepare_uninitialized_buffer(Some(true)));
    assert!(!io.prepare_uninitialized_buffer(Some(false)));
    let mut io = connected(&[3]);
    lose(&mut io);
    assert!(!io.prepare_uninitialized_buffer(None));
    assert!(!give_up().prepare_uninitialized_buffer(None));
}

#[test]
fn the_item_can_be_reached() {
    let mut io = connected(&[3]);
    assert_eq!(io.port, 80);
    io.port = 8080;
    assert_eq!(*io, Socket { port: 8080 });
    assert_retry(&lose(&mut io), 1, 3);
}
