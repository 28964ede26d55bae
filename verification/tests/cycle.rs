use hyperx_switchd::connection::{
    shared_result, ConnectionHealth, ConnectionState, Operation, SharedResult, WaitStep,
};
use hyperx_switchd::daemon::{report_distinct_error, Action, Daemon, Event, Settings};
use hyperx_switchd::hid::HeadsetState;
use hyperx_switchd::reconcile::ReconcileResult;

const SECOND: u128 = 1_000_000_000;
const ON: HeadsetState = HeadsetState::Connected;
const OFF: HeadsetState = HeadsetState::Disconnected;

fn settings() -> Settings {
    Settings { poll_ms: 250, audio_verify_secs: 15, once: false, verbose: false }
}

fn step(daemon: &mut Daemon, event: Event) -> (Action, Option<String>) {
    assert!(daemon.expects(&event), "{event:?}");
    daemon.step(event)
}

fn result(moved_streams: usize, failed_stream_moves: usize) -> ReconcileResult {
    ReconcileResult {
        target_name: "desk".to_owned(),
        default_changed: false,
        moved_streams,
        failed_stream_moves,
    }
}

fn clock(now: u128) -> Event {
    Event::Clock { now, audio_changed: false }
}

/// Runs a cycle up to the point where the clock is read.
fn look(daemon: &mut Daemon, now: u128, headset: Result<HeadsetState, &str>) -> Option<String> {
    let (action, _) = step(daemon, Event::CycleStarted { now });
    assert!(matches!(action, Action::QueryHeadset));
    let (action, line) = step(daemon, Event::Headset(headset.map_err(|text| text.to_owned())));
    assert!(matches!(action, Action::ReadClock));
    line
}

fn rest(daemon: &mut Daemon, now: u128) -> u128 {
    match step(daemon, Event::CycleEnded { now }) {
        (Action::Sleep(nanos), None) => nanos,
        other => panic!("{other:?}"),
    }
}

/// A daemon that has routed the sound for the state at the given time.
fn routed(state: HeadsetState, now: u128, outcome: ReconcileResult) -> Daemon {
    let mut daemon = Daemon::start(settings(), now);
    look(&mut daemon, now, Ok(state));
    let (action, _) = step(&mut daemon, clock(now));
    assert!(matches!(action, Action::Connect));
    let (action, _) = step(&mut daemon, Event::Connected);
    assert!(matches!(action, Action::Reconcile(observed) if observed == state));
    let (action, _) = step(&mut daemon, Event::Reconciled { result: outcome, now });
    assert!(matches!(action, Action::EndCycle));
    rest(&mut daemon, now);
    daemon
}

#[test]
fn first_cycle_announces_and_routes() {
    let mut daemon = Daemon::start(settings(), 0);
    assert!(!daemon.expects(&Event::Connected));
    assert_eq!(look(&mut daemon, 0, Ok(ON)).as_deref(), Some("headset state: connected"));
    let (action, line) = step(&mut daemon, clock(1));
    assert!(matches!(action, Action::Connect) && line.is_none());
    step(&mut daemon, Event::Connected);
    let done = ReconcileResult { default_changed: true, ..result(2, 1) };
    let (_, line) = step(&mut daemon, Event::Reconciled { result: done, now: 2 });
    assert_eq!(
        line.as_deref(),
        Some("audio target: desk (default_changed=true, moved_streams=2, failed_stream_moves=1)")
    );
    assert_eq!(rest(&mut daemon, 50_000_000), 200_000_000);
}

#[test]
fn rest_is_never_negative() {
    let mut daemon = routed(ON, 0, result(0, 0));
    look(&mut daemon, SECOND, Ok(ON));
    step(&mut daemon, clock(SECOND));
    assert_eq!(rest(&mut daemon, 2 * SECOND), 0);
}

#[test]
fn unchanged_state_is_not_announced_again() {
    let mut daemon = routed(ON, 0, result(0, 0));
    assert_eq!(look(&mut daemon, SECOND, Ok(ON)), None);
    let (action, _) = step(&mut daemon, clock(SECOND));
    assert!(matches!(action, Action::EndCycle));
    rest(&mut daemon, SECOND);
    let line = look(&mut daemon, 2 * SECOND, Ok(OFF));
    assert_eq!(line.as_deref(), Some("headset state: disconnected"));
    let (action, _) = step(&mut daemon, clock(2 * SECOND));
    assert!(matches!(action, Action::CheckHealth));
    let (action, _) = step(&mut daemon, Event::Health(true));
    assert!(matches!(action, Action::Reconcile(HeadsetState::Disconnected)));
}

#[test]
fn dongle_is_left_alone_for_two_seconds() {
    let mut daemon = routed(ON, 0, result(0, 0));
    let line = look(&mut daemon, SECOND, Err("gone"));
    assert_eq!(line.as_deref(), Some("hid error: gone"));
    let (action, _) = step(&mut daemon, clock(SECOND));
    assert!(matches!(action, Action::EndCycle));
    rest(&mut daemon, SECOND);
    let (action, _) = step(&mut daemon, Event::CycleStarted { now: 3 * SECOND - 1 });
    assert!(matches!(action, Action::ReadClock));
    let (action, _) = step(&mut daemon, clock(3 * SECOND - 1));
    assert!(matches!(action, Action::EndCycle));
    rest(&mut daemon, 3 * SECOND - 1);

    assert_eq!(look(&mut daemon, 3 * SECOND, Err("gone")), None);
    let (action, _) = step(&mut daemon, clock(3 * SECOND));
    assert!(matches!(action, Action::CheckHealth));
    let (action, _) = step(&mut daemon, Event::Health(true));
    assert!(matches!(action, Action::Reconcile(HeadsetState::Disconnected)));
}

#[test]
fn answer_forgets_the_failures_of_the_dongle() {
    let mut daemon = routed(ON, 0, result(0, 0));
    for start in [1, 5, 9] {
        look(&mut daemon, start * SECOND, Err("gone"));
        let (action, _) = step(&mut daemon, clock(start * SECOND));
        assert!(matches!(action, Action::EndCycle));
        rest(&mut daemon, start * SECOND);
        let line = look(&mut daemon, (start + 2) * SECOND, Ok(ON));
        assert_eq!(line.as_deref(), Some("headset state: connected"));
        let (action, _) = step(&mut daemon, clock((start + 2) * SECOND));
        assert!(matches!(action, Action::EndCycle));
        rest(&mut daemon, (start + 2) * SECOND);
    }
}

#[test]
fn routing_is_verified_after_fifteen_seconds() {
    let mut daemon = routed(OFF, 0, result(0, 0));
    look(&mut daemon, 15 * SECOND - 1, Ok(OFF));
    let (action, _) = step(&mut daemon, clock(15 * SECOND - 1));
    assert!(matches!(action, Action::EndCycle));
    rest(&mut daemon, 15 * SECOND - 1);
    look(&mut daemon, 15 * SECOND, Ok(OFF));
    let (action, _) = step(&mut daemon, clock(15 * SECOND));
    assert!(matches!(action, Action::CheckHealth));
    step(&mut daemon, Event::Health(true));
    let verified = Event::Reconciled { result: result(0, 0), now: 15 * SECOND };
    let (_, line) = step(&mut daemon, verified);
    assert_eq!(line, None);
}

#[test]
fn change_at_the_server_is_followed_on_the_next_poll() {
    let mut daemon = routed(OFF, 0, result(0, 0));
    look(&mut daemon, SECOND, Ok(OFF));
    let (action, _) = step(&mut daemon, Event::Clock { now: SECOND, audio_changed: true });
    assert!(matches!(action, Action::CheckHealth));
}

#[test]
fn failed_moves_are_tried_again_after_a_second() {
    let mut daemon = routed(OFF, 0, result(1, 1));
    look(&mut daemon, SECOND - 1, Ok(OFF));
    let (action, _) = step(&mut daemon, clock(SECOND - 1));
    assert!(matches!(action, Action::EndCycle));
    rest(&mut daemon, SECOND - 1);
    look(&mut daemon, SECOND, Ok(OFF));
    let (action, _) = step(&mut daemon, clock(SECOND));
    assert!(matches!(action, Action::CheckHealth));
    step(&mut daemon, Event::Health(true));
    step(&mut daemon, Event::Reconciled { result: result(1, 0), now: SECOND });
    rest(&mut daemon, SECOND);
    look(&mut daemon, 3 * SECOND, Ok(OFF));
    let (action, _) = step(&mut daemon, clock(3 * SECOND));
    assert!(matches!(action, Action::EndCycle));
}

#[test]
fn failed_moves_do_not_hold_back_a_change_at_the_server() {
    let mut daemon = routed(OFF, 0, result(1, 1));
    look(&mut daemon, 1, Ok(OFF));
    let (action, _) = step(&mut daemon, Event::Clock { now: 1, audio_changed: true });
    assert!(matches!(action, Action::CheckHealth));
}

#[test]
fn broken_connection_is_replaced_and_failures_are_retried() {
    let mut daemon = routed(OFF, 0, result(0, 0));
    look(&mut daemon, 20 * SECOND, Ok(OFF));
    step(&mut daemon, clock(20 * SECOND));
    let (action, _) = step(&mut daemon, Event::Health(false));
    assert!(matches!(action, Action::Reconnect));
    let failed = Event::ConnectFailed { message: "refused".to_owned(), now: 20 * SECOND };
    let (action, line) = step(&mut daemon, failed);
    assert!(matches!(action, Action::EndCycle));
    assert_eq!(line.as_deref(), Some("audio error: refused"));
    rest(&mut daemon, 20 * SECOND);

    look(&mut daemon, 21 * SECOND - 1, Ok(OFF));
    let (action, _) = step(&mut daemon, clock(21 * SECOND - 1));
    assert!(matches!(action, Action::EndCycle));
    rest(&mut daemon, 21 * SECOND - 1);

    look(&mut daemon, 21 * SECOND, Ok(OFF));
    step(&mut daemon, clock(21 * SECOND));
    step(&mut daemon, Event::Health(false));
    step(&mut daemon, Event::Connected);
    let failed = Event::ReconcileFailed { message: "refused".to_owned(), now: 21 * SECOND };
    assert_eq!(step(&mut daemon, failed).1, None);
    rest(&mut daemon, 21 * SECOND);

    let line = look(&mut daemon, 21 * SECOND + 1, Ok(ON));
    assert_eq!(line.as_deref(), Some("headset state: connected"));
    let (action, _) = step(&mut daemon, clock(21 * SECOND + 1));
    assert!(matches!(action, Action::CheckHealth));
}

#[test]
fn unresponsive_connection_is_replaced_before_the_next_pass() {
    let mut health = ConnectionHealth::new();
    let mut slot: SharedResult<bool> = shared_result();
    let mut daemon = routed(OFF, 0, result(0, 0));
    look(&mut daemon, 20 * SECOND, Ok(OFF));
    step(&mut daemon, clock(20 * SECOND));
    step(&mut daemon, Event::Health(health.is_ready(ConnectionState::Ready)));
    let message = match health.wait_for(&mut slot, Operation::SetDefault, 23 * SECOND, 0) {
        WaitStep::TimedOut(message) => message,
        other => panic!("{other:?}"),
    };
    let (_, line) = step(&mut daemon, Event::ReconcileFailed { message, now: 23 * SECOND });
    assert_eq!(line.as_deref(), Some("audio error: timed out while setting the default sink"));
    rest(&mut daemon, 23 * SECOND);

    look(&mut daemon, 24 * SECOND, Ok(OFF));
    let (action, _) = step(&mut daemon, clock(24 * SECOND));
    assert!(matches!(action, Action::CheckHealth));
    let healthy = health.is_ready(ConnectionState::Ready);
    let (action, _) = step(&mut daemon, Event::Health(healthy));
    assert!(matches!(action, Action::Reconnect));
    let (action, _) = step(&mut daemon, Event::Connected);
    assert!(matches!(action, Action::Reconcile(HeadsetState::Disconnected)));
}

#[test]
fn verbose_daemon_reports_every_pass() {
    let verbose = Settings { verbose: true, ..settings() };
    let mut daemon = Daemon::start(verbose, 0);
    look(&mut daemon, 0, Ok(ON));
    step(&mut daemon, clock(0));
    step(&mut daemon, Event::Connected);
    step(&mut daemon, Event::Reconciled { result: result(0, 0), now: 0 });
    rest(&mut daemon, 0);
    look(&mut daemon, 1, Ok(ON));
    step(&mut daemon, Event::Clock { now: 1, audio_changed: true });
    step(&mut daemon, Event::Health(true));
    let (_, line) = step(&mut daemon, Event::Reconciled { result: result(0, 0), now: 1 });
    assert_eq!(
        line.as_deref(),
        Some("audio target: desk (default_changed=false, moved_streams=0, failed_stream_moves=0)")
    );
}

#[test]
fn single_run_stops_after_its_cycle() {
    let once = Settings { once: true, ..settings() };
    let mut daemon = Daemon::start(once, 0);
    look(&mut daemon, 0, Ok(ON));
    step(&mut daemon, clock(0));
    step(&mut daemon, Event::Connected);
    let (action, line) = step(&mut daemon, Event::Reconciled { result: result(0, 3), now: 0 });
    assert!(matches!(action, Action::Exit(Ok(()))));
    assert!(line.is_some());
    assert!(!daemon.expects(&Event::CycleStarted { now: 1 }));
}

#[test]
fn single_run_stops_at_the_first_failure() {
    let once = Settings { once: true, ..settings() };
    let mut daemon = Daemon::start(once, 0);
    step(&mut daemon, Event::CycleStarted { now: 0 });
    let (action, line) = step(&mut daemon, Event::Headset(Err("gone".to_owned())));
    assert!(matches!(action, Action::Exit(Err(message)) if message == "gone"));
    assert_eq!(line.as_deref(), Some("hid error: gone"));

    let mut daemon = Daemon::start(once, 0);
    look(&mut daemon, 0, Ok(OFF));
    step(&mut daemon, clock(0));
    let failed = Event::ConnectFailed { message: "refused".to_owned(), now: 0 };
    let (action, line) = step(&mut daemon, failed);
    assert!(matches!(action, Action::Exit(Err(message)) if message == "refused"));
    assert_eq!(line.as_deref(), Some("audio error: refused"));
}

#[test]
fn same_error_is_reported_once() {
    let mut previous = None;
    let line = report_distinct_error("hid error", "gone", &mut previous);
    assert_eq!(line.as_deref(), Some("hid error: gone"));
    assert_eq!(report_distinct_error("hid error", "gone", &mut previous), None);
    let line = report_distinct_error("hid error", "back", &mut previous);
    assert_eq!(line.as_deref(), Some("hid error: back"));
    assert_eq!(previous.as_deref(), Some("back"));
}

#[test]
fn times_beyond_the_clock_are_not_expected() {
    let mut daemon = Daemon::start(settings(), 0);
    let last = 9_223_372_036_854_775_807_999_999_999;
    assert!(!daemon.expects(&Event::CycleStarted { now: last + 1 }));
    let (action, _) = step(&mut daemon, Event::CycleStarted { now: last });
    assert!(matches!(action, Action::QueryHeadset));
}
