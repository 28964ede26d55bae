//! The daemon's cycle: ask for the headset, follow its state, keep the sound where it belongs.
use vstd::prelude::*;

use crate::hid::{state_text, HeadsetState};
use crate::number::{decimal, decimal_text};
use crate::reconcile::{ReconcileResult, ResultView};
use crate::text::{chars_of, same_text, text_of, trim, trimmed};
use crate::time::{LAST_INSTANT, MILLISECOND, SECOND};

verus! {

/// How long to leave the dongle alone after it could not be asked, in nanoseconds.
pub const HID_ERROR_RETRY_DELAY: u128 = 2_000_000_000;

/// How long to leave the sound server alone after something failed there, in nanoseconds.
pub const AUDIO_ERROR_RETRY_DELAY: u128 = 1_000_000_000;

/// How often in a row the dongle may fail before the headset counts as off.
pub const HID_FAILURES_BEFORE_DISCONNECT: u8 = 2;

/// How the daemon runs.
#[derive(Debug, Clone, Copy)]
pub struct Settings {
    /// How long a cycle takes at least, in milliseconds.
    pub poll_ms: u64,
    /// How often the routing is verified, in seconds.
    pub audio_verify_secs: u64,
    /// Whether to stop after one cycle.
    pub once: bool,
    /// Whether to report a pass that changed nothing.
    pub verbose: bool,
}

/// Where in its cycle the daemon is. `started` is when the cycle began, `observed` the state of
/// the headset that it goes by.
#[derive(Debug, Clone, Copy, PartialEq, Eq, Structural)]
pub enum Phase {
    /// Between two cycles.
    Idle,
    /// The headset is asked for its state.
    AskingHeadset { started: u128 },
    /// The clock is read to see whether the routing is to be verified.
    ReadingClock { started: u128, observed: HeadsetState },
    /// The connection to the sound server is looked at.
    CheckingHealth { started: u128, observed: HeadsetState },
    /// A connection to the sound server is made.
    Connecting { started: u128, observed: HeadsetState },
    /// The sound is routed.
    Reconciling { started: u128, observed: HeadsetState },
    /// The cycle is over but for its rest.
    Ending { started: u128 },
    /// The daemon has stopped.
    Stopped,
}

/// When the current cycle began.
pub open spec fn cycle_start(phase: Phase) -> u128 {
    match phase {
        Phase::Idle => 0,
        Phase::AskingHeadset { started } => started,
        Phase::ReadingClock { started, .. } => started,
        Phase::CheckingHealth { started, .. } => started,
        Phase::Connecting { started, .. } => started,
        Phase::Reconciling { started, .. } => started,
        Phase::Ending { started } => started,
        Phase::Stopped => 0,
    }
}

/// The daemon in the model.
pub struct DaemonView {
    /// The state of the headset that was last announced.
    pub last_reported: Option<HeadsetState>,
    /// The state of the headset that the sound is routed by.
    pub routing_state: Option<HeadsetState>,
    /// Whether the sound is to be routed.
    pub reconcile_pending: bool,
    /// When the dongle may be asked again.
    pub next_hid_query: u128,
    /// When the sound server may be talked to again.
    pub next_audio_attempt: u128,
    /// When the routing is to be verified.
    pub next_audio_verification: u128,
    /// When streams that could not be moved are to be tried again, if there are any.
    pub next_move_retry: Option<u128>,
    /// The output that the sound was last routed to.
    pub last_target: Option<Seq<char>>,
    /// The last message about the dongle, as long as the failure lasts.
    pub last_hid_error: Option<Seq<char>>,
    /// How often in a row the dongle has failed.
    pub hid_failures: u8,
    /// The last message about the sound server, as long as the failure lasts.
    pub last_audio_error: Option<Seq<char>>,
    /// Whether there is a connection to the sound server, in working order or not.
    pub has_connection: bool,
    pub phase: Phase,
}

/// What came of the last step.
#[derive(Debug)]
pub enum Event {
    /// A cycle begins.
    CycleStarted { now: u128 },
    /// The state of the headset, or why it is unknown.
    Headset(Result<HeadsetState, String>),
    /// The time, and whether something changed at the sound server since the last cycle.
    Clock { now: u128, audio_changed: bool },
    /// Whether the connection to the sound server is in working order.
    Health(bool),
    /// There is a new connection to the sound server.
    Connected,
    /// There is no new connection to the sound server.
    ConnectFailed { message: String, now: u128 },
    /// The sound was routed.
    Reconciled { result: ReconcileResult, now: u128 },
    /// The sound was not routed.
    ReconcileFailed { message: String, now: u128 },
    /// The cycle is over but for its rest.
    CycleEnded { now: u128 },
}

/// What came of the last step, in the model.
pub enum EventView {
    CycleStarted { now: u128 },
    Headset(Result<HeadsetState, Seq<char>>),
    Clock { now: u128, audio_changed: bool },
    Health(bool),
    Connected,
    ConnectFailed { message: Seq<char>, now: u128 },
    Reconciled { result: ResultView, now: u128 },
    ReconcileFailed { message: Seq<char>, now: u128 },
    CycleEnded { now: u128 },
}

impl View for Event {
    type V = EventView;

    open spec fn view(&self) -> EventView {
        match self {
            Event::CycleStarted { now } => EventView::CycleStarted { now: *now },
            Event::Headset(Ok(state)) => EventView::Headset(Ok(*state)),
            Event::Headset(Err(message)) => EventView::Headset(Err(message@)),
            Event::Clock { now, audio_changed } => EventView::Clock {
                now: *now,
                audio_changed: *audio_changed,
            },
            Event::Health(healthy) => EventView::Health(*healthy),
            Event::Connected => EventView::Connected,
            Event::ConnectFailed { message, now } => EventView::ConnectFailed {
                message: message@,
                now: *now,
            },
            Event::Reconciled { result, now } => EventView::Reconciled {
                result: result@,
                now: *now,
            },
            Event::ReconcileFailed { message, now } => EventView::ReconcileFailed {
                message: message@,
                now: *now,
            },
            Event::CycleEnded { now } => EventView::CycleEnded { now: *now },
        }
    }
}

/// What to do next.
#[derive(Debug)]
pub enum Action {
    /// Ask for the state of the headset.
    QueryHeadset,
    /// Read the clock, and whether something changed at the sound server.
    ReadClock,
    /// Look at the connection to the sound server.
    CheckHealth,
    /// Connect to the sound server.
    Connect,
    /// Replace the connection to the sound server.
    Reconnect,
    /// Route the sound for that state of the headset.
    Reconcile(HeadsetState),
    /// Read the clock at the end of the cycle.
    EndCycle,
    /// Rest for so many nanoseconds, then begin a cycle.
    Sleep(u128),
    /// Stop, with a message if something failed.
    Exit(Result<(), String>),
}

/// What to do next, in the model.
pub enum ActionView {
    QueryHeadset,
    ReadClock,
    CheckHealth,
    Connect,
    Reconnect,
    Reconcile(HeadsetState),
    EndCycle,
    Sleep(nat),
    Exit(Result<(), Seq<char>>),
}

impl View for Action {
    type V = ActionView;

    open spec fn view(&self) -> ActionView {
        match self {
            Action::QueryHeadset => ActionView::QueryHeadset,
            Action::ReadClock => ActionView::ReadClock,
            Action::CheckHealth => ActionView::CheckHealth,
            Action::Connect => ActionView::Connect,
            Action::Reconnect => ActionView::Reconnect,
            Action::Reconcile(state) => ActionView::Reconcile(*state),
            Action::EndCycle => ActionView::EndCycle,
            Action::Sleep(nanos) => ActionView::Sleep(*nanos as nat),
            Action::Exit(Ok(())) => ActionView::Exit(Ok(())),
            Action::Exit(Err(message)) => ActionView::Exit(Err(message@)),
        }
    }
}

/// The line that reports an error; none if it is the one that was reported last.
pub open spec fn distinct_line(
    prefix: Seq<char>,
    message: Seq<char>,
    previous: Option<Seq<char>>,
) -> Option<Seq<char>> {
    if previous == Some(message) {
        None
    } else {
        Some(prefix + ": "@ + message)
    }
}

/// The line that reports `message`; none if it is the one that was reported last.
pub fn report_distinct_error(prefix: &str, message: &str, previous: &mut Option<String>) -> (line:
    Option<String>)
    ensures
        text_of(line) == distinct_line(prefix@, message@, text_of(*old(previous))),
        text_of(*final(previous)) == Some(message@),
{
    let repeated = match &*previous {
        Some(text) => same_text(text.as_str(), message),
        None => false,
    };
    if repeated {
        None
    } else {
        *previous = Some(message.to_owned());
        Some(prefix.to_owned().concat(": ").concat(message))
    }
}

/// Whether a configured name is nothing but white space.
pub fn is_blank(name: &str) -> (r: bool)
    ensures
        r == (trimmed(name@).len() == 0),
{
    trim(&chars_of(name)).len() == 0
}

/// A truth value in words.
pub open spec fn bool_text(value: bool) -> Seq<char> {
    if value {
        "true"@
    } else {
        "false"@
    }
}

/// The line that reports where the sound goes.
pub open spec fn target_line(result: ResultView) -> Seq<char> {
    "audio target: "@ + result.target_name + " (default_changed="@ + bool_text(
        result.default_changed,
    ) + ", moved_streams="@ + decimal_text(result.moved_streams) + ", failed_stream_moves="@
        + decimal_text(result.failed_stream_moves) + ")"@
}

/// A truth value in words.
fn show_bool(value: bool) -> (text: &'static str)
    ensures
        text@ == bool_text(value),
{
    if value {
        "true"
    } else {
        "false"
    }
}

/// The line that reports where the sound goes.
fn show_target(result: &ReconcileResult) -> (text: String)
    ensures
        text@ == target_line(result@),
{
    "audio target: ".to_owned().concat(result.target_name.as_str()).concat(
        " (default_changed=",
    ).concat(show_bool(result.default_changed)).concat(", moved_streams=").concat(
        decimal(result.moved_streams as u64).as_str(),
    ).concat(", failed_stream_moves=").concat(
        decimal(result.failed_stream_moves as u64).as_str(),
    ).concat(")")
}

/// Whether an event can come of what was done in that phase.
pub open spec fn daemon_expects(phase: Phase, event: EventView) -> bool {
    &&& cycle_start(phase) <= LAST_INSTANT
    &&& match event {
        EventView::CycleStarted { now } => phase is Idle && now <= LAST_INSTANT,
        EventView::Headset(_) => phase is AskingHeadset,
        EventView::Clock { .. } => phase is ReadingClock,
        EventView::Health(_) => phase is CheckingHealth,
        EventView::Connected => phase is Connecting,
        EventView::ConnectFailed { now, .. } => phase is Connecting && now <= LAST_INSTANT,
        EventView::Reconciled { now, .. } => phase is Reconciling && now <= LAST_INSTANT,
        EventView::ReconcileFailed { now, .. } => phase is Reconciling && now <= LAST_INSTANT,
        EventView::CycleEnded { .. } => phase is Ending,
    }
}

/// The state to go by while nothing new is known of the headset.
pub open spec fn held_state(daemon: DaemonView) -> HeadsetState {
    match daemon.routing_state {
        Some(state) => state,
        None => HeadsetState::Disconnected,
    }
}

/// The daemon goes by `observed`. A change has the sound routed at once.
pub open spec fn observing(daemon: DaemonView, started: u128, observed: HeadsetState) -> DaemonView {
    let phase = Phase::ReadingClock { started, observed };
    if daemon.routing_state == Some(observed) {
        DaemonView { phase, ..daemon }
    } else {
        DaemonView {
            routing_state: Some(observed),
            reconcile_pending: true,
            next_audio_attempt: started,
            phase,
            ..daemon
        }
    }
}

/// Whether streams that could not be moved are to be tried again.
pub open spec fn is_retry_due(daemon: DaemonView, now: u128) -> bool {
    daemon.next_move_retry matches Some(time) && now >= time
}

/// The end of a cycle.
pub open spec fn ending(settings: Settings, daemon: DaemonView, started: u128) -> (
    DaemonView,
    ActionView,
) {
    if settings.once {
        (DaemonView { phase: Phase::Stopped, ..daemon }, ActionView::Exit(Ok(())))
    } else {
        (DaemonView { phase: Phase::Ending { started }, ..daemon }, ActionView::EndCycle)
    }
}

/// What a step comes to: the daemon after it, what to do next, and the line to report, if any.
pub struct StepView {
    pub daemon: DaemonView,
    pub action: ActionView,
    pub line: Option<Seq<char>>,
}

/// The dongle told the state of the headset.
pub open spec fn headset_told(daemon: DaemonView, started: u128, state: HeadsetState) -> StepView {
    StepView {
        daemon: observing(
            DaemonView {
                last_reported: Some(state),
                last_hid_error: None,
                hid_failures: 0,
                next_hid_query: started,
                ..daemon
            },
            started,
            state,
        ),
        action: ActionView::ReadClock,
        line: if daemon.last_reported == Some(state) {
            None
        } else {
            Some("headset state: "@ + state_text(state))
        },
    }
}

/// The dongle could not be asked. One failure changes nothing yet; from the second in a row on
/// the headset counts as off.
pub open spec fn headset_failed(
    settings: Settings,
    daemon: DaemonView,
    started: u128,
    message: Seq<char>,
) -> StepView {
    let line = distinct_line("hid error"@, message, daemon.last_hid_error);
    let noted = DaemonView { last_hid_error: Some(message), ..daemon };
    if settings.once {
        StepView {
            daemon: DaemonView { phase: Phase::Stopped, ..noted },
            action: ActionView::Exit(Err(message)),
            line,
        }
    } else {
        let failures: u8 = if daemon.hid_failures == u8::MAX {
            u8::MAX
        } else {
            (daemon.hid_failures + 1) as u8
        };
        StepView {
            daemon: observing(
                DaemonView {
                    last_reported: None,
                    next_hid_query: (started + HID_ERROR_RETRY_DELAY) as u128,
                    hid_failures: failures,
                    ..noted
                },
                started,
                if failures >= HID_FAILURES_BEFORE_DISCONNECT {
                    HeadsetState::Disconnected
                } else {
                    held_state(daemon)
                },
            ),
            action: ActionView::ReadClock,
            line,
        }
    }
}

/// Something failed at the sound server; it is left alone for a while.
pub open spec fn audio_failed(
    settings: Settings,
    daemon: DaemonView,
    started: u128,
    message: Seq<char>,
    now: u128,
) -> StepView {
    let noted = DaemonView {
        last_audio_error: Some(message),
        next_audio_attempt: (now + AUDIO_ERROR_RETRY_DELAY) as u128,
        ..daemon
    };
    let line = distinct_line("audio error"@, message, daemon.last_audio_error);
    if settings.once {
        StepView {
            daemon: DaemonView { phase: Phase::Stopped, ..noted },
            action: ActionView::Exit(Err(message)),
            line,
        }
    } else {
        let (daemon, action) = ending(settings, noted, started);
        StepView { daemon, action, line }
    }
}

/// The sound was routed. Where streams could not be moved, that is tried again after a while.
pub open spec fn reconciled(
    settings: Settings,
    daemon: DaemonView,
    started: u128,
    result: ResultView,
    now: u128,
) -> StepView {
    let (after, action) = ending(
        settings,
        DaemonView {
            last_audio_error: None,
            last_target: Some(result.target_name),
            reconcile_pending: false,
            next_audio_attempt: started,
            next_audio_verification: (now + settings.audio_verify_secs * SECOND) as u128,
            next_move_retry: if result.failed_stream_moves > 0 {
                Some((now + AUDIO_ERROR_RETRY_DELAY) as u128)
            } else {
                None
            },
            ..daemon
        },
        started,
    );
    StepView {
        daemon: after,
        action,
        line: if daemon.last_target != Some(result.target_name) || result.default_changed
            || result.moved_streams > 0 || result.failed_stream_moves > 0 || settings.verbose {
            Some(target_line(result))
        } else {
            None
        },
    }
}

/// The course of the daemon.
pub open spec fn daemon_step(settings: Settings, daemon: DaemonView, event: EventView) -> StepView {
    let started = cycle_start(daemon.phase);
    match event {
        EventView::CycleStarted { now } => if now < daemon.next_hid_query {
            StepView {
                daemon: observing(daemon, now, held_state(daemon)),
                action: ActionView::ReadClock,
                line: None,
            }
        } else {
            StepView {
                daemon: DaemonView { phase: Phase::AskingHeadset { started: now }, ..daemon },
                action: ActionView::QueryHeadset,
                line: None,
            }
        },
        EventView::Headset(Ok(state)) => headset_told(daemon, started, state),
        EventView::Headset(Err(message)) => headset_failed(settings, daemon, started, message),
        EventView::Clock { now, audio_changed } => {
            let observed = daemon.phase->ReadingClock_observed;
            let due = DaemonView {
                reconcile_pending: daemon.reconcile_pending || now
                    >= daemon.next_audio_verification || audio_changed || is_retry_due(daemon, now),
                ..daemon
            };
            if due.reconcile_pending && started >= due.next_audio_attempt {
                if due.has_connection {
                    StepView {
                        daemon: DaemonView {
                            phase: Phase::CheckingHealth { started, observed },
                            ..due
                        },
                        action: ActionView::CheckHealth,
                        line: None,
                    }
                } else {
                    StepView {
                        daemon: DaemonView { phase: Phase::Connecting { started, observed }, ..due },
                        action: ActionView::Connect,
                        line: None,
                    }
                }
            } else {
                let (daemon, action) = ending(settings, due, started);
                StepView { daemon, action, line: None }
            }
        },
        EventView::Health(healthy) => {
            let observed = daemon.phase->CheckingHealth_observed;
            if healthy {
                StepView {
                    daemon: DaemonView { phase: Phase::Reconciling { started, observed }, ..daemon },
                    action: ActionView::Reconcile(observed),
                    line: None,
                }
            } else {
                StepView {
                    daemon: DaemonView { phase: Phase::Connecting { started, observed }, ..daemon },
                    action: ActionView::Reconnect,
                    line: None,
                }
            }
        },
        EventView::Connected => {
            let observed = daemon.phase->Connecting_observed;
            StepView {
                daemon: DaemonView {
                    has_connection: true,
                    phase: Phase::Reconciling { started, observed },
                    ..daemon
                },
                action: ActionView::Reconcile(observed),
                line: None,
            }
        },
        EventView::ConnectFailed { message, now } => audio_failed(
            settings,
            daemon,
            started,
            message,
            now,
        ),
        EventView::Reconciled { result, now } => reconciled(settings, daemon, started, result, now),
        EventView::ReconcileFailed { message, now } => audio_failed(
            settings,
            daemon,
            started,
            message,
            now,
        ),
        EventView::CycleEnded { now } => {
            let poll = settings.poll_ms * MILLISECOND;
            let elapsed = if now >= started {
                now - started
            } else {
                0
            };
            StepView {
                daemon: DaemonView { phase: Phase::Idle, ..daemon },
                action: ActionView::Sleep(
                    if poll >= elapsed {
                        (poll - elapsed) as nat
                    } else {
                        0
                    },
                ),
                line: None,
            }
        },
    }
}

/// The daemon between its steps.
#[derive(Debug)]
pub struct Daemon {
    settings: Settings,
    last_reported: Option<HeadsetState>,
    routing_state: Option<HeadsetState>,
    reconcile_pending: bool,
    next_hid_query: u128,
    next_audio_attempt: u128,
    next_audio_verification: u128,
    next_move_retry: Option<u128>,
    last_target: Option<String>,
    last_hid_error: Option<String>,
    hid_failures: u8,
    last_audio_error: Option<String>,
    has_connection: bool,
    phase: Phase,
}

impl View for Daemon {
    type V = DaemonView;

    closed spec fn view(&self) -> DaemonView {
        DaemonView {
            last_reported: self.last_reported,
            routing_state: self.routing_state,
            reconcile_pending: self.reconcile_pending,
            next_hid_query: self.next_hid_query,
            next_audio_attempt: self.next_audio_attempt,
            next_audio_verification: self.next_audio_verification,
            next_move_retry: self.next_move_retry,
            last_target: text_of(self.last_target),
            last_hid_error: text_of(self.last_hid_error),
            hid_failures: self.hid_failures,
            last_audio_error: text_of(self.last_audio_error),
            has_connection: self.has_connection,
            phase: self.phase,
        }
    }
}

/// A daemon that has just started.
pub open spec fn started_at(now: u128) -> DaemonView {
    DaemonView {
        last_reported: None,
        routing_state: None,
        reconcile_pending: true,
        next_hid_query: now,
        next_audio_attempt: now,
        next_audio_verification: now,
        next_move_retry: None,
        last_target: None,
        last_hid_error: None,
        hid_failures: 0,
        last_audio_error: None,
        has_connection: false,
        phase: Phase::Idle,
    }
}

impl Daemon {
    /// How the daemon runs.
    pub closed spec fn settings(&self) -> Settings {
        self.settings
    }

    /// Starts the daemon.
    pub fn start(settings: Settings, now: u128) -> (r: Self)
        ensures
            r.settings() == settings,
            r@ == started_at(now),
    {
        Daemon {
            settings,
            last_reported: None,
            routing_state: None,
            reconcile_pending: true,
            next_hid_query: now,
            next_audio_attempt: now,
            next_audio_verification: now,
            next_move_retry: None,
            last_target: None,
            last_hid_error: None,
            hid_failures: 0,
            last_audio_error: None,
            has_connection: false,
            phase: Phase::Idle,
        }
    }

    /// When the current cycle began.
    fn started(&self) -> (r: u128)
        ensures
            r == cycle_start(self@.phase),
    {
        match self.phase {
            Phase::Idle => 0,
            Phase::AskingHeadset { started } => started,
            Phase::ReadingClock { started, .. } => started,
            Phase::CheckingHealth { started, .. } => started,
            Phase::Connecting { started, .. } => started,
            Phase::Reconciling { started, .. } => started,
            Phase::Ending { started } => started,
            Phase::Stopped => 0,
        }
    }

    /// Whether `event` can come of what was done last.
    pub fn expects(&self, event: &Event) -> (r: bool)
        ensures
            r == daemon_expects(self@.phase, event@),
    {
        self.started() <= LAST_INSTANT && match (self.phase, event) {
            (Phase::Idle, Event::CycleStarted { now }) => *now <= LAST_INSTANT,
            (Phase::AskingHeadset { .. }, Event::Headset(_)) => true,
            (Phase::ReadingClock { .. }, Event::Clock { .. }) => true,
            (Phase::CheckingHealth { .. }, Event::Health(_)) => true,
            (Phase::Connecting { .. }, Event::Connected) => true,
            (Phase::Connecting { .. }, Event::ConnectFailed { now, .. }) => *now <= LAST_INSTANT,
            (Phase::Reconciling { .. }, Event::Reconciled { now, .. }) => *now <= LAST_INSTANT,
            (Phase::Reconciling { .. }, Event::ReconcileFailed { now, .. }) => *now
                <= LAST_INSTANT,
            (Phase::Ending { .. }, Event::CycleEnded { .. }) => true,
            _ => false,
        }
    }

    /// The state to go by while nothing new is known of the headset.
    fn held(&self) -> (r: HeadsetState)
        ensures
            r == held_state(self@),
    {
        match self.routing_state {
            Some(state) => state,
            None => HeadsetState::Disconnected,
        }
    }

    /// Goes by `observed` from now on.
    fn observe(&mut self, started: u128, observed: HeadsetState) -> (action: Action)
        ensures
            final(self)@ == observing(old(self)@, started, observed),
            final(self).settings() == old(self).settings(),
            action@ == ActionView::ReadClock,
    {
        let unchanged = match self.routing_state {
            Some(state) => state == observed,
            None => false,
        };
        if !unchanged {
            self.routing_state = Some(observed);
            self.reconcile_pending = true;
            self.next_audio_attempt = started;
        }
        self.phase = Phase::ReadingClock { started, observed };
        Action::ReadClock
    }

    /// Ends the cycle.
    fn end(&mut self, started: u128) -> (action: Action)
        ensures
            (final(self)@, action@) == ending(old(self).settings(), old(self)@, started),
            final(self).settings() == old(self).settings(),
    {
        if self.settings.once {
            self.phase = Phase::Stopped;
            Action::Exit(Ok(()))
        } else {
            self.phase = Phase::Ending { started };
            Action::EndCycle
        }
    }

    /// The dongle told the state of the headset, or why it did not.
    fn on_headset(&mut self, started: u128, outcome: Result<HeadsetState, String>) -> (r: (
        Action,
        Option<String>,
    ))
        requires
            started <= LAST_INSTANT,
        ensures
            (StepView { daemon: final(self)@, action: r.0@, line: text_of(r.1) }) == match outcome {
                Ok(state) => headset_told(old(self)@, started, state),
                Err(message) => headset_failed(
                    old(self).settings(),
                    old(self)@,
                    started,
                    message@,
                ),
            },
            final(self).settings() == old(self).settings(),
    {
        match outcome {
            Ok(state) => {
                self.last_hid_error = None;
                self.hid_failures = 0;
                self.next_hid_query = started;
                let known = match self.last_reported {
                    Some(reported) => reported == state,
                    None => false,
                };
                self.last_reported = Some(state);
                let line = if known {
                    None
                } else {
                    Some("headset state: ".to_owned().concat(state.label()))
                };
                (self.observe(started, state), line)
            },
            Err(message) => {
                let line = report_distinct_error(
                    "hid error",
                    message.as_str(),
                    &mut self.last_hid_error,
                );
                if self.settings.once {
                    self.phase = Phase::Stopped;
                    return (Action::Exit(Err(message)), line);
                }
                self.next_hid_query = started + HID_ERROR_RETRY_DELAY;
                self.last_reported = None;
                if self.hid_failures < 255 {
                    self.hid_failures = self.hid_failures + 1;
                }
                let observed = if self.hid_failures >= HID_FAILURES_BEFORE_DISCONNECT {
                    HeadsetState::Disconnected
                } else {
                    self.held()
                };
                (self.observe(started, observed), line)
            },
        }
    }

    /// Something failed at the sound server.
    fn on_audio_failure(&mut self, started: u128, message: String, now: u128) -> (r: (
        Action,
        Option<String>,
    ))
        requires
            now <= LAST_INSTANT,
        ensures
            (StepView { daemon: final(self)@, action: r.0@, line: text_of(r.1) }) == audio_failed(
                old(self).settings(),
                old(self)@,
                started,
                message@,
                now,
            ),
            final(self).settings() == old(self).settings(),
    {
        let line = report_distinct_error(
            "audio error",
            message.as_str(),
            &mut self.last_audio_error,
        );
        self.next_audio_attempt = now + AUDIO_ERROR_RETRY_DELAY;
        if self.settings.once {
            self.phase = Phase::Stopped;
            (Action::Exit(Err(message)), line)
        } else {
            (self.end(started), line)
        }
    }

    /// The sound was routed.
    fn on_reconciled(&mut self, started: u128, result: ReconcileResult, now: u128) -> (r: (
        Action,
        Option<String>,
    ))
        requires
            now <= LAST_INSTANT,
        ensures
            (StepView { daemon: final(self)@, action: r.0@, line: text_of(r.1) }) == reconciled(
                old(self).settings(),
                old(self)@,
                started,
                result@,
                now,
            ),
            final(self).settings() == old(self).settings(),
    {
        let target_changed = match &self.last_target {
            Some(name) => !same_text(name.as_str(), result.target_name.as_str()),
            None => true,
        };
        let line = if target_changed || result.default_changed || result.moved_streams > 0
            || result.failed_stream_moves > 0 || self.settings.verbose {
            Some(show_target(&result))
        } else {
            None
        };
        self.last_audio_error = None;
        self.last_target = Some(result.target_name);
        self.reconcile_pending = false;
        self.next_audio_attempt = started;
        self.next_move_retry = if result.failed_stream_moves > 0 {
            Some(now + AUDIO_ERROR_RETRY_DELAY)
        } else {
            None
        };
        self.next_audio_verification = now + self.settings.audio_verify_secs as u128 * SECOND;
        (self.end(started), line)
    }

    /// Takes what came of the last step, says what to do next, and gives a line to report, if any.
    pub fn step(&mut self, event: Event) -> (r: (Action, Option<String>))
        requires
            daemon_expects(old(self)@.phase, event@),
        ensures
            (StepView { daemon: final(self)@, action: r.0@, line: text_of(r.1) }) == daemon_step(
                old(self).settings(),
                old(self)@,
                event@,
            ),
            final(self).settings() == old(self).settings(),
    {
        let started: u128 = self.started();
        match event {
            Event::CycleStarted { now } => {
                if now < self.next_hid_query {
                    let held = self.held();
                    (self.observe(now, held), None)
                } else {
                    self.phase = Phase::AskingHeadset { started: now };
                    (Action::QueryHeadset, None)
                }
            },
            Event::Headset(outcome) => self.on_headset(started, outcome),
            Event::Clock { now, audio_changed } => {
                let retry_due = match self.next_move_retry {
                    Some(time) => now >= time,
                    None => false,
                };
                if now >= self.next_audio_verification || audio_changed || retry_due {
                    self.reconcile_pending = true;
                }
                if self.reconcile_pending && started >= self.next_audio_attempt {
                    if let Phase::ReadingClock { observed, .. } = self.phase {
                        if self.has_connection {
                            self.phase = Phase::CheckingHealth { started, observed };
                            return (Action::CheckHealth, None);
                        }
                        self.phase = Phase::Connecting { started, observed };
                    }
                    (Action::Connect, None)
                } else {
                    (self.end(started), None)
                }
            },
            Event::Health(healthy) => {
                if let Phase::CheckingHealth { observed, .. } = self.phase {
                    if healthy {
                        self.phase = Phase::Reconciling { started, observed };
                        return (Action::Reconcile(observed), None);
                    }
                    self.phase = Phase::Connecting { started, observed };
                }
                (Action::Reconnect, None)
            },
            Event::Connected => {
                self.has_connection = true;
                let mut state: HeadsetState = HeadsetState::Disconnected;
                if let Phase::Connecting { observed, .. } = self.phase {
                    self.phase = Phase::Reconciling { started, observed };
                    state = observed;
                }
                (Action::Reconcile(state), None)
            },
            Event::ConnectFailed { message, now } => self.on_audio_failure(started, message, now),
            Event::Reconciled { result, now } => self.on_reconciled(started, result, now),
            Event::ReconcileFailed { message, now } => {
                self.on_audio_failure(started, message, now)
            },
            Event::CycleEnded { now } => {
                let poll: u128 = self.settings.poll_ms as u128 * MILLISECOND;
                let elapsed: u128 = if now >= started {
                    now - started
                } else {
                    0
                };
                self.phase = Phase::Idle;
                (
                    Action::Sleep(
                        if poll >= elapsed {
                            poll - elapsed
                        } else {
                            0
                        },
                    ),
                    None,
                )
            },
        }
    }
}

} // verus!
