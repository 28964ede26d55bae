//! What holds of every step of the daemon, whatever happened before it.
use vstd::prelude::*;

use crate::daemon::{
    daemon_expects, daemon_step, started_at, ActionView, DaemonView, EventView, Phase, Settings,
};
use crate::hid::HeadsetState;
use crate::number::decimal_text;
use crate::reconcile::ResultView;

verus! {

/// A daemon that starts knows nothing of the headset, has no connection, and may do everything at
/// once; the sound is still to be routed.
pub proof fn daemon_starts_afresh(now: u128)
    ensures
        ({
            let daemon = started_at(now);
            &&& daemon.last_reported is None
            &&& daemon.routing_state is None
            &&& daemon.reconcile_pending
            &&& daemon.next_hid_query == now
            &&& daemon.next_audio_attempt == now
            &&& daemon.next_audio_verification == now
            &&& daemon.next_move_retry is None
            &&& daemon.last_target is None
            &&& daemon.last_hid_error is None
            &&& daemon.hid_failures == 0
            &&& daemon.last_audio_error is None
            &&& !daemon.has_connection
            &&& daemon.phase == Phase::Idle
        }),
{
}

/// A cycle begins with a question to the headset, as soon as it may be asked. Until then the daemon
/// goes on by the state that it has, or takes the headset to be off.
pub proof fn cycle_begins_with_a_question(settings: Settings, daemon: DaemonView, now: u128)
    ensures
        ({
            let step = daemon_step(settings, daemon, EventView::CycleStarted { now });
            &&& step.line is None
            &&& now >= daemon.next_hid_query ==> step.action == ActionView::QueryHeadset
                && step.daemon == (DaemonView {
                phase: Phase::AskingHeadset { started: now },
                ..daemon
            })
            &&& now < daemon.next_hid_query ==> step.action == ActionView::ReadClock
            &&& now < daemon.next_hid_query && daemon.routing_state is Some ==> step.daemon == (
            DaemonView {
                phase: Phase::ReadingClock { started: now, observed: daemon.routing_state->0 },
                ..daemon
            })
            &&& now < daemon.next_hid_query && daemon.routing_state is None ==> step.daemon == (
            DaemonView {
                routing_state: Some(HeadsetState::Disconnected),
                reconcile_pending: true,
                next_audio_attempt: now,
                phase: Phase::ReadingClock { started: now, observed: HeadsetState::Disconnected },
                ..daemon
            })
        }),
{
}

/// Whatever failures came before it, an answer of the headset is what the daemon goes by from then
/// on: the failures are forgotten, the headset may be asked again at once, and a state that is new
/// has the sound routed in this cycle, even while the sound server is left alone. A state that was
/// not the last one to be told is told.
pub proof fn every_answer_is_followed(
    settings: Settings,
    daemon: DaemonView,
    started: u128,
    state: HeadsetState,
)
    requires
        daemon.phase == (Phase::AskingHeadset { started }),
    ensures
        ({
            let step = daemon_step(settings, daemon, EventView::Headset(Ok(state)));
            let is_new = daemon.routing_state != Some(state);
            &&& step.action == ActionView::ReadClock
            &&& step.daemon == (DaemonView {
                last_reported: Some(state),
                routing_state: Some(state),
                reconcile_pending: daemon.reconcile_pending || is_new,
                next_hid_query: started,
                next_audio_attempt: if is_new {
                    started
                } else {
                    daemon.next_audio_attempt
                },
                last_hid_error: None,
                hid_failures: 0,
                phase: Phase::ReadingClock { started, observed: state },
                ..daemon
            })
            &&& daemon.last_reported == Some(state) <==> step.line is None
            &&& step.line matches Some(line) ==> line == "headset state: "@ + match state {
                HeadsetState::Connected => "connected"@,
                HeadsetState::Disconnected => "disconnected"@,
            }
        }),
{
}

/// A failure of the headset to answer is counted, and keeps it from being asked for two seconds.
/// The first in a row leaves the state as it is; from the second on the headset counts as off,
/// which has the sound routed at once where that is new. The failure is told unless it was the last
/// one told. A daemon that runs once stops with it.
pub proof fn every_failure_to_answer_is_counted(
    settings: Settings,
    daemon: DaemonView,
    started: u128,
    message: Seq<char>,
)
    requires
        daemon.phase == (Phase::AskingHeadset { started }),
        started + 2_000_000_000 <= u128::MAX,
    ensures
        ({
            let step = daemon_step(settings, daemon, EventView::Headset(Err(message)));
            let observed = if daemon.hid_failures == 0 && daemon.routing_state is Some {
                daemon.routing_state->0
            } else {
                HeadsetState::Disconnected
            };
            let is_new = daemon.routing_state != Some(observed);
            &&& step.line is None <==> daemon.last_hid_error == Some(message)
            &&& step.line matches Some(line) ==> line == "hid error"@ + ": "@ + message
            &&& settings.once ==> step.action == ActionView::Exit(Err(message)) && step.daemon == (
            DaemonView { last_hid_error: Some(message), phase: Phase::Stopped, ..daemon })
            &&& !settings.once ==> step.action == ActionView::ReadClock && step.daemon == (
            DaemonView {
                last_reported: None,
                routing_state: Some(observed),
                reconcile_pending: daemon.reconcile_pending || is_new,
                next_hid_query: (started + 2_000_000_000) as u128,
                next_audio_attempt: if is_new {
                    started
                } else {
                    daemon.next_audio_attempt
                },
                last_hid_error: Some(message),
                hid_failures: if daemon.hid_failures < 255 {
                    (daemon.hid_failures + 1) as u8
                } else {
                    255
                },
                phase: Phase::ReadingClock { started, observed },
                ..daemon
            })
        }),
{
}

/// The sound is routed in a cycle if that is still to be done, if the routing is to be verified, if
/// something changed at the sound server, or if streams are to be tried again, and the cycle
/// began when the server may be talked to. Else the cycle is over, and what is still to be done
/// stays so.
pub proof fn sound_is_routed_whenever_there_is_a_reason(
    settings: Settings,
    daemon: DaemonView,
    started: u128,
    observed: HeadsetState,
    now: u128,
    audio_changed: bool,
)
    requires
        daemon.phase == (Phase::ReadingClock { started, observed }),
    ensures
        ({
            let step = daemon_step(settings, daemon, EventView::Clock { now, audio_changed });
            let reason = daemon.reconcile_pending || now >= daemon.next_audio_verification
                || audio_changed || (daemon.next_move_retry is Some && now
                >= daemon.next_move_retry->0);
            let routes = reason && started >= daemon.next_audio_attempt;
            &&& step.line is None
            &&& step.daemon == (DaemonView {
                reconcile_pending: reason,
                phase: if routes && daemon.has_connection {
                    Phase::CheckingHealth { started, observed }
                } else if routes {
                    Phase::Connecting { started, observed }
                } else if settings.once {
                    Phase::Stopped
                } else {
                    Phase::Ending { started }
                },
                ..daemon
            })
            &&& routes && daemon.has_connection ==> step.action == ActionView::CheckHealth
            &&& routes && !daemon.has_connection ==> step.action == ActionView::Connect
            &&& !routes && settings.once ==> step.action == ActionView::Exit(Ok(()))
            &&& !routes && !settings.once ==> step.action == ActionView::EndCycle
        }),
{
}

/// A connection in working order is routed over for the state that was observed; one that is not is
/// replaced first. Nothing else changes.
pub proof fn connection_is_used_or_replaced(
    settings: Settings,
    daemon: DaemonView,
    started: u128,
    observed: HeadsetState,
    healthy: bool,
)
    requires
        daemon.phase == (Phase::CheckingHealth { started, observed }),
    ensures
        ({
            let step = daemon_step(settings, daemon, EventView::Health(healthy));
            &&& step.line is None
            &&& healthy ==> step.action == ActionView::Reconcile(observed) && step.daemon == (
            DaemonView { phase: Phase::Reconciling { started, observed }, ..daemon })
            &&& !healthy ==> step.action == ActionView::Reconnect && step.daemon == (DaemonView {
                phase: Phase::Connecting { started, observed },
                ..daemon
            })
        }),
{
}

/// Over a new connection the sound is routed for the state that was observed.
pub proof fn new_connection_is_used_at_once(
    settings: Settings,
    daemon: DaemonView,
    started: u128,
    observed: HeadsetState,
)
    requires
        daemon.phase == (Phase::Connecting { started, observed }),
    ensures
        ({
            let step = daemon_step(settings, daemon, EventView::Connected);
            &&& step.line is None
            &&& step.action == ActionView::Reconcile(observed)
            &&& step.daemon == (DaemonView {
                has_connection: true,
                phase: Phase::Reconciling { started, observed },
                ..daemon
            })
        }),
{
}

/// A failure to connect or to route keeps the sound server from being talked to for a second and
/// is told unless it was the last one told. It ends the cycle, or a daemon that runs once.
pub proof fn every_failure_at_the_server_is_waited_out(
    settings: Settings,
    daemon: DaemonView,
    started: u128,
    observed: HeadsetState,
    message: Seq<char>,
    now: u128,
    connecting: bool,
)
    requires
        daemon.phase == if connecting {
            Phase::Connecting { started, observed }
        } else {
            Phase::Reconciling { started, observed }
        },
        now + 1_000_000_000 <= u128::MAX,
    ensures
        ({
            let event = if connecting {
                EventView::ConnectFailed { message, now }
            } else {
                EventView::ReconcileFailed { message, now }
            };
            let step = daemon_step(settings, daemon, event);
            &&& step.line is None <==> daemon.last_audio_error == Some(message)
            &&& step.line matches Some(line) ==> line == "audio error"@ + ": "@ + message
            &&& step.daemon == (DaemonView {
                last_audio_error: Some(message),
                next_audio_attempt: (now + 1_000_000_000) as u128,
                phase: if settings.once {
                    Phase::Stopped
                } else {
                    Phase::Ending { started }
                },
                ..daemon
            })
            &&& settings.once ==> step.action == ActionView::Exit(Err(message))
            &&& !settings.once ==> step.action == ActionView::EndCycle
        }),
{
}

/// After the sound was routed nothing is left to be done but the verification after the interval,
/// and streams that could not be moved a second later; the server may be talked to at once. The
/// target is told where it is new, where something was changed or failed, and always by a verbose
/// daemon.
pub proof fn routing_is_noted_and_told(
    settings: Settings,
    daemon: DaemonView,
    started: u128,
    observed: HeadsetState,
    result: ResultView,
    now: u128,
)
    requires
        daemon.phase == (Phase::Reconciling { started, observed }),
        now + settings.audio_verify_secs * 1_000_000_000 <= u128::MAX,
        now + 1_000_000_000 <= u128::MAX,
    ensures
        ({
            let step = daemon_step(settings, daemon, EventView::Reconciled { result, now });
            &&& step.daemon == (DaemonView {
                reconcile_pending: false,
                next_audio_attempt: started,
                next_audio_verification: (now + settings.audio_verify_secs
                    * 1_000_000_000) as u128,
                next_move_retry: if result.failed_stream_moves > 0 {
                    Some((now + 1_000_000_000) as u128)
                } else {
                    None
                },
                last_target: Some(result.target_name),
                last_audio_error: None,
                phase: if settings.once {
                    Phase::Stopped
                } else {
                    Phase::Ending { started }
                },
                ..daemon
            })
            &&& settings.once ==> step.action == ActionView::Exit(Ok(()))
            &&& !settings.once ==> step.action == ActionView::EndCycle
            &&& step.line is None <==> daemon.last_target == Some(result.target_name)
                && !result.default_changed && result.moved_streams == 0
                && result.failed_stream_moves == 0 && !settings.verbose
            &&& step.line matches Some(line) ==> line == "audio target: "@ + result.target_name
                + " (default_changed="@ + if result.default_changed {
                "true"@
            } else {
                "false"@
            } + ", moved_streams="@ + decimal_text(result.moved_streams)
                + ", failed_stream_moves="@ + decimal_text(result.failed_stream_moves) + ")"@
        }),
{
}

/// A cycle rests until the poll interval is over, counted from its start; one that took longer does
/// not rest. Then the next one begins.
pub proof fn cycle_rests_until_the_next_poll(
    settings: Settings,
    daemon: DaemonView,
    started: u128,
    now: u128,
)
    requires
        daemon.phase == (Phase::Ending { started }),
    ensures
        ({
            let step = daemon_step(settings, daemon, EventView::CycleEnded { now });
            let poll = settings.poll_ms * 1_000_000;
            &&& step.line is None
            &&& step.daemon == (DaemonView { phase: Phase::Idle, ..daemon })
            &&& step.action matches ActionView::Sleep(nanos)
            &&& now >= started && now - started < poll ==> now - started + nanos == poll
            &&& now >= started && now - started >= poll ==> nanos == 0
            &&& now < started ==> nanos == poll
        }),
{
}

/// The daemon takes the outcome of what it asked for, and nothing else, at times that the clock can
/// show; a daemon that has stopped takes nothing.
pub proof fn daemon_takes_what_it_asked_for(phase: Phase, event: EventView)
    ensures
        ({
            let last: u128 = 9_223_372_036_854_775_807_999_999_999;
            daemon_expects(phase, event) <==> match phase {
                Phase::Idle => event matches EventView::CycleStarted { now } && now <= last,
                Phase::AskingHeadset { started } => started <= last && event is Headset,
                Phase::ReadingClock { started, .. } => started <= last && event is Clock,
                Phase::CheckingHealth { started, .. } => started <= last && event is Health,
                Phase::Connecting { started, .. } => started <= last && (event is Connected || (
                event matches EventView::ConnectFailed { now, .. } && now <= last)),
                Phase::Reconciling { started, .. } => started <= last && ((
                event matches EventView::Reconciled { now, .. } && now <= last) || (
                event matches EventView::ReconcileFailed { now, .. } && now <= last)),
                Phase::Ending { started } => started <= last && event is CycleEnded,
                Phase::Stopped => false,
            }
        }),
{
}

} // verus!
