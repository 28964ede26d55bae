//! What holds of the daemon's cycle.
use vstd::prelude::*;

use crate::connection::{is_usable, timed_out_after, ConnectionState, WaitStep};
use crate::daemon::{
    audio_failed, cycle_start, daemon_expects, daemon_step, headset_failed,
    headset_told, reconciled, started_at, ActionView, DaemonView, EventView, Phase, Settings,
};
use crate::hid::HeadsetState;
use crate::reconcile::ResultView;
use crate::time::{LAST_INSTANT, MILLISECOND, SECOND};

verus! {

/// Whether an action turns to the sound server to have the sound routed.
pub open spec fn turns_to_the_server(action: ActionView) -> bool {
    action is CheckHealth || action is Connect
}

/// The daemon, asked in a cycle that began at `started` whether the sound is to be routed.
pub open spec fn in_cycle(daemon: DaemonView, started: u128, observed: HeadsetState) -> DaemonView {
    DaemonView { phase: Phase::ReadingClock { started, observed }, ..daemon }
}

/// A cycle that begins at a time which the clock can show never gets to one that it cannot.
pub proof fn cycle_times_stay_valid(settings: Settings, daemon: DaemonView, event: EventView)
    requires
        daemon_expects(daemon.phase, event),
    ensures
        cycle_start(daemon_step(settings, daemon, event).daemon.phase) <= LAST_INSTANT,
{
}

/// A single failure of the dongle does not reroute the sound: the state that the daemon goes by
/// stays, and so does all that decides when the sound is routed.
pub proof fn one_dongle_failure_changes_nothing(
    settings: Settings,
    daemon: DaemonView,
    started: u128,
    message: Seq<char>,
)
    requires
        !settings.once,
        daemon.hid_failures == 0,
        daemon.routing_state is Some,
    ensures
        ({
            let after = headset_failed(settings, daemon, started, message).daemon;
            &&& after.routing_state == daemon.routing_state
            &&& after.phase == (Phase::ReadingClock { started, observed: daemon.routing_state->0 })
            &&& after.reconcile_pending == daemon.reconcile_pending
            &&& after.next_audio_attempt == daemon.next_audio_attempt
            &&& after.next_audio_verification == daemon.next_audio_verification
        }),
{
}

/// The daemon after a row of events.
pub open spec fn run(settings: Settings, daemon: DaemonView, events: Seq<EventView>) -> DaemonView
    decreases events.len(),
{
    if events.len() == 0 {
        daemon
    } else {
        daemon_step(settings, run(settings, daemon, events.drop_last()), events.last()).daemon
    }
}

/// When the dongle fails twice, with no answer of it in between, the headset counts as off,
/// whatever else happens between the two failures.
pub proof fn two_dongle_failures_count_as_off(
    settings: Settings,
    daemon: DaemonView,
    started: u128,
    message: Seq<char>,
    between: Seq<EventView>,
    later_started: u128,
    later_message: Seq<char>,
)
    requires
        !settings.once,
        forall|i: int| 0 <= i < between.len() ==> !((#[trigger] between[i]) is Headset),
    ensures
        ({
            let failed_once = headset_failed(settings, daemon, started, message).daemon;
            let later = run(settings, failed_once, between);
            headset_failed(settings, later, later_started, later_message).daemon.routing_state
                == Some(HeadsetState::Disconnected)
        }),
{
    lemma_failures_stay(
        settings,
        headset_failed(settings, daemon, started, message).daemon,
        between,
    );
}

/// Other events leave the count of failures alone.
proof fn lemma_failures_stay(settings: Settings, daemon: DaemonView, events: Seq<EventView>)
    requires
        forall|i: int| 0 <= i < events.len() ==> !((#[trigger] events[i]) is Headset),
    ensures
        run(settings, daemon, events).hid_failures == daemon.hid_failures,
    decreases events.len(),
{
    if events.len() > 0 {
        assert(!(events[events.len() - 1] is Headset));
        let before = events.drop_last();
        assert forall|i: int| 0 <= i < before.len() implies !((#[trigger] before[i]) is Headset) by {
            assert(before[i] == events[i]);
        }
        lemma_failures_stay(settings, daemon, before);
    }
}

/// Only an answer of the dongle, or its failure, changes how often it has failed and the state
/// that the daemon goes by, once there is one.
pub proof fn only_the_dongle_changes_the_state(
    settings: Settings,
    daemon: DaemonView,
    event: EventView,
)
    requires
        daemon_expects(daemon.phase, event),
        !(event is Headset),
        daemon.routing_state is Some,
    ensures
        daemon_step(settings, daemon, event).daemon.hid_failures == daemon.hid_failures,
        daemon_step(settings, daemon, event).daemon.routing_state == daemon.routing_state,
{
}

/// An answer of the dongle is what the daemon goes by, and forgets its failures.
pub proof fn an_answer_settles_the_state(daemon: DaemonView, started: u128, state: HeadsetState)
    ensures
        ({
            let after = headset_told(daemon, started, state).daemon;
            after.routing_state == Some(state) && after.hid_failures == 0 && after.last_hid_error
                is None
        }),
{
}

/// After a failure the dongle is left alone until the delay is over, and asked in the first cycle
/// from then on.
pub proof fn failed_dongle_is_left_alone(
    settings: Settings,
    daemon: DaemonView,
    started: u128,
    message: Seq<char>,
    later: DaemonView,
    now: u128,
)
    requires
        !settings.once,
        started <= LAST_INSTANT,
        later.next_hid_query == headset_failed(
            settings,
            daemon,
            started,
            message,
        ).daemon.next_hid_query,
    ensures
        (daemon_step(settings, later, EventView::CycleStarted { now }).action is QueryHeadset)
            <==> now >= started + 2 * SECOND,
{
}

/// A change of the headset's state has the sound routed in the same cycle, even while the sound
/// server is being left alone.
pub proof fn state_change_routes_at_once(
    settings: Settings,
    daemon: DaemonView,
    started: u128,
    state: HeadsetState,
    now: u128,
    audio_changed: bool,
)
    requires
        daemon.routing_state != Some(state),
    ensures
        turns_to_the_server(
            daemon_step(
                settings,
                headset_told(daemon, started, state).daemon,
                EventView::Clock { now, audio_changed },
            ).action,
        ),
{
}

/// A change at the sound server has the sound routed on the next poll. While the server is being
/// left alone after a failure, the routing is put off until it may be talked to again.
pub proof fn audio_change_routes_on_the_next_poll(
    settings: Settings,
    daemon: DaemonView,
    started: u128,
    observed: HeadsetState,
    now: u128,
)
    ensures
        ({
            let step = daemon_step(
                settings,
                in_cycle(daemon, started, observed),
                EventView::Clock { now, audio_changed: true },
            );
            &&& turns_to_the_server(step.action) <==> started >= daemon.next_audio_attempt
            &&& step.daemon.reconcile_pending
            &&& step.daemon.next_audio_attempt == daemon.next_audio_attempt
        }),
{
}

/// The end of a verification interval can be written down.
proof fn lemma_interval_fits(settings: Settings)
    ensures
        settings.audio_verify_secs * SECOND <= u64::MAX * 1_000_000_000,
{
    assert(settings.audio_verify_secs * 1_000_000_000 <= u64::MAX * 1_000_000_000)
        by (nonlinear_arith)
        requires
            settings.audio_verify_secs <= u64::MAX,
    ;
}

/// After the sound was routed without a failure, and with no change since, it is routed again when
/// the verification interval is over and not before.
pub proof fn routing_is_verified_after_the_interval(
    settings: Settings,
    daemon: DaemonView,
    started: u128,
    result: ResultView,
    routed_at: u128,
    later_started: u128,
    observed: HeadsetState,
    now: u128,
)
    requires
        routed_at <= LAST_INSTANT,
        result.failed_stream_moves == 0,
        later_started >= started,
    ensures
        turns_to_the_server(
            daemon_step(
                settings,
                in_cycle(
                    reconciled(settings, daemon, started, result, routed_at).daemon,
                    later_started,
                    observed,
                ),
                EventView::Clock { now, audio_changed: false },
            ).action,
        ) <==> now >= routed_at + settings.audio_verify_secs * SECOND,
{
    lemma_interval_fits(settings);
}

/// Streams that could not be moved are tried again on the first poll a second later. They hold
/// nothing back: a change at the sound server, or the end of the verification interval, has the
/// sound routed sooner.
pub proof fn failed_moves_are_retried_after_a_second(
    settings: Settings,
    daemon: DaemonView,
    started: u128,
    result: ResultView,
    routed_at: u128,
    later_started: u128,
    observed: HeadsetState,
    now: u128,
    audio_changed: bool,
)
    requires
        routed_at <= LAST_INSTANT,
        result.failed_stream_moves > 0,
        later_started >= started,
    ensures
        turns_to_the_server(
            daemon_step(
                settings,
                in_cycle(
                    reconciled(settings, daemon, started, result, routed_at).daemon,
                    later_started,
                    observed,
                ),
                EventView::Clock { now, audio_changed },
            ).action,
        ) <==> now >= routed_at + SECOND || now >= routed_at + settings.audio_verify_secs * SECOND
            || audio_changed,
{
    lemma_interval_fits(settings);
}

/// After the sound was routed, with failed moves or without, a change at the sound server has it
/// routed again on the next poll.
pub proof fn audio_change_after_routing_is_followed_at_once(
    settings: Settings,
    daemon: DaemonView,
    started: u128,
    result: ResultView,
    routed_at: u128,
    later_started: u128,
    observed: HeadsetState,
    now: u128,
)
    requires
        later_started >= started,
    ensures
        turns_to_the_server(
            daemon_step(
                settings,
                in_cycle(
                    reconciled(settings, daemon, started, result, routed_at).daemon,
                    later_started,
                    observed,
                ),
                EventView::Clock { now, audio_changed: true },
            ).action,
        ),
{
}

/// After a failure at the sound server, routing that is still wanted is tried again in the first
/// cycle that begins a second later, and not before.
pub proof fn failed_routing_is_retried_after_a_second(
    settings: Settings,
    daemon: DaemonView,
    started: u128,
    message: Seq<char>,
    failed_at: u128,
    later_started: u128,
    observed: HeadsetState,
    now: u128,
    audio_changed: bool,
)
    requires
        failed_at <= LAST_INSTANT,
        daemon.reconcile_pending,
    ensures
        turns_to_the_server(
            daemon_step(
                settings,
                in_cycle(
                    audio_failed(settings, daemon, started, message, failed_at).daemon,
                    later_started,
                    observed,
                ),
                EventView::Clock { now, audio_changed },
            ).action,
        ) <==> later_started >= failed_at + SECOND,
{
}

/// A connection that is not in working order is replaced before anything is routed over it.
pub proof fn broken_connection_is_replaced(
    settings: Settings,
    daemon: DaemonView,
    started: u128,
    observed: HeadsetState,
)
    requires
        daemon.phase == (Phase::CheckingHealth { started, observed }),
    ensures
        daemon_step(settings, daemon, EventView::Health(false)).action is Reconnect,
        daemon_step(settings, daemon, EventView::Health(true)).action == ActionView::Reconcile(
            observed,
        ),
{
}

/// Whether every event of a row can come of what was done before it.
pub open spec fn is_course(settings: Settings, daemon: DaemonView, events: Seq<EventView>) -> bool {
    forall|i: int|
        0 <= i < events.len() ==> daemon_expects(
            run(settings, daemon, events.take(i)).phase,
            #[trigger] events[i],
        )
}

/// A connection over which an operation has gone without an answer is replaced before the sound is
/// routed again, though its state may still be ready. Whatever happens after the failure, in
/// whatever state the connection is found when it is looked at: as long as there is no new
/// connection, nothing is routed, and all that is ever asked for to that end is that the
/// connection be replaced.
pub proof fn unresponsive_connection_is_replaced<T>(
    settings: Settings,
    daemon: DaemonView,
    timed_out: bool,
    answer: WaitStep<T>,
    message: Seq<char>,
    now: u128,
    events: Seq<EventView>,
)
    requires
        !settings.once,
        daemon.phase is Reconciling,
        daemon.has_connection,
        answer is TimedOut,
        daemon_expects(daemon.phase, EventView::ReconcileFailed { message, now }),
        is_course(
            settings,
            daemon_step(settings, daemon, EventView::ReconcileFailed { message, now }).daemon,
            events,
        ),
        forall|i: int|
            0 <= i < events.len() ==> ((#[trigger] events[i]) matches EventView::Health(healthy)
                ==> exists|state: ConnectionState|
                healthy == #[trigger] is_usable(state, timed_out_after(timed_out, answer))),
        forall|i: int| 0 <= i < events.len() - 1 ==> !((#[trigger] events[i]) is Connected),
        events.len() > 0,
    ensures
        ({
            let failed = daemon_step(
                settings,
                daemon,
                EventView::ReconcileFailed { message, now },
            ).daemon;
            let before = run(settings, failed, events.drop_last());
            let step = daemon_step(settings, before, events.last());
            &&& !(step.action is Connect)
            &&& step.action is Reconcile ==> events.last() is Connected && before.phase
                is Connecting
            &&& step.daemon.phase is Connecting ==> step.action is Reconnect
        }),
{
    let failed = daemon_step(settings, daemon, EventView::ReconcileFailed { message, now }).daemon;
    let before = events.drop_last();
    assert(before =~= events.take(events.len() - 1));
    assert(events[events.len() - 1] == events.last());
    assert forall|i: int| 0 <= i < before.len() implies daemon_expects(
        run(settings, failed, before.take(i)).phase,
        #[trigger] before[i],
    ) && !(before[i] is Connected) && before[i] != EventView::Health(true) by {
        assert(before[i] == events[i]);
        assert(before.take(i) =~= events.take(i));
    }
    lemma_nothing_is_routed(settings, failed, before);
}

/// Without a new connection, and with the one there is not in working order, nothing is routed.
proof fn lemma_nothing_is_routed(settings: Settings, daemon: DaemonView, events: Seq<EventView>)
    requires
        !settings.once,
        daemon.has_connection,
        !(daemon.phase is Reconciling),
        is_course(settings, daemon, events),
        forall|i: int|
            0 <= i < events.len() ==> !((#[trigger] events[i]) is Connected) && events[i]
                != EventView::Health(true),
    ensures
        run(settings, daemon, events).has_connection,
        !(run(settings, daemon, events).phase is Reconciling),
    decreases events.len(),
{
    if events.len() > 0 {
        let before = events.drop_last();
        assert(before =~= events.take(events.len() - 1));
        assert(events[events.len() - 1] == events.last());
        assert forall|i: int| 0 <= i < before.len() implies daemon_expects(
            run(settings, daemon, before.take(i)).phase,
            #[trigger] before[i],
        ) && !(before[i] is Connected) && before[i] != EventView::Health(true) by {
            assert(before[i] == events[i]);
            assert(before.take(i) =~= events.take(i));
        }
        lemma_nothing_is_routed(settings, daemon, before);
    }
}

/// The sound is routed for the state that the daemon goes by: where the daemon is after the
/// headset was looked at, and until the cycle is over, both are the same.
pub open spec fn routes_by_its_state(daemon: DaemonView) -> bool {
    match daemon.phase {
        Phase::ReadingClock { observed, .. } => daemon.routing_state == Some(observed),
        Phase::CheckingHealth { observed, .. } => daemon.routing_state == Some(observed),
        Phase::Connecting { observed, .. } => daemon.routing_state == Some(observed),
        Phase::Reconciling { observed, .. } => daemon.routing_state == Some(observed),
        _ => true,
    }
}

/// A new daemon routes by its state, and every step keeps it so.
pub proof fn the_sound_follows_the_state(
    settings: Settings,
    daemon: DaemonView,
    event: EventView,
    now: u128,
)
    requires
        daemon_expects(daemon.phase, event),
        routes_by_its_state(daemon),
    ensures
        routes_by_its_state(started_at(now)),
        routes_by_its_state(daemon_step(settings, daemon, event).daemon),
        daemon_step(settings, daemon, event).action matches ActionView::Reconcile(state)
            ==> daemon_step(settings, daemon, event).daemon.routing_state == Some(state),
{
}

/// The same error is reported once, and again only after another one or a success in between:
/// whatever was reported before, a failure of the dongle leaves behind a daemon that keeps silent
/// about the same failure and reports any other; so does a failure at the sound server.
pub proof fn repeated_error_is_reported_once(
    settings: Settings,
    daemon: DaemonView,
    later: DaemonView,
    message: Seq<char>,
    next: Seq<char>,
    now: u128,
)
    ensures
        ({
            let failed = daemon_step(settings, daemon, EventView::Headset(Err(message))).daemon;
            let again = daemon_step(settings, later, EventView::Headset(Err(next)));
            later.last_hid_error == failed.last_hid_error ==> (again.line is None <==> next
                == message)
        }),
        ({
            let failed = daemon_step(
                settings,
                daemon,
                EventView::ReconcileFailed { message, now },
            ).daemon;
            let again = daemon_step(
                settings,
                later,
                EventView::ReconcileFailed { message: next, now },
            );
            later.last_audio_error == failed.last_audio_error ==> (again.line is None <==> next
                == message)
        }),
        later.last_hid_error is None ==> daemon_step(
            settings,
            later,
            EventView::Headset(Err(message)),
        ).line is Some,
        later.last_audio_error is None ==> daemon_step(
            settings,
            later,
            EventView::ReconcileFailed { message, now },
        ).line is Some,
{
}

/// Between two cycles the daemon rests no longer than the poll interval.
pub proof fn rest_is_bounded(settings: Settings, daemon: DaemonView, now: u128)
    ensures
        daemon_step(settings, daemon, EventView::CycleEnded { now }).action matches ActionView::Sleep(
            nanos,
        ) && nanos <= settings.poll_ms * MILLISECOND,
{
    let poll = settings.poll_ms * MILLISECOND;
    assert(poll >= 0) by (nonlinear_arith)
        requires
            poll == settings.poll_ms * 1_000_000,
            settings.poll_ms >= 0,
    ;
}

/// A daemon that runs once stops at the end of its cycle, and with a message as soon as something
/// fails.
pub proof fn running_once_stops(settings: Settings, daemon: DaemonView, event: EventView)
    requires
        settings.once,
        daemon_expects(daemon.phase, event),
    ensures
        ({
            let action = daemon_step(settings, daemon, event).action;
            &&& !(action is EndCycle)
            &&& event matches EventView::Headset(Err(message)) ==> action == ActionView::Exit(
                Err(message),
            )
            &&& event matches EventView::ConnectFailed { message, .. } ==> action
                == ActionView::Exit(Err(message))
            &&& event matches EventView::ReconcileFailed { message, .. } ==> action
                == ActionView::Exit(Err(message))
            &&& event is Reconciled ==> action == ActionView::Exit(Ok(()))
        }),
{
}

} // verus!
