//! What holds of the model: it shows every value as it is.
use vstd::prelude::*;

use crate::connection::{
    ConnectionError, ConnectionErrorView, Iteration, IterationView, ReadyStep, ReadyView,
    CONNECT_TIMEOUT, MAINLOOP_POLL_DELAY, OPERATION_TIMEOUT,
};
use crate::daemon::{Action, ActionView, Event, EventView};
use crate::hid::{
    HeadsetState, QueryAction, QueryActionView, QueryError, QueryErrorView, QueryEvent,
    QueryEventView, RESPONSE_BUFFER_SIZE,
};
use crate::probe::{
    device_views, string_views, DeviceEntry, DeviceView, ProbeAction, ProbeActionView, ProbeEvent,
    ProbeEventView, ProbePhase, ProbePhaseView, ScanAction, ScanActionView, ScanError,
    ScanErrorView, ScanEvent, ScanEventView,
};
use crate::reconcile::{
    PassAction, PassActionView, PassEvent, PassEventView, PassPhase, PassPhaseView,
    ReconcileResult, ResultView,
};
use crate::router::{RouteError, RouteErrorView};
use crate::selection::{choice_view, is_at, SpeakerError, SpeakerErrorView};
use crate::sink::{
    remembered_of, sink_views, PortView, RememberedSink, RememberedView, Sink, SinkInput, SinkPort,
    SinkView,
};
use crate::text::{text_of, view_of};

verus! {

/// Texts that may be missing are shown where they are there, and only there.
pub proof fn texts_are_shown_as_they_are(owned: String, borrowed: &str)
    ensures
        text_of(Some(owned)) == Some(owned@),
        text_of(None) is None,
        view_of(Some(borrowed)) == Some(borrowed@),
        view_of(None) is None,
{
}

/// Outputs, and what is remembered of them, are shown with all that they hold.
pub proof fn outputs_are_shown_as_they_are(sink: Sink, port: SinkPort, memory: RememberedSink)
    ensures
        sink@.name == sink.name@,
        sink@.index == sink.index,
        sink@.description == sink.description@,
        sink@.driver == sink.driver@,
        sink@.vendor_id == text_of(sink.vendor_id),
        sink@.product_id == text_of(sink.product_id),
        sink@.serial == text_of(sink.serial),
        sink@.product_name == text_of(sink.product_name),
        sink@.bus == text_of(sink.bus),
        sink@.card == text_of(sink.card),
        sink@.profile == text_of(sink.profile),
        sink.port is None ==> sink@.port is None,
        sink.port is Some ==> sink@.port == Some(sink.port->0@),
        port@ == (PortView { name: port.name@, available: port.available }),
        memory@ == (RememberedView {
            name: memory.name@,
            serial: text_of(memory.serial),
            vendor_id: text_of(memory.vendor_id),
            product_id: text_of(memory.product_id),
            product_name: text_of(memory.product_name),
            description: memory.description@,
            card: text_of(memory.card),
            profile: text_of(memory.profile),
        }),
        remembered_of(Some(memory)) == Some(memory@),
        remembered_of(None) is None,
{
}

/// Lists are shown item by item, in order.
pub proof fn lists_are_shown_in_order(
    sinks: Seq<Sink>,
    devices: Seq<DeviceEntry>,
    strings: Seq<String>,
    i: int,
)
    ensures
        sink_views(sinks).len() == sinks.len(),
        0 <= i < sinks.len() ==> sink_views(sinks)[i] == sinks[i]@,
        device_views(devices).len() == devices.len(),
        0 <= i < devices.len() ==> device_views(devices)[i] == devices[i]@,
        string_views(strings).len() == strings.len(),
        0 <= i < strings.len() ==> string_views(strings)[i] == strings[i]@,
{
}

/// An output that is found is the one at the place that was found, and a choice is the output or
/// the reason that it holds.
pub proof fn findings_are_shown_as_they_are(
    sinks: Seq<Sink>,
    found: Option<&Sink>,
    i: int,
    sink: Sink,
    error: SpeakerError,
)
    ensures
        is_at(found, sinks, Some(i)) <==> 0 <= i < sinks.len() && found == Some(&sinks[i]),
        is_at(found, sinks, None) <==> found is None,
        choice_view(Ok::<&Sink, SpeakerError>(&sink)) == Ok::<SinkView, SpeakerErrorView>(sink@),
        choice_view(Err::<&Sink, SpeakerError>(error)) == Err::<SinkView, SpeakerErrorView>(error@),
{
}

/// What a query takes and asks for is shown as it is.
pub proof fn queries_are_shown_as_they_are(
    bytes: Vec<u8>,
    text: String,
    written: usize,
    now: u128,
    ms: i32,
    state: HeadsetState,
    error: QueryError,
)
    ensures
        QueryEvent::Report(bytes)@ == QueryEventView::Report(bytes@),
        QueryEvent::ReadFailed(text)@ == QueryEventView::ReadFailed(text@),
        (QueryEvent::Wrote { written, now })@ == (QueryEventView::Wrote {
            written: written as nat,
            now,
        }),
        QueryEvent::WriteFailed(text)@ == QueryEventView::WriteFailed(text@),
        (QueryEvent::Clock { now })@ == (QueryEventView::Clock { now }),
        (QueryAction::Read { timeout_ms: ms })@ == (QueryActionView::Read {
            timeout_ms: ms as int,
        }),
        QueryAction::Write(bytes)@ == QueryActionView::Write(bytes@),
        QueryAction::ReadClock@ == QueryActionView::ReadClock,
        QueryAction::Finish(Ok(state))@ == QueryActionView::Finish(Ok(state)),
        QueryAction::Finish(Err(error))@ == QueryActionView::Finish(Err(error@)),
        QueryError::Drain(text)@ == QueryErrorView::Drain(text@),
        QueryError::NotDrained@ == QueryErrorView::NotDrained,
        QueryError::Write(text)@ == QueryErrorView::Write(text@),
        QueryError::ShortWrite(written)@ == QueryErrorView::ShortWrite(written as nat),
        QueryError::TimedOut@ == QueryErrorView::TimedOut,
        QueryError::Read(text)@ == QueryErrorView::Read(text@),
        RESPONSE_BUFFER_SIZE == 256,
{
}

/// What a search takes and asks for is shown as it is.
pub proof fn searches_are_shown_as_they_are(
    device: DeviceEntry,
    text: String,
    place: usize,
    failures: Vec<String>,
    state: HeadsetState,
    error: ScanError,
)
    ensures
        device@ == (DeviceView {
            vendor_id: device.vendor_id,
            product_id: device.product_id,
            path: device.path@,
            path_text: device.path_text@,
        }),
        ScanEvent::OpenFailed(text)@ == ScanEventView::OpenFailed(text@),
        ScanEvent::QueryFailed(text)@ == ScanEventView::QueryFailed(text@),
        ScanEvent::Answered(state)@ == ScanEventView::Answered(state),
        ScanAction::Try(place)@ == ScanActionView::Try(place),
        ScanAction::Finish(Ok(state))@ == ScanActionView::Finish(Ok(state)),
        ScanAction::Finish(Err(error))@ == ScanActionView::Finish(Err(error@)),
        ScanError::Init(text)@ == ScanErrorView::Init(text@),
        ScanError::NotFound@ == ScanErrorView::NotFound,
        (ScanError::NoneResponded { found: place, failures })@ == (ScanErrorView::NoneResponded {
            found: place as nat,
            failures: string_views(failures@),
        }),
{
}

/// What a probe takes and asks for is shown as it is.
pub proof fn probes_are_shown_as_they_are(text: String, lost: Option<String>, state: HeadsetState)
    ensures
        ProbeEvent::Begin@ == ProbeEventView::Begin,
        ProbeEvent::Queried(Ok(state))@ == ProbeEventView::Queried(Ok(state)),
        ProbeEvent::Queried(Err(text))@ == ProbeEventView::Queried(Err(text@)),
        ProbeEvent::Opened(Ok(state))@ == ProbeEventView::Opened(Ok(state)),
        ProbeEvent::Opened(Err(text))@ == ProbeEventView::Opened(Err(text@)),
        ProbeAction::Query@ == ProbeActionView::Query,
        ProbeAction::Open@ == ProbeActionView::Open,
        ProbeAction::Finish(Ok(state))@ == ProbeActionView::Finish(Ok(state)),
        ProbeAction::Finish(Err(text))@ == ProbeActionView::Finish(Err(text@)),
        ProbePhase::Idle@ == ProbePhaseView::Idle,
        ProbePhase::Querying@ == ProbePhaseView::Querying,
        (ProbePhase::Opening { lost })@ == (ProbePhaseView::Opening { lost: text_of(lost) }),
{
}

/// What a pass takes and asks for is shown as it is.
pub proof fn passes_are_shown_as_they_are(
    sinks: Vec<Sink>,
    text: String,
    name: Option<String>,
    yes: bool,
    inputs: Vec<SinkInput>,
    input: u32,
    sink: u32,
    result: ReconcileResult,
    error: RouteError,
)
    ensures
        PassEvent::Sinks(sinks)@ == PassEventView::Sinks(sink_views(sinks@)),
        PassEvent::Default(name)@ == PassEventView::Default(text_of(name)),
        PassEvent::DefaultSet(yes)@ == PassEventView::DefaultSet(yes),
        PassEvent::Inputs(inputs)@ == PassEventView::Inputs(inputs@),
        PassEvent::Moved(yes)@ == PassEventView::Moved(yes),
        (PassEvent::Failed { message: text, usable: yes })@ == (PassEventView::Failed {
            message: text@,
            usable: yes,
        }),
        PassAction::ListSinks@ == PassActionView::ListSinks,
        PassAction::ReadDefault@ == PassActionView::ReadDefault,
        PassAction::SetDefault(text)@ == PassActionView::SetDefault(text@),
        PassAction::ListInputs@ == PassActionView::ListInputs,
        (PassAction::Move { input, sink })@ == (PassActionView::Move { input, sink }),
        PassAction::Finish(Ok(result))@ == PassActionView::Finish(Ok(result@)),
        PassAction::Finish(Err(error))@ == PassActionView::Finish(Err(error@)),
        result@ == (ResultView {
            target_name: result.target_name@,
            default_changed: result.default_changed,
            moved_streams: result.moved_streams as nat,
            failed_stream_moves: result.failed_stream_moves as nat,
        }),
{
}

/// How far a pass has come is shown as it is.
pub proof fn phases_are_shown_as_they_are(
    sinks: Vec<Sink>,
    name: String,
    index: u32,
    default_changed: bool,
    moves: Vec<u32>,
    moved: usize,
    failed: usize,
)
    ensures
        PassPhase::ListingSinks@ == PassPhaseView::ListingSinks,
        (PassPhase::ReadingDefault { sinks })@ == (PassPhaseView::ReadingDefault {
            sinks: sink_views(sinks@),
        }),
        (PassPhase::SettingDefault { name, index })@ == (PassPhaseView::SettingDefault {
            name: name@,
            index,
        }),
        (PassPhase::ListingInputs { name, index, default_changed })@ == (
        PassPhaseView::ListingInputs { name: name@, index, default_changed }),
        (PassPhase::Moving { name, index, default_changed, moves, moved, failed })@ == (
        PassPhaseView::Moving {
            name: name@,
            index,
            default_changed,
            moves: moves@,
            moved: moved as nat,
            failed: failed as nat,
        }),
        PassPhase::Finished@ == PassPhaseView::Finished,
{
}

/// What goes wrong is shown as it is.
pub proof fn errors_are_shown_as_they_are(text: String, speaker: SpeakerError)
    ensures
        RouteError::HeadsetMissing@ == RouteErrorView::HeadsetMissing,
        RouteError::Speaker(speaker)@ == RouteErrorView::Speaker(speaker@),
        RouteError::Refused(text)@ == RouteErrorView::Refused(text@),
        RouteError::Operation(text)@ == RouteErrorView::Operation(text@),
        SpeakerError::OverrideUnavailable(text)@ == SpeakerErrorView::OverrideUnavailable(text@),
        SpeakerError::NoneUsable@ == SpeakerErrorView::NoneUsable,
        ConnectionError::NoMainloop@ == ConnectionErrorView::NoMainloop,
        ConnectionError::NoContext@ == ConnectionErrorView::NoContext,
        ConnectionError::Start(text)@ == ConnectionErrorView::Start(text@),
        ConnectionError::Failed@ == ConnectionErrorView::Failed,
        ConnectionError::Terminated@ == ConnectionErrorView::Terminated,
        ConnectionError::TimedOut@ == ConnectionErrorView::TimedOut,
        ConnectionError::Quit(text)@ == ConnectionErrorView::Quit(text@),
        ConnectionError::Loop(text)@ == ConnectionErrorView::Loop(text@),
{
}

/// The course of a connection is shown as it is, and its times are those of a working server: five
/// seconds to connect, three for an operation, and a look every millisecond.
pub proof fn connections_are_shown_as_they_are(text: String, error: ConnectionError)
    ensures
        ReadyStep::Ready@ == ReadyView::Ready,
        ReadyStep::GiveUp(error)@ == ReadyView::GiveUp(error@),
        ReadyStep::Iterate@ == ReadyView::Iterate,
        Iteration::Success@ == IterationView::Success,
        Iteration::Quit(text)@ == IterationView::Quit(text@),
        Iteration::Failed(text)@ == IterationView::Failed(text@),
        CONNECT_TIMEOUT == 5_000_000_000,
        OPERATION_TIMEOUT == 3_000_000_000,
        MAINLOOP_POLL_DELAY == 1_000_000,
{
}

/// What the daemon takes and asks for is shown as it is.
pub proof fn cycles_are_shown_as_they_are(
    now: u128,
    text: String,
    yes: bool,
    state: HeadsetState,
    result: ReconcileResult,
)
    ensures
        (Event::CycleStarted { now })@ == (EventView::CycleStarted { now }),
        Event::Headset(Ok(state))@ == EventView::Headset(Ok(state)),
        Event::Headset(Err(text))@ == EventView::Headset(Err(text@)),
        (Event::Clock { now, audio_changed: yes })@ == (EventView::Clock {
            now,
            audio_changed: yes,
        }),
        Event::Health(yes)@ == EventView::Health(yes),
        Event::Connected@ == EventView::Connected,
        (Event::ConnectFailed { message: text, now })@ == (EventView::ConnectFailed {
            message: text@,
            now,
        }),
        (Event::Reconciled { result, now })@ == (EventView::Reconciled { result: result@, now }),
        (Event::ReconcileFailed { message: text, now })@ == (EventView::ReconcileFailed {
            message: text@,
            now,
        }),
        (Event::CycleEnded { now })@ == (EventView::CycleEnded { now }),
        Action::QueryHeadset@ == ActionView::QueryHeadset,
        Action::ReadClock@ == ActionView::ReadClock,
        Action::CheckHealth@ == ActionView::CheckHealth,
        Action::Connect@ == ActionView::Connect,
        Action::Reconnect@ == ActionView::Reconnect,
        Action::Reconcile(state)@ == ActionView::Reconcile(state),
        Action::EndCycle@ == ActionView::EndCycle,
        Action::Sleep(now)@ == ActionView::Sleep(now as nat),
        Action::Exit(Ok(()))@ == ActionView::Exit(Ok(())),
        Action::Exit(Err(text))@ == ActionView::Exit(Err(text@)),
{
}

} // verus!
