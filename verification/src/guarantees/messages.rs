//! What holds of the lines and messages: they say what went wrong, and name what it went wrong
//! with, whatever that is.
use vstd::prelude::*;

use crate::connection::{
    connection_error_text, listing_failure, operation_text, ConnectionErrorView, Listed, Operation,
};
use crate::daemon::{bool_text, distinct_line, target_line};
use crate::hid::{query_error_text, state_text, HeadsetState, QueryErrorView};
use crate::number::{decimal_text, hex4_text};
use crate::probe::{
    candidates, scan_error_text, scan_step, ScanErrorView, ScanEventView, ScanView,
};
use crate::reconcile::ResultView;
use crate::router::{route_error_text, RouteErrorView};
use crate::selection::{speaker_error_text, SpeakerErrorView};
use crate::text::joined;

verus! {

/// Every failure of a query is told in its own words, with its cause behind them.
pub proof fn query_failures_name_their_cause(cause: Seq<char>, written: nat)
    ensures
        query_error_text(QueryErrorView::Drain(cause))
            == "failed while draining stale HID reports: "@ + cause,
        query_error_text(QueryErrorView::NotDrained) == "HID report queue did not drain after "@
            + decimal_text(64) + " reports"@,
        query_error_text(QueryErrorView::Write(cause))
            == "failed to write connected-state HID request: "@ + cause,
        query_error_text(QueryErrorView::ShortWrite(written))
            == "short connected-state HID write: wrote "@ + decimal_text(written) + " of "@
            + decimal_text(64) + " bytes"@,
        query_error_text(QueryErrorView::TimedOut)
            == "timed out waiting for connected-state HID response"@,
        query_error_text(QueryErrorView::Read(cause)) == "failed to read HID response: "@ + cause,
{
}

/// A search that fails tells why: that there is no dongle, or how many there are and what became
/// of each, by its numbers and its path.
pub proof fn failed_search_names_every_dongle(
    scan: ScanView,
    cause: Seq<char>,
    found: nat,
    failures: Seq<Seq<char>>,
)
    ensures
        ({
            let queue = candidates(scan.devices, scan.devices.len());
            let device = scan.devices[queue[scan.failures.len() as int] as int];
            let label = hex4_text(device.vendor_id) + ":"@ + hex4_text(device.product_id) + " "@
                + device.path_text;
            &&& scan_step(scan, ScanEventView::OpenFailed(cause)).0.failures
                == scan.failures.push(label + ": open failed: "@ + cause)
            &&& scan_step(scan, ScanEventView::QueryFailed(cause)).0.failures
                == scan.failures.push(label + ": no valid response: "@ + cause)
        }),
        scan_error_text(ScanErrorView::Init(cause)) == "failed to initialize hidapi: "@ + cause,
        scan_error_text(ScanErrorView::NotFound)
            == "HyperX Cloud III S dongle not found (expected 03f0:06be or 03f0:02cc)"@,
        scan_error_text(ScanErrorView::NoneResponded { found, failures }) == "found "@
            + decimal_text(found) + " matching HID path(s), but none responded: "@ + joined(
            failures,
            "; "@,
        ),
{
}

/// Parts are joined in order with the separator between neighbours, and only there.
pub proof fn separators_stand_between_neighbours(
    parts: Seq<Seq<char>>,
    part: Seq<char>,
    separator: Seq<char>,
)
    ensures
        joined(seq![], separator) == Seq::<char>::empty(),
        joined(seq![part], separator) == part,
        parts.len() > 0 ==> joined(parts.push(part), separator) == joined(parts, separator)
            + separator + part,
{
    assert(parts.push(part).drop_last() =~= parts);
}

/// Every failure at the sound server is told in its own words, with its cause behind them.
pub proof fn connection_failures_name_their_cause(cause: Seq<char>)
    ensures
        connection_error_text(ConnectionErrorView::NoMainloop)
            == "failed to create PulseAudio mainloop"@,
        connection_error_text(ConnectionErrorView::NoContext)
            == "failed to create PulseAudio context"@,
        connection_error_text(ConnectionErrorView::Start(cause))
            == "failed to start PulseAudio/PipeWire connection: "@ + cause,
        connection_error_text(ConnectionErrorView::Failed)
            == "PulseAudio/PipeWire connection failed"@,
        connection_error_text(ConnectionErrorView::Terminated)
            == "PulseAudio/PipeWire connection terminated"@,
        connection_error_text(ConnectionErrorView::TimedOut)
            == "timed out connecting to PulseAudio/PipeWire"@,
        connection_error_text(ConnectionErrorView::Quit(cause))
            == "PulseAudio mainloop quit unexpectedly with "@ + cause,
        connection_error_text(ConnectionErrorView::Loop(cause)) == "PulseAudio mainloop error: "@
            + cause,
        listing_failure(Listed::Sinks) == "PulseAudio failed while listing sinks"@,
        listing_failure(Listed::Inputs) == "PulseAudio failed while listing playback streams"@,
        operation_text(Operation::ListSinks) == "listing playback sinks"@,
        operation_text(Operation::ReadDefault) == "reading the default sink"@,
        operation_text(Operation::SetDefault) == "setting the default sink"@,
        operation_text(Operation::ListInputs) == "listing playback streams"@,
        operation_text(Operation::MoveInput) == "moving a playback stream"@,
{
}

/// Every failure to route is told in its own words, and names the output it is about.
pub proof fn routing_failures_name_the_output(name: Seq<char>)
    ensures
        route_error_text(RouteErrorView::HeadsetMissing)
            == "headset is connected, but the HyperX playback sink is unavailable"@,
        route_error_text(RouteErrorView::Refused(name))
            == "PulseAudio refused to set default sink to "@ + name,
        route_error_text(RouteErrorView::Operation(name)) == name,
        route_error_text(RouteErrorView::Speaker(SpeakerErrorView::OverrideUnavailable(name)))
            == "configured speaker sink is unavailable: "@ + name,
        speaker_error_text(SpeakerErrorView::OverrideUnavailable(name))
            == "configured speaker sink is unavailable: "@ + name,
        route_error_text(RouteErrorView::Speaker(SpeakerErrorView::NoneUsable))
            == speaker_error_text(SpeakerErrorView::NoneUsable),
        speaker_error_text(SpeakerErrorView::NoneUsable)
            == "no usable non-HyperX playback sink found; select the speakers once or pass --speaker-sink"@,
{
}

/// The lines of the log name what they are about: the state, the error behind its prefix, the
/// target with what was done to get there. An error is told unless it is the one told last.
pub proof fn lines_name_what_they_are_about(
    prefix: Seq<char>,
    message: Seq<char>,
    previous: Option<Seq<char>>,
    result: ResultView,
)
    ensures
        state_text(HeadsetState::Connected) == "connected"@,
        state_text(HeadsetState::Disconnected) == "disconnected"@,
        distinct_line(prefix, message, previous) is None <==> previous == Some(message),
        distinct_line(prefix, message, previous) matches Some(line) ==> line == prefix + ": "@
            + message,
        bool_text(true) == "true"@,
        bool_text(false) == "false"@,
        target_line(result) == "audio target: "@ + result.target_name + " (default_changed="@
            + bool_text(result.default_changed) + ", moved_streams="@ + decimal_text(
            result.moved_streams,
        ) + ", failed_stream_moves="@ + decimal_text(result.failed_stream_moves) + ")"@,
{
}

} // verus!
