//! What holds of every step towards the state of the headset.
use vstd::prelude::*;

use crate::guarantees::devices::lemma_candidates;
use crate::hid::{
    query_expects, query_step, remaining_ms, state_request, told_state, HeadsetState,
    QueryActionView, QueryErrorView, QueryEventView, QueryPhase,
};
use crate::probe::{
    candidates, is_candidate, is_dongle, probe_expects, probe_step, scan_is_trying, scan_next,
    scan_queue, scan_step, DeviceView, ProbeActionView, ProbeEventView, ProbePhaseView, ProbeView,
    ScanActionView, ScanErrorView, ScanEventView, ScanView,
};

verus! {

/// A report tells that the headset is on, or off, only as an answer to the request or as a
/// notification of the power state, and only by the values for that.
pub proof fn reports_tell_the_state_by_two_shapes(report: Seq<u8>)
    ensures
        ({
            let answer = report.len() >= 7 && report[0] == 0x0c && report[5] == 0x02;
            let notice = report.len() >= 6 && report[0] == 0x0d && report[4] == 12;
            &&& told_state(report) == Some(HeadsetState::Connected) <==> (answer && report[6] == 2)
                || (notice && report[5] == 1)
            &&& told_state(report) == Some(HeadsetState::Disconnected) <==> (answer && report[6]
                == 0) || (notice && report[5] == 0)
        }),
{
}

/// What stands behind the bytes that tell the state does not matter.
pub proof fn rest_of_a_report_does_not_matter(report: Seq<u8>, rest: Seq<u8>)
    requires
        report.len() >= 7,
    ensures
        told_state(report + rest) == told_state(report),
{
    let longer = report + rest;
    assert(longer[0] == report[0] && longer[4] == report[4] && longer[5] == report[5] && longer[6]
        == report[6]);
}

/// The request has sixty-four bytes: six that ask for the power state, and zeros.
pub proof fn request_asks_for_the_power_state(i: int)
    ensures
        state_request().len() == 64,
        state_request().take(6) == seq![0x0cu8, 0x02, 0x03, 0x01, 0x00, 0x02],
        6 <= i < 64 ==> state_request()[i] == 0,
{
    assert(state_request().take(6) =~= seq![0x0cu8, 0x02, 0x03, 0x01, 0x00, 0x02]);
}

/// Before the request, reports are dropped without waiting: as long as there are any and fewer than
/// sixty-four have come, the next one is read; once there is none, the request is sent. A failure
/// to read, or the sixty-fourth report, ends the query.
pub proof fn stale_reports_are_dropped_first(
    dropped: usize,
    report: Seq<u8>,
    cause: Seq<char>,
)
    ensures
        ({
            let phase = QueryPhase::Draining { dropped };
            let (next, action) = query_step(phase, QueryEventView::Report(report));
            &&& report.len() == 0 ==> next == QueryPhase::Writing && action
                == QueryActionView::Write(state_request())
            &&& report.len() > 0 && dropped < 63 ==> next == (QueryPhase::Draining {
                dropped: (dropped + 1) as usize,
            }) && action == (QueryActionView::Read { timeout_ms: 0 })
            &&& report.len() > 0 && dropped >= 63 ==> next == QueryPhase::Finished && action
                == QueryActionView::Finish(Err(QueryErrorView::NotDrained))
            &&& query_step(phase, QueryEventView::ReadFailed(cause)) == (
                QueryPhase::Finished,
                QueryActionView::Finish(Err(QueryErrorView::Drain(cause))),
            )
        }),
{
}

/// Once the whole request is sent, an answer is waited for until one second later. A request that
/// was sent in part, or not at all, ends the query.
pub proof fn whole_request_is_waited_on_for_a_second(written: nat, now: u128, cause: Seq<char>)
    requires
        now + 1_000_000_000 <= u128::MAX,
    ensures
        ({
            let (next, action) = query_step(
                QueryPhase::Writing,
                QueryEventView::Wrote { written, now },
            );
            &&& written == 64 ==> next == (QueryPhase::Timing {
                deadline: (now + 1_000_000_000) as u128,
            }) && action == QueryActionView::ReadClock
            &&& written != 64 ==> next == QueryPhase::Finished && action
                == QueryActionView::Finish(Err(QueryErrorView::ShortWrite(written)))
        }),
        query_step(QueryPhase::Writing, QueryEventView::WriteFailed(cause)) == (
            QueryPhase::Finished,
            QueryActionView::Finish(Err(QueryErrorView::Write(cause))),
        ),
{
}

/// Before the deadline a report is read, with a wait of as many whole milliseconds as are left, but
/// at least one; from the deadline on the query is given up.
pub proof fn time_that_is_left_is_waited(deadline: u128, now: u128)
    ensures
        now >= deadline ==> query_step(
            QueryPhase::Timing { deadline },
            QueryEventView::Clock { now },
        ) == (QueryPhase::Finished, QueryActionView::Finish(Err(QueryErrorView::TimedOut))),
        now < deadline ==> {
            let (next, action) = query_step(
                QueryPhase::Timing { deadline },
                QueryEventView::Clock { now },
            );
            &&& next == (QueryPhase::Reading { deadline })
            &&& action matches QueryActionView::Read { timeout_ms }
            &&& 1 <= timeout_ms <= 2_147_483_647
            &&& timeout_ms > 1 ==> timeout_ms * 1_000_000 <= deadline - now
            &&& timeout_ms < 2_147_483_647 ==> deadline - now < (timeout_ms + 1) * 1_000_000
        },
{
    if now < deadline {
        let left = deadline - now;
        let ms = left / 1_000_000;
        assert(left == ms * 1_000_000 + left % 1_000_000);
        assert(remaining_ms(deadline, now) == if ms < 1 {
            1
        } else if ms > 2_147_483_647 {
            2_147_483_647
        } else {
            ms
        });
    }
}

/// The first report that tells a state ends the query with that very state; one that tells none is
/// passed over; no report in time, or a failure to read, ends the query.
pub proof fn told_state_is_the_answer(
    deadline: u128,
    report: Seq<u8>,
    state: HeadsetState,
    cause: Seq<char>,
)
    requires
        report.len() > 0,
    ensures
        ({
            let phase = QueryPhase::Reading { deadline };
            let (next, action) = query_step(phase, QueryEventView::Report(report));
            &&& told_state(report) == Some(state) ==> next == QueryPhase::Finished && action
                == QueryActionView::Finish(Ok(state))
            &&& told_state(report) is None ==> next == (QueryPhase::Timing { deadline }) && action
                == QueryActionView::ReadClock
            &&& query_step(phase, QueryEventView::Report(seq![])) == (
                QueryPhase::Finished,
                QueryActionView::Finish(Err(QueryErrorView::TimedOut)),
            )
            &&& query_step(phase, QueryEventView::ReadFailed(cause)) == (
                QueryPhase::Finished,
                QueryActionView::Finish(Err(QueryErrorView::Read(cause))),
            )
        }),
{
}

/// A query takes the outcome of what it asked for, and nothing else: of a read while it drops
/// reports or waits for one, of the request while it is sent, the time when it asked for that; and
/// nothing once it is over.
pub proof fn query_takes_what_it_asked_for(phase: QueryPhase, event: QueryEventView)
    ensures
        query_expects(phase, event) <==> match phase {
            QueryPhase::Draining { .. } => event is Report || event is ReadFailed,
            QueryPhase::Writing => event is WriteFailed || (
            event matches QueryEventView::Wrote { now, .. } && now
                <= 9_223_372_036_854_775_807_999_999_999),
            QueryPhase::Timing { .. } => event is Clock,
            QueryPhase::Reading { .. } => event is Report || event is ReadFailed,
            QueryPhase::Finished => false,
        },
{
}

/// Whether a device has the numbers of a dongle.
pub open spec fn has_dongle_numbers(device: DeviceView) -> bool {
    device.vendor_id == 0x03f0 && (device.product_id == 0x06be || device.product_id == 0x02cc)
}

/// The places to try are those of the devices with the numbers of a dongle, except where an
/// earlier one has the same path; each stands once, and in order.
pub proof fn dongles_are_tried_once_per_path(devices: Seq<DeviceView>)
    requires
        devices.len() <= usize::MAX,
    ensures
        ({
            let places = candidates(devices, devices.len());
            &&& forall|k: int, l: int| 0 <= k < l < places.len() ==> places[k] < places[l]
            &&& forall|k: int|
                0 <= k < places.len() ==> (#[trigger] places[k]) < devices.len()
                    && has_dongle_numbers(devices[places[k] as int])
            &&& forall|k: int, j: int|
                #![trigger places[k], devices[j]]
                0 <= k < places.len() && 0 <= j < places[k] && has_dongle_numbers(devices[j])
                    ==> devices[j].path != devices[places[k] as int].path
            &&& forall|i: int|
                0 <= i < devices.len() && has_dongle_numbers(#[trigger] devices[i]) ==> (
                places.contains(i as usize) || exists|j: int|
                    0 <= j < i && has_dongle_numbers(#[trigger] devices[j]) && devices[j].path
                        == devices[i].path)
        }),
{
    lemma_candidates(devices, devices.len());
    let places = candidates(devices, devices.len());
    assert forall|i: int| 0 <= i < devices.len() implies is_dongle(#[trigger] devices[i])
        == has_dongle_numbers(devices[i]) by {}
    assert forall|k: int, j: int|
        #![trigger places[k], devices[j]]
        0 <= k < places.len() && 0 <= j < places[k] && has_dongle_numbers(
            devices[j],
        ) implies devices[j].path != devices[places[k] as int].path by {
        assert(is_candidate(devices, places[k] as int));
        assert(is_dongle(devices[j]));
    }
    assert forall|i: int|
        0 <= i < devices.len() && has_dongle_numbers(#[trigger] devices[i]) implies (
    places.contains(i as usize) || exists|j: int|
        0 <= j < i && has_dongle_numbers(#[trigger] devices[j]) && devices[j].path
            == devices[i].path) by {
        assert(is_dongle(devices[i]));
        if !is_candidate(devices, i) {
            let j = choose|j: int|
                0 <= j < i && is_dongle(#[trigger] devices[j]) && devices[j].path
                    == devices[i].path;
            assert(has_dongle_numbers(devices[j]));
        }
    }
}

/// A dongle that answers ends the search with the very state it told; nothing is tried after that.
pub proof fn first_answer_ends_the_search(scan: ScanView, state: HeadsetState)
    ensures
        ({
            let (after, action) = scan_step(scan, ScanEventView::Answered(state));
            &&& action == ScanActionView::Finish(Ok(state))
            &&& !scan_is_trying(after)
            &&& after.failures == scan.failures
            &&& after.devices == scan.devices
        }),
{
}

/// A dongle that does not answer is noted with what went wrong, behind those before it, and the
/// one that stands next is tried; where none stands next, the search fails with all that was
/// noted, or for want of a dongle.
pub proof fn failed_dongle_is_noted_and_the_next_one_tried(
    scan: ScanView,
    event: ScanEventView,
    place: int,
)
    requires
        scan_is_trying(scan),
        !(event is Answered),
        place == scan.failures.len(),
    ensures
        ({
            let queue = candidates(scan.devices, scan.devices.len());
            let (after, action) = scan_step(scan, event);
            &&& after.devices == scan.devices
            &&& after.answered == scan.answered
            &&& after.failures.len() == place + 1
            &&& after.failures.take(place) == scan.failures
            &&& place + 1 < queue.len() ==> scan_is_trying(after) && action == ScanActionView::Try(
                queue[place + 1],
            )
            &&& place + 1 == queue.len() ==> !scan_is_trying(after) && action
                == ScanActionView::Finish(
                Err(
                    ScanErrorView::NoneResponded { found: queue.len(), failures: after.failures },
                ),
            )
        }),
{
    let (after, action) = scan_step(scan, event);
    assert(after.failures.take(place) =~= scan.failures);
}

/// A dongle is being tried until one has answered or all of them have failed.
pub proof fn search_goes_on_until_it_is_over(scan: ScanView)
    ensures
        scan_is_trying(scan) <==> !scan.answered && scan.failures.len() < candidates(
            scan.devices,
            scan.devices.len(),
        ).len(),
{
}

/// A search starts with the first dongle, and fails at once where there is none.
pub proof fn search_starts_with_the_first_dongle(devices: Seq<DeviceView>)
    ensures
        ({
            let queue = candidates(devices, devices.len());
            let start = ScanView { devices, failures: seq![], answered: false };
            &&& scan_queue(start) == queue
            &&& queue.len() > 0 ==> scan_next(start) == ScanActionView::Try(queue[0])
                && scan_is_trying(start)
            &&& queue.len() == 0 ==> scan_next(start) == ScanActionView::Finish(
                Err(ScanErrorView::NotFound),
            ) && !scan_is_trying(start)
        }),
{
}

/// A probe asks the device in hand, and searches for one where there is none.
pub proof fn device_in_hand_is_asked_first(probe: ProbeView)
    ensures
        ({
            let (after, action) = probe_step(probe, ProbeEventView::Begin);
            &&& after.has_device == probe.has_device
            &&& probe.has_device ==> action == ProbeActionView::Query && after.phase
                == ProbePhaseView::Querying
            &&& !probe.has_device ==> action == ProbeActionView::Open && after.phase == (
            ProbePhaseView::Opening { lost: None })
        }),
{
}

/// Whoever tells the state, the device in hand or one that was searched for: the probe ends with
/// that very state, and the device that told it is in hand.
pub proof fn probe_ends_with_the_state_that_was_told(probe: ProbeView, state: HeadsetState)
    ensures
        probe_step(probe, ProbeEventView::Queried(Ok(state))) == (
            ProbeView { has_device: true, phase: ProbePhaseView::Idle },
            ProbeActionView::Finish(Ok(state)),
        ),
        probe_step(probe, ProbeEventView::Opened(Ok(state))) == (
            ProbeView { has_device: true, phase: ProbePhaseView::Idle },
            ProbeActionView::Finish(Ok(state)),
        ),
{
}

/// A device in hand that does not answer is let go of and another one searched for; where that
/// comes to nothing, the probe ends without a device, and with both reasons, or with the one where
/// there was no device to lose.
pub proof fn lost_device_is_searched_for(
    probe: ProbeView,
    lost: Seq<char>,
    message: Seq<char>,
)
    ensures
        probe_step(probe, ProbeEventView::Queried(Err(lost))) == (
            ProbeView {
                has_device: false,
                phase: ProbePhaseView::Opening { lost: Some(lost) },
            },
            ProbeActionView::Open,
        ),
        probe.phase == (ProbePhaseView::Opening { lost: Some(lost) }) ==> probe_step(
            probe,
            ProbeEventView::Opened(Err(message)),
        ) == (
            ProbeView { has_device: false, phase: ProbePhaseView::Idle },
            ProbeActionView::Finish(
                Err(
                    "lost HyperX HID connection: "@ + lost + "; reconnect failed: "@ + message,
                ),
            ),
        ),
        probe.phase == (ProbePhaseView::Opening { lost: None }) ==> probe_step(
            probe,
            ProbeEventView::Opened(Err(message)),
        ) == (
            ProbeView { has_device: false, phase: ProbePhaseView::Idle },
            ProbeActionView::Finish(Err(message)),
        ),
{
}

/// A probe takes the outcome of what it asked for, and nothing else; between two probes it can
/// only begin.
pub proof fn probe_takes_what_it_asked_for(phase: ProbePhaseView, event: ProbeEventView)
    ensures
        probe_expects(phase, event) <==> match phase {
            ProbePhaseView::Idle => event is Begin,
            ProbePhaseView::Querying => event is Queried,
            ProbePhaseView::Opening { .. } => event is Opened,
        },
{
}

} // verus!
