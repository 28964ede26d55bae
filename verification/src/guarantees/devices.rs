//! What holds of the search for a dongle and of the questions put to it.
use vstd::prelude::*;

use crate::hid::{
    failed_query, query_step, remaining_ms, state_request, told_state, HeadsetState,
    QueryActionView, QueryErrorView, QueryEventView, QueryPhase, MAX_STALE_REPORTS,
};
use crate::probe::{
    candidates, is_candidate, is_dongle, probe_step, scan_next, scan_step, DeviceView,
    ProbeActionView, ProbeEventView, ProbePhaseView, ProbeView, ScanActionView, ScanErrorView,
    ScanEventView, ScanView,
};
use crate::time::MILLISECOND;

verus! {

/// The places to try are in order, and each of them is a candidate.
pub(crate) proof fn lemma_candidates(devices: Seq<DeviceView>, n: nat)
    requires
        n <= devices.len() <= usize::MAX,
    ensures
        ({
            let places = candidates(devices, n);
            &&& forall|k: int|
                0 <= k < places.len() ==> (#[trigger] places[k]) < n && is_candidate(
                    devices,
                    places[k] as int,
                )
            &&& forall|k: int, l: int| 0 <= k < l < places.len() ==> places[k] < places[l]
            &&& forall|i: int| 0 <= i < n && is_candidate(devices, i) ==> places.contains(i as usize)
        }),
    decreases n,
{
    if n > 0 {
        let before = candidates(devices, (n - 1) as nat);
        let places = candidates(devices, n);
        lemma_candidates(devices, (n - 1) as nat);
        assert forall|i: int| 0 <= i < n && is_candidate(devices, i) implies places.contains(
            i as usize,
        ) by {
            if i < n - 1 {
                assert(before.contains(i as usize));
                let k = choose|k: int| 0 <= k < before.len() && before[k] == i as usize;
                assert(places[k] == i as usize);
            } else {
                assert(places[places.len() - 1] == i as usize);
            }
        }
    }
}

/// Only dongles are opened, and no path twice.
pub proof fn each_dongle_path_is_opened_once(devices: Seq<DeviceView>, k: int, l: int)
    requires
        devices.len() <= usize::MAX,
        0 <= k < candidates(devices, devices.len()).len(),
        0 <= l < candidates(devices, devices.len()).len(),
        k != l,
    ensures
        ({
            let places = candidates(devices, devices.len());
            &&& places[k] < devices.len()
            &&& is_dongle(devices[places[k] as int])
            &&& devices[places[k] as int].path != devices[places[l] as int].path
        }),
{
    lemma_candidates(devices, devices.len());
    let places = candidates(devices, devices.len());
    assert(is_candidate(devices, places[k] as int) && is_candidate(devices, places[l] as int));
    if k < l {
        assert(places[k] < places[l]);
        assert(is_dongle(devices[places[k] as int]));
    } else {
        assert(places[l] < places[k]);
        assert(is_dongle(devices[places[l] as int]));
    }
}

/// No dongle is left out: the path of every one of them is among those that are opened.
pub proof fn every_dongle_path_is_opened(devices: Seq<DeviceView>, i: int)
    requires
        devices.len() <= usize::MAX,
        0 <= i < devices.len(),
        is_dongle(devices[i]),
    ensures
        exists|k: int|
            0 <= k < candidates(devices, devices.len()).len() && devices[(
            #[trigger] candidates(devices, devices.len())[k]) as int].path == devices[i].path,
    decreases i,
{
    lemma_candidates(devices, devices.len());
    let places = candidates(devices, devices.len());
    if is_candidate(devices, i) {
        assert(places.contains(i as usize));
        let k = choose|k: int| 0 <= k < places.len() && places[k] == i as usize;
        assert(devices[places[k] as int].path == devices[i].path);
    } else {
        let j = choose|j: int|
            0 <= j < i && is_dongle(#[trigger] devices[j]) && devices[j].path == devices[i].path;
        every_dongle_path_is_opened(devices, j);
    }
}

/// A search after a row of events.
pub open spec fn searched(scan: ScanView, events: Seq<ScanEventView>) -> ScanView
    decreases events.len(),
{
    if events.len() == 0 {
        scan
    } else {
        scan_step(searched(scan, events.drop_last()), events.last()).0
    }
}

/// As long as no dongle answers, all of them are tried in order; when none is left, the search
/// fails with one reason for each of them.
pub proof fn search_tries_every_candidate(devices: Seq<DeviceView>, failures: Seq<ScanEventView>)
    requires
        failures.len() <= candidates(devices, devices.len()).len(),
        forall|i: int| 0 <= i < failures.len() ==> !((#[trigger] failures[i]) is Answered),
    ensures
        ({
            let queue = candidates(devices, devices.len());
            let start = ScanView { devices, failures: seq![], answered: false };
            let end = searched(start, failures);
            &&& end.failures.len() == failures.len()
            &&& failures.len() < queue.len() ==> scan_next(end) == ScanActionView::Try(
                queue[failures.len() as int],
            )
            &&& failures.len() == queue.len() && queue.len() > 0 ==> scan_next(end)
                == ScanActionView::Finish(
                Err(
                    ScanErrorView::NoneResponded { found: queue.len(), failures: end.failures },
                ),
            )
            &&& queue.len() == 0 ==> scan_next(end) == ScanActionView::Finish(
                Err(ScanErrorView::NotFound),
            )
            &&& failures.len() > 0 ==> scan_step(
                searched(start, failures.drop_last()),
                failures.last(),
            ).1 == scan_next(end)
        }),
{
    lemma_searched(devices, failures);
    if failures.len() > 0 {
        lemma_searched(devices, failures.drop_last());
        assert(!(failures[failures.len() - 1] is Answered));
    }
}

/// A search counts the failures and does not end while none answers.
proof fn lemma_searched(devices: Seq<DeviceView>, failures: Seq<ScanEventView>)
    requires
        forall|i: int| 0 <= i < failures.len() ==> !((#[trigger] failures[i]) is Answered),
    ensures
        ({
            let start = ScanView { devices, failures: seq![], answered: false };
            let end = searched(start, failures);
            end.devices == devices && end.failures.len() == failures.len() && !end.answered
        }),
    decreases failures.len(),
{
    if failures.len() > 0 {
        let before = failures.drop_last();
        assert forall|i: int| 0 <= i < before.len() implies !((
        #[trigger] before[i]) is Answered) by {
            assert(before[i] == failures[i]);
        }
        lemma_searched(devices, before);
        assert(!(failures[failures.len() - 1] is Answered));
    }
}

/// A query after a row of events.
pub open spec fn asked(phase: QueryPhase, events: Seq<QueryEventView>) -> QueryPhase
    decreases events.len(),
{
    if events.len() == 0 {
        phase
    } else {
        query_step(asked(phase, events.drop_last()), events.last()).0
    }
}

/// A noisy device does not hold up the daemon: a query drops so many stale reports one by one, and
/// gives up on a device that has sent that many.
pub proof fn stale_reports_are_bounded(reports: Seq<QueryEventView>)
    requires
        reports.len() <= MAX_STALE_REPORTS,
        forall|i: int|
            0 <= i < reports.len() ==> ((#[trigger] reports[i]) matches QueryEventView::Report(bytes)
                && bytes.len() > 0),
    ensures
        reports.len() < MAX_STALE_REPORTS ==> asked(QueryPhase::Draining { dropped: 0 }, reports)
            == (QueryPhase::Draining { dropped: reports.len() as usize }),
        reports.len() == MAX_STALE_REPORTS ==> query_step(
            asked(QueryPhase::Draining { dropped: 0 }, reports.drop_last()),
            reports.last(),
        ) == failed_query(QueryErrorView::NotDrained),
    decreases reports.len(),
{
    if reports.len() > 0 {
        let before = reports.drop_last();
        assert forall|i: int| 0 <= i < before.len() implies ((
        #[trigger] before[i]) matches QueryEventView::Report(bytes) && bytes.len() > 0) by {
            assert(before[i] == reports[i]);
        }
        stale_reports_are_bounded(before);
        assert(reports[reports.len() - 1] == reports.last());
    }
}

/// The request is sent only when no stale report is left, and it is always the same one.
pub proof fn request_follows_an_empty_queue(phase: QueryPhase, event: QueryEventView)
    ensures
        query_step(phase, event).1 matches QueryActionView::Write(bytes) ==> bytes
            == state_request() && phase is Draining && (event matches QueryEventView::Report(report)
            && report.len() == 0),
{
}

/// A query succeeds only with a state that a report told after the request was sent.
pub proof fn state_comes_from_a_report(
    phase: QueryPhase,
    event: QueryEventView,
    state: HeadsetState,
)
    requires
        query_step(phase, event).1 == QueryActionView::Finish(Ok(state)),
    ensures
        phase is Reading,
        event matches QueryEventView::Report(report) && told_state(report) == Some(state),
{
}

/// Reports that tell nothing are passed over without more time being granted: the deadline stays,
/// no single read waits beyond it by more than a millisecond, and once it is reached the query is
/// given up.
pub proof fn waiting_ends_at_the_deadline(deadline: u128, now: u128, report: Seq<u8>)
    requires
        report.len() > 0,
        told_state(report) is None,
    ensures
        query_step(QueryPhase::Reading { deadline }, QueryEventView::Report(report)) == (
            QueryPhase::Timing { deadline },
            QueryActionView::ReadClock,
        ),
        now >= deadline ==> query_step(
            QueryPhase::Timing { deadline },
            QueryEventView::Clock { now },
        ) == failed_query(QueryErrorView::TimedOut),
        now < deadline ==> (query_step(
            QueryPhase::Timing { deadline },
            QueryEventView::Clock { now },
        ).1 matches QueryActionView::Read { timeout_ms } && 1 <= timeout_ms && now + (timeout_ms
            - 1) * MILLISECOND <= deadline),
{
    if now < deadline {
        let left = deadline - now;
        let ms = left / MILLISECOND as int;
        let timeout = remaining_ms(deadline, now);
        assert(left == ms * MILLISECOND + left % (MILLISECOND as int)) by {
            vstd::arithmetic::div_mod::lemma_fundamental_div_mod(left, MILLISECOND as int);
        }
        assert((timeout - 1) * MILLISECOND <= left) by (nonlinear_arith)
            requires
                left >= ms * MILLISECOND,
                left >= 0,
                ms >= 0,
                timeout - 1 <= ms,
                timeout >= 1,
        ;
    }
}

/// A device that answers is kept, and it is the one that is asked next; one that does not is let
/// go, and another one is searched for.
pub proof fn answering_device_is_kept(
    probe: ProbeView,
    state: HeadsetState,
    message: Seq<char>,
)
    ensures
        ({
            let (kept, told) = probe_step(probe, ProbeEventView::Opened(Ok(state)));
            let (asked, question) = probe_step(kept, ProbeEventView::Begin);
            let (lost, search) = probe_step(asked, ProbeEventView::Queried(Err(message)));
            &&& told == ProbeActionView::Finish(Ok(state))
            &&& question is Query
            &&& search is Open
            &&& !lost.has_device
            &&& lost.phase == (ProbePhaseView::Opening { lost: Some(message) })
        }),
{
}

} // verus!
