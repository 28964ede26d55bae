//! The headset's dongle: what it is asked and what its reports mean.
use vstd::prelude::*;

use crate::number::{decimal, decimal_text};
use crate::time::{LAST_INSTANT, MILLISECOND};

verus! {

/// The first byte of a request.
pub const REPORT_ID: u8 = 0x0c;

/// The first byte of an answer to a request.
pub const RESPONSE_ID: u8 = 0x0c;

/// The first byte of a report that nobody asked for.
pub const NOTIFICATION_ID: u8 = 0x0d;

/// The request for the power state.
pub const CONNECTED_COMMAND_ID: u8 = 0x02;

/// The notification of a change of the power state.
pub const CONNECTED_NOTIFICATION_ID: u8 = 12;

/// The size of a request in bytes.
pub const REPORT_SIZE: usize = 64;

/// The most bytes taken from one report.
pub const RESPONSE_BUFFER_SIZE: usize = 256;

/// How long an answer may take, in nanoseconds.
pub const RESPONSE_TIMEOUT: u128 = 1_000_000_000;

/// How many stale reports are dropped before a request.
pub const MAX_STALE_REPORTS: usize = 64;

/// Whether the headset is switched on and in reach of its dongle.
#[derive(Debug, Clone, Copy, PartialEq, Eq, Structural)]
pub enum HeadsetState {
    Connected,
    Disconnected,
}

impl HeadsetState {
    /// Whether the headset is on.
    pub fn is_connected(self) -> (r: bool)
        ensures
            r == (self is Connected),
    {
        match self {
            HeadsetState::Connected => true,
            HeadsetState::Disconnected => false,
        }
    }

    /// The state in words.
    pub fn label(self) -> (text: &'static str)
        ensures
            text@ == state_text(self),
    {
        match self {
            HeadsetState::Connected => "connected",
            HeadsetState::Disconnected => "disconnected",
        }
    }
}

/// A power state in words.
pub open spec fn state_text(state: HeadsetState) -> Seq<char> {
    match state {
        HeadsetState::Connected => "connected"@,
        HeadsetState::Disconnected => "disconnected"@,
    }
}

/// The power state that a report tells. An answer to the request has it in its seventh byte, two
/// for on; a notification has it in its sixth byte, one for on; zero is off in both. Nothing else
/// tells a state.
pub open spec fn told_state(report: Seq<u8>) -> Option<HeadsetState> {
    if report.len() >= 7 && report[0] == RESPONSE_ID && report[5] == CONNECTED_COMMAND_ID {
        if report[6] == 0 {
            Some(HeadsetState::Disconnected)
        } else if report[6] == 2 {
            Some(HeadsetState::Connected)
        } else {
            None
        }
    } else if report.len() >= 6 && report[0] == NOTIFICATION_ID && report[4]
        == CONNECTED_NOTIFICATION_ID {
        if report[5] == 0 {
            Some(HeadsetState::Disconnected)
        } else if report[5] == 1 {
            Some(HeadsetState::Connected)
        } else {
            None
        }
    } else {
        None
    }
}

/// The power state that `response` tells.
pub fn parse_connected_state(response: &[u8]) -> (r: Option<HeadsetState>)
    ensures
        r == told_state(response@),
{
    if response.len() >= 7 && response[0] == RESPONSE_ID && response[5] == CONNECTED_COMMAND_ID {
        return match response[6] {
            0 => Some(HeadsetState::Disconnected),
            2 => Some(HeadsetState::Connected),
            _ => None,
        };
    }
    if response.len() >= 6 && response[0] == NOTIFICATION_ID && response[4]
        == CONNECTED_NOTIFICATION_ID {
        return match response[5] {
            0 => Some(HeadsetState::Disconnected),
            1 => Some(HeadsetState::Connected),
            _ => None,
        };
    }
    None
}

/// The request for the power state: six bytes, then zeros.
pub open spec fn state_request() -> Seq<u8> {
    Seq::new(
        REPORT_SIZE as nat,
        |i: int|
            if i == 0 {
                REPORT_ID
            } else if i == 1 {
                0x02
            } else if i == 2 {
                0x03
            } else if i == 3 {
                0x01
            } else if i == 5 {
                CONNECTED_COMMAND_ID
            } else {
                0
            },
    )
}

/// The request for the power state.
pub fn connected_request() -> (packet: Vec<u8>)
    ensures
        packet@ == state_request(),
{
    let mut packet: Vec<u8> = Vec::new();
    packet.push(REPORT_ID);
    packet.push(0x02);
    packet.push(0x03);
    packet.push(0x01);
    packet.push(0x00);
    packet.push(CONNECTED_COMMAND_ID);
    while packet.len() < REPORT_SIZE
        invariant
            6 <= packet@.len() <= REPORT_SIZE,
            packet@ == state_request().take(packet@.len() as int),
        decreases REPORT_SIZE - packet@.len(),
    {
        packet.push(0);
    }
    packet
}

/// Why the dongle gave no answer.
#[derive(Debug)]
pub enum QueryError {
    /// Reading stale reports failed.
    Drain(String),
    /// Stale reports kept coming.
    NotDrained,
    /// Sending the request failed.
    Write(String),
    /// Only so many bytes of the request were sent.
    ShortWrite(usize),
    /// No answer came in time.
    TimedOut,
    /// Reading the answer failed.
    Read(String),
}

/// Why the dongle gave no answer, in the model.
pub enum QueryErrorView {
    Drain(Seq<char>),
    NotDrained,
    Write(Seq<char>),
    ShortWrite(nat),
    TimedOut,
    Read(Seq<char>),
}

impl View for QueryError {
    type V = QueryErrorView;

    open spec fn view(&self) -> QueryErrorView {
        match self {
            QueryError::Drain(cause) => QueryErrorView::Drain(cause@),
            QueryError::NotDrained => QueryErrorView::NotDrained,
            QueryError::Write(cause) => QueryErrorView::Write(cause@),
            QueryError::ShortWrite(written) => QueryErrorView::ShortWrite(*written as nat),
            QueryError::TimedOut => QueryErrorView::TimedOut,
            QueryError::Read(cause) => QueryErrorView::Read(cause@),
        }
    }
}

/// The message of an error.
pub open spec fn query_error_text(error: QueryErrorView) -> Seq<char> {
    match error {
        QueryErrorView::Drain(cause) => "failed while draining stale HID reports: "@ + cause,
        QueryErrorView::NotDrained => "HID report queue did not drain after "@ + decimal_text(
            MAX_STALE_REPORTS as nat,
        ) + " reports"@,
        QueryErrorView::Write(cause) => "failed to write connected-state HID request: "@ + cause,
        QueryErrorView::ShortWrite(written) => "short connected-state HID write: wrote "@
            + decimal_text(written) + " of "@ + decimal_text(REPORT_SIZE as nat) + " bytes"@,
        QueryErrorView::TimedOut => "timed out waiting for connected-state HID response"@,
        QueryErrorView::Read(cause) => "failed to read HID response: "@ + cause,
    }
}

impl QueryError {
    /// The message for the log.
    pub fn message(&self) -> (text: String)
        ensures
            text@ == query_error_text(self@),
    {
        match self {
            QueryError::Drain(cause) => {
                "failed while draining stale HID reports: ".to_owned().concat(cause.as_str())
            },
            QueryError::NotDrained => {
                "HID report queue did not drain after ".to_owned().concat(
                    decimal(MAX_STALE_REPORTS as u64).as_str(),
                ).concat(" reports")
            },
            QueryError::Write(cause) => {
                "failed to write connected-state HID request: ".to_owned().concat(cause.as_str())
            },
            QueryError::ShortWrite(written) => {
                "short connected-state HID write: wrote ".to_owned().concat(
                    decimal(*written as u64).as_str(),
                ).concat(" of ").concat(decimal(REPORT_SIZE as u64).as_str()).concat(" bytes")
            },
            QueryError::TimedOut => {
                "timed out waiting for connected-state HID response".to_owned()
            },
            QueryError::Read(cause) => {
                "failed to read HID response: ".to_owned().concat(cause.as_str())
            },
        }
    }
}

/// How far a query has come.
#[derive(Debug, Clone, Copy, PartialEq, Eq, Structural)]
pub enum QueryPhase {
    /// Dropping stale reports; so many are gone.
    Draining { dropped: usize },
    /// The request is on its way out.
    Writing,
    /// About to wait for a report until the deadline.
    Timing { deadline: u128 },
    /// Waiting for a report until the deadline.
    Reading { deadline: u128 },
    /// Over.
    Finished,
}

/// What came of the last step.
#[derive(Debug)]
pub enum QueryEvent {
    /// The bytes that were read; none if the time was up.
    Report(Vec<u8>),
    /// Reading failed.
    ReadFailed(String),
    /// So many bytes were sent, and this is the time.
    Wrote { written: usize, now: u128 },
    /// Sending failed.
    WriteFailed(String),
    /// This is the time.
    Clock { now: u128 },
}

/// What came of the last step, in the model.
pub enum QueryEventView {
    Report(Seq<u8>),
    ReadFailed(Seq<char>),
    Wrote { written: nat, now: u128 },
    WriteFailed(Seq<char>),
    Clock { now: u128 },
}

impl View for QueryEvent {
    type V = QueryEventView;

    open spec fn view(&self) -> QueryEventView {
        match self {
            QueryEvent::Report(bytes) => QueryEventView::Report(bytes@),
            QueryEvent::ReadFailed(cause) => QueryEventView::ReadFailed(cause@),
            QueryEvent::Wrote { written, now } => QueryEventView::Wrote {
                written: *written as nat,
                now: *now,
            },
            QueryEvent::WriteFailed(cause) => QueryEventView::WriteFailed(cause@),
            QueryEvent::Clock { now } => QueryEventView::Clock { now: *now },
        }
    }
}

/// What to do next.
#[derive(Debug)]
pub enum QueryAction {
    /// Read a report and wait at most so long, in milliseconds.
    Read { timeout_ms: i32 },
    /// Send these bytes.
    Write(Vec<u8>),
    /// Look at the clock.
    ReadClock,
    /// The query is over.
    Finish(Result<HeadsetState, QueryError>),
}

/// What to do next, in the model.
pub enum QueryActionView {
    Read { timeout_ms: int },
    Write(Seq<u8>),
    ReadClock,
    Finish(Result<HeadsetState, QueryErrorView>),
}

impl View for QueryAction {
    type V = QueryActionView;

    open spec fn view(&self) -> QueryActionView {
        match self {
            QueryAction::Read { timeout_ms } => QueryActionView::Read {
                timeout_ms: *timeout_ms as int,
            },
            QueryAction::Write(bytes) => QueryActionView::Write(bytes@),
            QueryAction::ReadClock => QueryActionView::ReadClock,
            QueryAction::Finish(Ok(state)) => QueryActionView::Finish(Ok(*state)),
            QueryAction::Finish(Err(error)) => QueryActionView::Finish(Err(error@)),
        }
    }
}

/// The milliseconds from `now` to the deadline, at least one.
pub open spec fn remaining_ms(deadline: u128, now: u128) -> int {
    let ms = (deadline - now) / MILLISECOND as int;
    if ms < 1 {
        1
    } else if ms > i32::MAX {
        i32::MAX as int
    } else {
        ms
    }
}

/// Whether an event can come of what was done in that phase.
pub open spec fn query_expects(phase: QueryPhase, event: QueryEventView) -> bool {
    match event {
        QueryEventView::Report(_) | QueryEventView::ReadFailed(_) => phase is Draining
            || phase is Reading,
        QueryEventView::Wrote { now, .. } => phase is Writing && now <= LAST_INSTANT,
        QueryEventView::WriteFailed(_) => phase is Writing,
        QueryEventView::Clock { .. } => phase is Timing,
    }
}

/// The course of a query: stale reports are dropped until none is left, at most so many; the
/// request is sent whole; then reports are read until one tells the state or the time is up.
pub open spec fn query_step(phase: QueryPhase, event: QueryEventView) -> (
    QueryPhase,
    QueryActionView,
) {
    match (phase, event) {
        (QueryPhase::Draining { dropped }, QueryEventView::Report(bytes)) => if bytes.len() == 0 {
            (QueryPhase::Writing, QueryActionView::Write(state_request()))
        } else if dropped + 1 < MAX_STALE_REPORTS {
            (
                QueryPhase::Draining { dropped: (dropped + 1) as usize },
                QueryActionView::Read { timeout_ms: 0 },
            )
        } else {
            failed_query(QueryErrorView::NotDrained)
        },
        (QueryPhase::Draining { .. }, QueryEventView::ReadFailed(cause)) => failed_query(
            QueryErrorView::Drain(cause),
        ),
        (QueryPhase::Writing, QueryEventView::Wrote { written, now }) => if written
            == REPORT_SIZE {
            (
                QueryPhase::Timing { deadline: (now + RESPONSE_TIMEOUT) as u128 },
                QueryActionView::ReadClock,
            )
        } else {
            failed_query(QueryErrorView::ShortWrite(written))
        },
        (QueryPhase::Writing, QueryEventView::WriteFailed(cause)) => failed_query(
            QueryErrorView::Write(cause),
        ),
        (QueryPhase::Timing { deadline }, QueryEventView::Clock { now }) => if now >= deadline {
            failed_query(QueryErrorView::TimedOut)
        } else {
            (
                QueryPhase::Reading { deadline },
                QueryActionView::Read { timeout_ms: remaining_ms(deadline, now) },
            )
        },
        (QueryPhase::Reading { deadline }, QueryEventView::Report(bytes)) => if bytes.len() == 0 {
            failed_query(QueryErrorView::TimedOut)
        } else {
            match told_state(bytes) {
                Some(state) => (QueryPhase::Finished, QueryActionView::Finish(Ok(state))),
                None => (QueryPhase::Timing { deadline }, QueryActionView::ReadClock),
            }
        },
        (QueryPhase::Reading { .. }, QueryEventView::ReadFailed(cause)) => failed_query(
            QueryErrorView::Read(cause),
        ),
        _ => (phase, QueryActionView::ReadClock),
    }
}

/// The end of a query that failed.
pub open spec fn failed_query(error: QueryErrorView) -> (QueryPhase, QueryActionView) {
    (QueryPhase::Finished, QueryActionView::Finish(Err(error)))
}

/// A query for the power state.
#[derive(Debug)]
pub struct Query {
    phase: QueryPhase,
}

impl Query {
    /// How far the query has come.
    pub closed spec fn phase(&self) -> QueryPhase {
        self.phase
    }

    /// Starts a query. The first thing to do is to read a stale report without waiting.
    pub fn begin() -> (r: (Self, QueryAction))
        ensures
            r.0.phase() == (QueryPhase::Draining { dropped: 0 }),
            r.1@ == (QueryActionView::Read { timeout_ms: 0 }),
    {
        (
            Query { phase: QueryPhase::Draining { dropped: 0 } },
            QueryAction::Read { timeout_ms: 0 },
        )
    }

    /// Whether `event` can come of what was done last.
    pub fn expects(&self, event: &QueryEvent) -> (r: bool)
        ensures
            r == query_expects(self.phase(), event@),
    {
        match (self.phase, event) {
            (QueryPhase::Draining { .. }, QueryEvent::Report(_)) => true,
            (QueryPhase::Draining { .. }, QueryEvent::ReadFailed(_)) => true,
            (QueryPhase::Reading { .. }, QueryEvent::Report(_)) => true,
            (QueryPhase::Reading { .. }, QueryEvent::ReadFailed(_)) => true,
            (QueryPhase::Writing, QueryEvent::Wrote { now, .. }) => *now <= LAST_INSTANT,
            (QueryPhase::Writing, QueryEvent::WriteFailed(_)) => true,
            (QueryPhase::Timing { .. }, QueryEvent::Clock { .. }) => true,
            _ => false,
        }
    }

    /// Takes what came of the last step and says what to do next.
    pub fn step(&mut self, event: QueryEvent) -> (action: QueryAction)
        requires
            query_expects(old(self).phase(), event@),
        ensures
            (final(self).phase(), action@) == query_step(old(self).phase(), event@),
    {
        match (self.phase, event) {
            (QueryPhase::Draining { dropped }, QueryEvent::Report(bytes)) => {
                if bytes.len() == 0 {
                    self.phase = QueryPhase::Writing;
                    QueryAction::Write(connected_request())
                } else if dropped < MAX_STALE_REPORTS - 1 {
                    self.phase = QueryPhase::Draining { dropped: dropped + 1 };
                    QueryAction::Read { timeout_ms: 0 }
                } else {
                    self.fail(QueryError::NotDrained)
                }
            },
            (QueryPhase::Draining { .. }, QueryEvent::ReadFailed(cause)) => {
                self.fail(QueryError::Drain(cause))
            },
            (QueryPhase::Writing, QueryEvent::Wrote { written, now }) => {
                if written == REPORT_SIZE {
                    self.phase = QueryPhase::Timing { deadline: now + RESPONSE_TIMEOUT };
                    QueryAction::ReadClock
                } else {
                    self.fail(QueryError::ShortWrite(written))
                }
            },
            (QueryPhase::Writing, QueryEvent::WriteFailed(cause)) => {
                self.fail(QueryError::Write(cause))
            },
            (QueryPhase::Timing { deadline }, QueryEvent::Clock { now }) => {
                if now >= deadline {
                    self.fail(QueryError::TimedOut)
                } else {
                    self.phase = QueryPhase::Reading { deadline };
                    QueryAction::Read { timeout_ms: clamp_ms((deadline - now) / MILLISECOND) }
                }
            },
            (QueryPhase::Reading { deadline }, QueryEvent::Report(bytes)) => {
                if bytes.len() == 0 {
                    self.fail(QueryError::TimedOut)
                } else {
                    match parse_connected_state(bytes.as_slice()) {
                        Some(state) => {
                            self.phase = QueryPhase::Finished;
                            QueryAction::Finish(Ok(state))
                        },
                        None => {
                            self.phase = QueryPhase::Timing { deadline };
                            QueryAction::ReadClock
                        },
                    }
                }
            },
            (QueryPhase::Reading { .. }, QueryEvent::ReadFailed(cause)) => {
                self.fail(QueryError::Read(cause))
            },
            _ => QueryAction::ReadClock,
        }
    }

    /// Ends the query with an error.
    fn fail(&mut self, error: QueryError) -> (action: QueryAction)
        ensures
            (final(self).phase(), action@) == failed_query(error@),
    {
        self.phase = QueryPhase::Finished;
        QueryAction::Finish(Err(error))
    }
}

/// `ms`, but at least one and at most what a timeout can hold.
fn clamp_ms(ms: u128) -> (r: i32)
    ensures
        r == (if ms < 1 {
            1int
        } else if ms > i32::MAX {
            i32::MAX as int
        } else {
            ms as int
        }),
{
    if ms < 1 {
        1
    } else if ms > 2_147_483_647 {
        2_147_483_647
    } else {
        ms as i32
    }
}

} // verus!
