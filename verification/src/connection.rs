//! The connection to the sound server: how long to wait for it, and what its answers come to.
use vstd::prelude::*;

use crate::sink::{reported_sink, sink_views, Sink, SinkReport, SinkView};
use crate::time::LAST_INSTANT;

verus! {

/// How long connecting may take, in nanoseconds.
pub const CONNECT_TIMEOUT: u128 = 5_000_000_000;

/// How long an operation may take, in nanoseconds.
pub const OPERATION_TIMEOUT: u128 = 3_000_000_000;

/// How long to rest between two looks at the connection, in nanoseconds.
pub const MAINLOOP_POLL_DELAY: u128 = 1_000_000;

/// The state of a connection as far as it matters.
#[derive(Debug, Clone, Copy, PartialEq, Eq, Structural)]
pub enum ConnectionState {
    /// Still being set up.
    Pending,
    /// In working order.
    Ready,
    /// It could not be made, or broke.
    Failed,
    /// It was closed.
    Terminated,
}

/// What is wrong with a connection.
#[derive(Debug)]
pub enum ConnectionError {
    NoMainloop,
    NoContext,
    Start(String),
    Failed,
    Terminated,
    TimedOut,
    Quit(String),
    Loop(String),
}

/// What is wrong with a connection, in the model.
pub enum ConnectionErrorView {
    NoMainloop,
    NoContext,
    Start(Seq<char>),
    Failed,
    Terminated,
    TimedOut,
    Quit(Seq<char>),
    Loop(Seq<char>),
}

impl View for ConnectionError {
    type V = ConnectionErrorView;

    open spec fn view(&self) -> ConnectionErrorView {
        match self {
            ConnectionError::NoMainloop => ConnectionErrorView::NoMainloop,
            ConnectionError::NoContext => ConnectionErrorView::NoContext,
            ConnectionError::Start(cause) => ConnectionErrorView::Start(cause@),
            ConnectionError::Failed => ConnectionErrorView::Failed,
            ConnectionError::Terminated => ConnectionErrorView::Terminated,
            ConnectionError::TimedOut => ConnectionErrorView::TimedOut,
            ConnectionError::Quit(value) => ConnectionErrorView::Quit(value@),
            ConnectionError::Loop(cause) => ConnectionErrorView::Loop(cause@),
        }
    }
}

/// The message of an error.
pub open spec fn connection_error_text(error: ConnectionErrorView) -> Seq<char> {
    match error {
        ConnectionErrorView::NoMainloop => "failed to create PulseAudio mainloop"@,
        ConnectionErrorView::NoContext => "failed to create PulseAudio context"@,
        ConnectionErrorView::Start(cause) => "failed to start PulseAudio/PipeWire connection: "@
            + cause,
        ConnectionErrorView::Failed => "PulseAudio/PipeWire connection failed"@,
        ConnectionErrorView::Terminated => "PulseAudio/PipeWire connection terminated"@,
        ConnectionErrorView::TimedOut => "timed out connecting to PulseAudio/PipeWire"@,
        ConnectionErrorView::Quit(value) => "PulseAudio mainloop quit unexpectedly with "@ + value,
        ConnectionErrorView::Loop(cause) => "PulseAudio mainloop error: "@ + cause,
    }
}

impl ConnectionError {
    /// The message for the log.
    pub fn message(&self) -> (text: String)
        ensures
            text@ == connection_error_text(self@),
    {
        match self {
            ConnectionError::NoMainloop => "failed to create PulseAudio mainloop".to_owned(),
            ConnectionError::NoContext => "failed to create PulseAudio context".to_owned(),
            ConnectionError::Start(cause) => {
                "failed to start PulseAudio/PipeWire connection: ".to_owned().concat(cause.as_str())
            },
            ConnectionError::Failed => "PulseAudio/PipeWire connection failed".to_owned(),
            ConnectionError::Terminated => "PulseAudio/PipeWire connection terminated".to_owned(),
            ConnectionError::TimedOut => "timed out connecting to PulseAudio/PipeWire".to_owned(),
            ConnectionError::Quit(value) => {
                "PulseAudio mainloop quit unexpectedly with ".to_owned().concat(value.as_str())
            },
            ConnectionError::Loop(cause) => {
                "PulseAudio mainloop error: ".to_owned().concat(cause.as_str())
            },
        }
    }
}

/// The end of a span of time that starts now.
pub fn deadline_after(now: u128, timeout: u128) -> (deadline: u128)
    requires
        now <= LAST_INSTANT,
        timeout <= LAST_INSTANT,
    ensures
        deadline == now + timeout,
{
    now + timeout
}

/// What to do while a connection is set up.
#[derive(Debug)]
pub enum ReadyStep {
    /// It is in working order.
    Ready,
    /// Give up.
    GiveUp(ConnectionError),
    /// Let the connection work, rest, and look again.
    Iterate,
}

/// What to do while a connection is set up, in the model.
pub enum ReadyView {
    Ready,
    GiveUp(ConnectionErrorView),
    Iterate,
}

impl View for ReadyStep {
    type V = ReadyView;

    open spec fn view(&self) -> ReadyView {
        match self {
            ReadyStep::Ready => ReadyView::Ready,
            ReadyStep::GiveUp(error) => ReadyView::GiveUp(error@),
            ReadyStep::Iterate => ReadyView::Iterate,
        }
    }
}

/// What to do while a connection is set up: it is used as soon as it is ready, and given up when it
/// fails, is closed, or takes too long.
pub open spec fn ready_step(state: ConnectionState, now: u128, deadline: u128) -> ReadyView {
    match state {
        ConnectionState::Ready => ReadyView::Ready,
        ConnectionState::Failed => ReadyView::GiveUp(ConnectionErrorView::Failed),
        ConnectionState::Terminated => ReadyView::GiveUp(ConnectionErrorView::Terminated),
        ConnectionState::Pending => if now >= deadline {
            ReadyView::GiveUp(ConnectionErrorView::TimedOut)
        } else {
            ReadyView::Iterate
        },
    }
}

/// What to do while a connection is set up: it is used as soon as it is ready, and given up when it
/// fails, is closed, or takes too long.
pub fn wait_until_ready(state: ConnectionState, now: u128, deadline: u128) -> (step: ReadyStep)
    ensures
        step@ == ready_step(state, now, deadline),
{
    match state {
        ConnectionState::Ready => ReadyStep::Ready,
        ConnectionState::Failed => ReadyStep::GiveUp(ConnectionError::Failed),
        ConnectionState::Terminated => ReadyStep::GiveUp(ConnectionError::Terminated),
        ConnectionState::Pending => {
            if now >= deadline {
                ReadyStep::GiveUp(ConnectionError::TimedOut)
            } else {
                ReadyStep::Iterate
            }
        },
    }
}

/// What came of letting the connection work once.
#[derive(Debug)]
pub enum Iteration {
    Success,
    Quit(String),
    Failed(String),
}

/// What came of letting the connection work once, in the model.
pub enum IterationView {
    Success,
    Quit(Seq<char>),
    Failed(Seq<char>),
}

impl View for Iteration {
    type V = IterationView;

    open spec fn view(&self) -> IterationView {
        match self {
            Iteration::Success => IterationView::Success,
            Iteration::Quit(value) => IterationView::Quit(value@),
            Iteration::Failed(cause) => IterationView::Failed(cause@),
        }
    }
}

/// Whether the connection can go on after it worked once and is now in `state`. What went wrong
/// while it worked counts before the state.
pub open spec fn iterated(iteration: IterationView, state: ConnectionState) -> Result<
    (),
    ConnectionErrorView,
> {
    match iteration {
        IterationView::Quit(value) => Err(ConnectionErrorView::Quit(value)),
        IterationView::Failed(cause) => Err(ConnectionErrorView::Loop(cause)),
        IterationView::Success => match state {
            ConnectionState::Failed => Err(ConnectionErrorView::Failed),
            ConnectionState::Terminated => Err(ConnectionErrorView::Terminated),
            _ => Ok(()),
        },
    }
}

/// Whether the connection can go on after it worked once and is now in `state`. What went wrong
/// while it worked counts before the state.
pub fn iterate_nonblocking(iteration: Iteration, state: ConnectionState) -> (r: Result<
    (),
    ConnectionError,
>)
    ensures
        match r {
            Ok(()) => iterated(iteration@, state) == Ok::<(), ConnectionErrorView>(()),
            Err(error) => iterated(iteration@, state) == Err::<(), ConnectionErrorView>(error@),
        },
{
    match iteration {
        Iteration::Success => {},
        Iteration::Quit(value) => {
            return Err(ConnectionError::Quit(value));
        },
        Iteration::Failed(cause) => {
            return Err(ConnectionError::Loop(cause));
        },
    }
    match state {
        ConnectionState::Failed => Err(ConnectionError::Failed),
        ConnectionState::Terminated => Err(ConnectionError::Terminated),
        _ => Ok(()),
    }
}

/// The place where the answer to an operation arrives.
#[derive(Debug)]
pub struct SharedResult<T> {
    value: Option<Result<T, String>>,
}

/// A place where no answer has arrived yet.
pub fn shared_result<T>() -> (r: SharedResult<T>)
    ensures
        r.value() is None,
{
    SharedResult { value: None }
}

impl<T> SharedResult<T> {
    /// The answer, once it has arrived and until it is taken.
    pub closed spec fn value(self) -> Option<Result<T, String>> {
        self.value
    }

    /// The answer has arrived.
    pub fn set(&mut self, value: Result<T, String>)
        ensures
            final(self).value() == Some(value),
    {
        self.value = Some(value);
    }

    /// Takes the answer, if it has arrived.
    pub fn take(&mut self) -> (r: Option<Result<T, String>>)
        ensures
            r == old(self).value(),
            final(self).value() is None,
    {
        self.value.take()
    }
}

/// What to do while an operation is under way.
#[derive(Debug)]
pub enum WaitStep<T> {
    /// The operation is over.
    Done(T),
    /// The server reported a failure.
    Failed(String),
    /// It took too long.
    TimedOut(String),
    /// Let the connection work, rest, and look again.
    Iterate,
}

/// What is asked of the sound server.
#[derive(Debug, Clone, Copy, PartialEq, Eq, Structural)]
pub enum Operation {
    ListSinks,
    ReadDefault,
    SetDefault,
    ListInputs,
    MoveInput,
    WatchChanges,
}

/// An operation in words.
pub open spec fn operation_text(operation: Operation) -> Seq<char> {
    match operation {
        Operation::ListSinks => "listing playback sinks"@,
        Operation::ReadDefault => "reading the default sink"@,
        Operation::SetDefault => "setting the default sink"@,
        Operation::ListInputs => "listing playback streams"@,
        Operation::MoveInput => "moving a playback stream"@,
        Operation::WatchChanges => "subscribing to audio changes"@,
    }
}

impl Operation {
    /// The operation in words.
    pub fn text(self) -> (text: &'static str)
        ensures
            text@ == operation_text(self),
    {
        match self {
            Operation::ListSinks => "listing playback sinks",
            Operation::ReadDefault => "reading the default sink",
            Operation::SetDefault => "setting the default sink",
            Operation::ListInputs => "listing playback streams",
            Operation::MoveInput => "moving a playback stream",
            Operation::WatchChanges => "subscribing to audio changes",
        }
    }
}

/// Whether `step` is what to do while an operation is under way: an answer that has arrived is
/// taken, whatever the time; without one the operation is given up at the deadline.
pub open spec fn is_wait_step<T>(
    answer: Option<Result<T, String>>,
    operation: Seq<char>,
    now: u128,
    deadline: u128,
    step: WaitStep<T>,
) -> bool {
    match answer {
        Some(Ok(value)) => step == WaitStep::Done(value),
        Some(Err(message)) => step == WaitStep::<T>::Failed(message),
        None => if now >= deadline {
            step matches WaitStep::TimedOut(text) && text@ == "timed out while "@ + operation
        } else {
            step is Iterate
        },
    }
}

/// What to do while an operation is under way: an answer that has arrived is taken, whatever the
/// time; without one the operation is given up at the deadline.
pub fn wait_for<T>(slot: &mut SharedResult<T>, operation: &str, now: u128, deadline: u128) -> (step:
    WaitStep<T>)
    ensures
        final(slot).value() is None,
        is_wait_step(old(slot).value(), operation@, now, deadline, step),
{
    match slot.take() {
        Some(Ok(value)) => WaitStep::Done(value),
        Some(Err(message)) => WaitStep::Failed(message),
        None => {
            if now >= deadline {
                WaitStep::TimedOut("timed out while ".to_owned().concat(operation))
            } else {
                WaitStep::Iterate
            }
        },
    }
}

/// What the server lists.
#[derive(Debug, Clone, Copy, PartialEq, Eq, Structural)]
pub enum Listed {
    Sinks,
    Inputs,
}

/// The message of a list that the server broke off.
pub open spec fn listing_failure(listed: Listed) -> Seq<char> {
    match listed {
        Listed::Sinks => "PulseAudio failed while listing sinks"@,
        Listed::Inputs => "PulseAudio failed while listing playback streams"@,
    }
}

/// What the server sends of a list.
#[derive(Debug)]
pub enum ListEntry<T> {
    Item(T),
    /// The list is complete.
    End,
    /// The list was broken off.
    Error,
}

/// What the server sends of a list, in the model; an item may be one to pass over.
pub enum EntryView<A> {
    Item(Option<A>),
    End,
    Error,
}

/// An entry in the model.
pub open spec fn entry_of<T>(entry: ListEntry<T>) -> EntryView<T> {
    match entry {
        ListEntry::Item(item) => EntryView::Item(Some(item)),
        ListEntry::End => EntryView::End,
        ListEntry::Error => EntryView::Error,
    }
}

/// An entry that describes an output, in the model; one without a name is passed over.
pub open spec fn report_entry(entry: ListEntry<SinkReport>) -> EntryView<SinkView> {
    match entry {
        ListEntry::Item(report) => EntryView::Item(reported_sink(report)),
        ListEntry::End => EntryView::End,
        ListEntry::Error => EntryView::Error,
    }
}

/// The answer to a list, in the model.
pub open spec fn answer_of<T>(value: Option<Result<Vec<T>, String>>) -> Option<
    Result<Seq<T>, Seq<char>>,
> {
    match value {
        Some(Ok(items)) => Some(Ok(items@)),
        Some(Err(message)) => Some(Err(message@)),
        None => None,
    }
}

/// The answer to a list of outputs, in the model.
pub open spec fn sink_answer_of(value: Option<Result<Vec<Sink>, String>>) -> Option<
    Result<Seq<SinkView>, Seq<char>>,
> {
    match value {
        Some(Ok(sinks)) => Some(Ok(sink_views(sinks@))),
        Some(Err(message)) => Some(Err(message@)),
        None => None,
    }
}

/// The course of a list: the items are gathered in order; at the end they are the answer, and the
/// next item starts another list; a list that is broken off is answered with a message.
pub open spec fn list_step<A>(
    listed: Listed,
    items: Seq<A>,
    answer: Option<Result<Seq<A>, Seq<char>>>,
    entry: EntryView<A>,
) -> (Seq<A>, Option<Result<Seq<A>, Seq<char>>>) {
    match entry {
        EntryView::Item(Some(item)) => (items.push(item), answer),
        EntryView::Item(None) => (items, answer),
        EntryView::End => (seq![], Some(Ok(items))),
        EntryView::Error => (items, Some(Err(listing_failure(listed)))),
    }
}

/// A list that the server sends item by item.
#[derive(Debug)]
pub struct Listing<T> {
    listed: Listed,
    items: Vec<T>,
}

impl<T> Listing<T> {
    /// The items that have come since the last end.
    pub closed spec fn items(self) -> Seq<T> {
        self.items@
    }

    /// What is listed.
    pub closed spec fn listed(self) -> Listed {
        self.listed
    }

    /// A list of which nothing has come yet.
    pub fn new(listed: Listed) -> (r: Self)
        ensures
            r.listed() == listed,
            r.items() == Seq::<T>::empty(),
    {
        Listing { listed, items: Vec::new() }
    }

    /// The message of a list that the server broke off.
    fn failure(&self) -> (text: String)
        ensures
            text@ == listing_failure(self.listed()),
    {
        match self.listed {
            Listed::Sinks => "PulseAudio failed while listing sinks".to_owned(),
            Listed::Inputs => "PulseAudio failed while listing playback streams".to_owned(),
        }
    }

    /// Takes what the server sends; the answer arrives in `slot`.
    pub fn receive(&mut self, entry: ListEntry<T>, slot: &mut SharedResult<Vec<T>>)
        ensures
            final(self).listed() == old(self).listed(),
            (final(self).items(), answer_of(final(slot).value())) == list_step(
                old(self).listed(),
                old(self).items(),
                answer_of(old(slot).value()),
                entry_of(entry),
            ),
    {
        match entry {
            ListEntry::Item(item) => {
                self.items.push(item);
            },
            ListEntry::End => {
                let mut items: Vec<T> = Vec::new();
                std::mem::swap(&mut items, &mut self.items);
                slot.set(Ok(items));
            },
            ListEntry::Error => {
                slot.set(Err(self.failure()));
            },
        }
    }
}

impl Listing<Sink> {
    /// Takes what the server sends of its outputs; the answer arrives in `slot`.
    pub fn receive_report(&mut self, entry: ListEntry<SinkReport>, slot: &mut SharedResult<Vec<Sink>>)
        ensures
            final(self).listed() == old(self).listed(),
            (sink_views(final(self).items()), sink_answer_of(final(slot).value())) == list_step(
                old(self).listed(),
                sink_views(old(self).items()),
                sink_answer_of(old(slot).value()),
                report_entry(entry),
            ),
    {
        match entry {
            ListEntry::Item(report) => {
                if let Some(sink) = Sink::from_pulse(&report) {
                    self.receive(ListEntry::Item(sink), slot);
                    assert(sink_views(self.items()) =~= sink_views(old(self).items()).push(sink@));
                    assert(answer_of(slot.value()) == answer_of(old(slot).value()));
                }
            },
            ListEntry::End => {
                self.receive(ListEntry::End, slot);
                assert(sink_views(self.items()) =~= seq![]);
            },
            ListEntry::Error => {
                self.receive(ListEntry::Error, slot);
            },
        }
    }
}

/// Whether an operation has gone without an answer, after one more look at an operation.
pub open spec fn timed_out_after<T>(timed_out: bool, step: WaitStep<T>) -> bool {
    timed_out || step is TimedOut
}

/// Whether a connection can be used further: it is ready and has answered every operation.
pub open spec fn is_usable(state: ConnectionState, timed_out: bool) -> bool {
    state is Ready && !timed_out
}

/// Whether a connection has kept answering.
#[derive(Debug)]
pub struct ConnectionHealth {
    timed_out: bool,
}

impl ConnectionHealth {
    /// Whether an operation has gone without an answer.
    pub closed spec fn timed_out(self) -> bool {
        self.timed_out
    }

    /// A connection that has not been asked anything yet.
    pub fn new() -> (r: Self)
        ensures
            !r.timed_out(),
    {
        ConnectionHealth { timed_out: false }
    }

    /// Takes note of a look at an operation.
    pub fn observe<T>(&mut self, step: &WaitStep<T>)
        ensures
            final(self).timed_out() == timed_out_after(old(self).timed_out(), *step),
    {
        if let WaitStep::TimedOut(_) = step {
            self.timed_out = true;
        }
    }

    /// What to do while an operation is under way. Takes note of one that has gone without an
    /// answer.
    pub fn wait_for<T>(
        &mut self,
        slot: &mut SharedResult<T>,
        operation: Operation,
        now: u128,
        deadline: u128,
    ) -> (step: WaitStep<T>)
        ensures
            final(slot).value() is None,
            is_wait_step(old(slot).value(), operation_text(operation), now, deadline, step),
            final(self).timed_out() == timed_out_after(old(self).timed_out(), step),
    {
        let step = wait_for(slot, operation.text(), now, deadline);
        self.observe(&step);
        step
    }

    /// Whether the connection can be used further: it is ready and has answered every operation.
    pub fn is_ready(&self, state: ConnectionState) -> (r: bool)
        ensures
            r == is_usable(state, self.timed_out()),
    {
        match state {
            ConnectionState::Ready => !self.timed_out,
            _ => false,
        }
    }
}

/// Whether something may have changed since the last look: the server told of it, does not tell, or
/// can no longer be used.
pub open spec fn may_have_changed(changed: bool, subscribed: bool, usable: bool) -> bool {
    changed || !subscribed || !usable
}

/// A watch over changes at the sound server.
#[derive(Debug)]
pub struct ChangeWatch {
    subscribed: bool,
    changed: bool,
}

impl ChangeWatch {
    /// Whether the server tells of changes.
    pub closed spec fn subscribed(self) -> bool {
        self.subscribed
    }

    /// Whether the server has told of a change since the last look.
    pub closed spec fn changed(self) -> bool {
        self.changed
    }

    /// A watch over a server that has not agreed to tell of changes yet.
    pub fn new() -> (r: Self)
        ensures
            !r.subscribed(),
            !r.changed(),
    {
        ChangeWatch { subscribed: false, changed: false }
    }

    /// The server agreed to tell of changes, or refused.
    pub fn subscribe(&mut self, accepted: bool)
        ensures
            final(self).subscribed() == accepted,
            final(self).changed() == old(self).changed(),
    {
        self.subscribed = accepted;
    }

    /// The server told of a change.
    pub fn note(&mut self)
        ensures
            final(self).subscribed() == old(self).subscribed(),
            final(self).changed(),
    {
        self.changed = true;
    }

    /// Whether something may have changed since the last look: the server told of it, does not
    /// tell, or can no longer be used.
    pub fn look(&mut self, usable: bool) -> (r: bool)
        ensures
            r == may_have_changed(old(self).changed(), old(self).subscribed(), usable),
            final(self).subscribed() == old(self).subscribed(),
            !final(self).changed(),
    {
        let changed = self.changed;
        self.changed = false;
        changed || !self.subscribed || !usable
    }
}

} // verus!
