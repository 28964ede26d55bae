//! What holds of the answers of the sound server.
use vstd::prelude::*;

use crate::connection::{
    entry_of, is_usable, is_wait_step, iterated, list_step, listing_failure, may_have_changed,
    ready_step, report_entry, timed_out_after, ConnectionErrorView, ConnectionState, EntryView,
    IterationView, ListEntry, Listed, ReadyView, WaitStep,
};
use crate::sink::{reported_sink, SinkReport, SinkView};

verus! {

/// Once an operation has gone without an answer, the connection is of no more use, in whatever
/// state it is and whatever it answers later.
pub proof fn unanswered_operation_spoils_the_connection<T, U>(
    timed_out: bool,
    answer: WaitStep<T>,
    later: WaitStep<U>,
    state: ConnectionState,
)
    requires
        answer is TimedOut,
    ensures
        !is_usable(state, timed_out_after(timed_out, answer)),
        !is_usable(state, timed_out_after(timed_out_after(timed_out, answer), later)),
{
}

/// A connection that has answered every operation so far is of use as long as it is ready.
pub proof fn answering_connection_is_kept<T>(answer: WaitStep<T>, state: ConnectionState)
    requires
        !(answer is TimedOut),
    ensures
        is_usable(state, timed_out_after(false, answer)) == (state is Ready),
{
}

/// The items of a list that are not to be passed over, in order.
pub open spec fn kept<A>(sent: Seq<Option<A>>) -> Seq<A>
    decreases sent.len(),
{
    if sent.len() == 0 {
        seq![]
    } else {
        match sent.last() {
            Some(item) => kept(sent.drop_last()).push(item),
            None => kept(sent.drop_last()),
        }
    }
}

/// A list after a row of items.
pub open spec fn gathered<A>(
    listed: Listed,
    answer: Option<Result<Seq<A>, Seq<char>>>,
    sent: Seq<Option<A>>,
) -> (Seq<A>, Option<Result<Seq<A>, Seq<char>>>)
    decreases sent.len(),
{
    if sent.len() == 0 {
        (seq![], answer)
    } else {
        let (items, answer) = gathered(listed, answer, sent.drop_last());
        list_step(listed, items, answer, EntryView::Item(sent.last()))
    }
}

/// A list that arrives whole is answered with all its items in order, and nothing is left for the
/// next list; nothing is answered before its end, and one that is broken off is answered with the
/// message for it, whatever has arrived of it.
pub proof fn lists_arrive_whole_or_not_at_all<A>(listed: Listed, sent: Seq<Option<A>>)
    ensures
        ({
            let (items, answer) = gathered(listed, None, sent);
            &&& answer is None
            &&& list_step(listed, items, answer, EntryView::End) == (
                Seq::<A>::empty(),
                Some(Ok::<Seq<A>, Seq<char>>(kept(sent))),
            )
            &&& list_step(listed, items, answer, EntryView::Error).1 == Some(
                Err::<Seq<A>, Seq<char>>(listing_failure(listed)),
            )
        }),
{
    lemma_gathered(listed, sent);
}

/// What has arrived of a list is what is to be kept of it.
proof fn lemma_gathered<A>(listed: Listed, sent: Seq<Option<A>>)
    ensures
        gathered(listed, None, sent) == (kept(sent), None::<Result<Seq<A>, Seq<char>>>),
    decreases sent.len(),
{
    if sent.len() > 0 {
        lemma_gathered(listed, sent.drop_last());
    }
}

/// Whatever the time, a connection is used once it is ready and given up once it has failed or was
/// closed; while it is still being set up, it is given up from the deadline on and not before.
pub proof fn connection_is_waited_for_until_the_deadline(now: u128, deadline: u128)
    ensures
        ready_step(ConnectionState::Ready, now, deadline) == ReadyView::Ready,
        ready_step(ConnectionState::Failed, now, deadline) == ReadyView::GiveUp(
            ConnectionErrorView::Failed,
        ),
        ready_step(ConnectionState::Terminated, now, deadline) == ReadyView::GiveUp(
            ConnectionErrorView::Terminated,
        ),
        now < deadline ==> ready_step(ConnectionState::Pending, now, deadline)
            == ReadyView::Iterate,
        now >= deadline ==> ready_step(ConnectionState::Pending, now, deadline)
            == ReadyView::GiveUp(ConnectionErrorView::TimedOut),
{
}

/// A connection goes on only if it worked and has neither failed nor been closed; what went wrong
/// while it worked is told whatever its state is.
pub proof fn connection_goes_on_while_it_works(state: ConnectionState, cause: Seq<char>)
    ensures
        iterated(IterationView::Success, state) is Ok <==> state is Ready || state is Pending,
        iterated(IterationView::Success, ConnectionState::Failed) == Err::<
            (),
            ConnectionErrorView,
        >(ConnectionErrorView::Failed),
        iterated(IterationView::Success, ConnectionState::Terminated) == Err::<
            (),
            ConnectionErrorView,
        >(ConnectionErrorView::Terminated),
        iterated(IterationView::Quit(cause), state) == Err::<(), ConnectionErrorView>(
            ConnectionErrorView::Quit(cause),
        ),
        iterated(IterationView::Failed(cause), state) == Err::<(), ConnectionErrorView>(
            ConnectionErrorView::Loop(cause),
        ),
{
}

/// An answer that has arrived is what an operation comes to, whatever the time; without one it goes
/// on until the deadline and is given up from then on.
pub proof fn operation_is_waited_for_until_the_deadline<T>(
    value: T,
    message: String,
    operation: Seq<char>,
    now: u128,
    deadline: u128,
    step: WaitStep<T>,
)
    ensures
        is_wait_step(Some(Ok(value)), operation, now, deadline, step) <==> step == WaitStep::Done(
            value,
        ),
        is_wait_step(Some(Err(message)), operation, now, deadline, step) <==> step == WaitStep::<
            T,
        >::Failed(message),
        now < deadline ==> (is_wait_step(None, operation, now, deadline, step) <==> step
            is Iterate),
        now >= deadline ==> (is_wait_step(None, operation, now, deadline, step) <==> step
            is TimedOut && step->TimedOut_0@ == "timed out while "@ + operation),
{
}

/// What the server sends of a list counts for what it is; an output that it describes without a
/// name is passed over.
pub proof fn entries_count_for_what_they_are<T>(item: T, report: SinkReport)
    ensures
        entry_of(ListEntry::Item(item)) == EntryView::Item(Some(item)),
        entry_of(ListEntry::<T>::End) == EntryView::<T>::End,
        entry_of(ListEntry::<T>::Error) == EntryView::<T>::Error,
        report_entry(ListEntry::Item(report)) == EntryView::Item(reported_sink(report)),
        report_entry(ListEntry::End) == EntryView::<SinkView>::End,
        report_entry(ListEntry::Error) == EntryView::<SinkView>::Error,
{
}

/// Nothing has changed only if the server would have told of it and did not.
pub proof fn silence_counts_only_where_changes_are_told(
    changed: bool,
    subscribed: bool,
    usable: bool,
)
    ensures
        may_have_changed(changed, subscribed, usable) <==> !(!changed && subscribed && usable),
        is_usable(ConnectionState::Ready, false),
{
}

} // verus!
