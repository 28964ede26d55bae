//! What holds of a pass of routing from its first step to its last.
use vstd::prelude::*;

use crate::connection::{is_usable, timed_out_after, ConnectionState, WaitStep};
use crate::reconcile::{
    moving, pass_expects, pass_step, PassActionView, PassEventView, PassPhaseView, PassView,
    ResultView,
};
use crate::router::{routed, streams_elsewhere, RouteErrorView, RouterView};
use crate::sink::{SinkInput, SinkView};

verus! {

/// A pass on its way: where it is, what the router knows, and what was last to be done.
pub struct Progress {
    pub pass: PassView,
    pub router: RouterView,
    pub action: PassActionView,
}

/// The pass after one more event.
pub open spec fn advanced(progress: Progress, event: PassEventView) -> Progress {
    let (phase, router, action) = pass_step(progress.pass, progress.router, event);
    Progress { pass: PassView { phase, ..progress.pass }, router, action }
}

/// The pass after a row of events.
pub open spec fn played(progress: Progress, events: Seq<PassEventView>) -> Progress
    decreases events.len(),
{
    if events.len() == 0 {
        progress
    } else {
        advanced(played(progress, events.drop_last()), events.last())
    }
}

/// The answers of the server to a row of moves, as events.
pub open spec fn answers(outcomes: Seq<bool>) -> Seq<PassEventView> {
    Seq::new(outcomes.len(), |i: int| PassEventView::Moved(outcomes[i]))
}

/// How often `value` occurs.
pub open spec fn occurrences(outcomes: Seq<bool>, value: bool) -> nat
    decreases outcomes.len(),
{
    if outcomes.len() == 0 {
        0
    } else {
        occurrences(outcomes.drop_last(), value) + if outcomes.last() == value {
            1nat
        } else {
            0
        }
    }
}

/// Every answer is one or the other.
proof fn lemma_occurrences(outcomes: Seq<bool>)
    ensures
        occurrences(outcomes, true) + occurrences(outcomes, false) == outcomes.len(),
    decreases outcomes.len(),
{
    if outcomes.len() > 0 {
        lemma_occurrences(outcomes.drop_last());
    }
}

/// Every stream that plays elsewhere is moved to the target once, in the order of the list, and
/// nothing else is moved. After the answer to the last move the pass is over, and its result
/// counts the streams that were moved and those that were not.
pub proof fn every_stream_is_moved_once(
    start: Progress,
    name: Seq<char>,
    index: u32,
    default_changed: bool,
    inputs: Seq<SinkInput>,
    outcomes: Seq<bool>,
)
    requires
        start.pass.phase == (PassPhaseView::ListingInputs { name, index, default_changed }),
        outcomes.len() <= streams_elsewhere(inputs, index).len(),
    ensures
        ({
            let listed = advanced(start, PassEventView::Inputs(inputs));
            let moves = streams_elsewhere(inputs, index);
            let end = played(listed, answers(outcomes));
            &&& end.router == start.router
            &&& outcomes.len() < moves.len() ==> end.action == (PassActionView::Move {
                input: moves[outcomes.len() as int],
                sink: index,
            })
            &&& outcomes.len() == moves.len() ==> end.action == PassActionView::Finish(
                Ok(
                    ResultView {
                        target_name: name,
                        default_changed,
                        moved_streams: occurrences(outcomes, true),
                        failed_stream_moves: occurrences(outcomes, false),
                    },
                ),
            )
        }),
{
    lemma_moves(start, name, index, default_changed, inputs, outcomes);
}

/// Where a pass is after so many answers.
proof fn lemma_moves(
    start: Progress,
    name: Seq<char>,
    index: u32,
    default_changed: bool,
    inputs: Seq<SinkInput>,
    outcomes: Seq<bool>,
)
    requires
        start.pass.phase == (PassPhaseView::ListingInputs { name, index, default_changed }),
        outcomes.len() <= streams_elsewhere(inputs, index).len(),
    ensures
        ({
            let listed = advanced(start, PassEventView::Inputs(inputs));
            let moves = streams_elsewhere(inputs, index);
            let end = played(listed, answers(outcomes));
            &&& end.router == start.router
            &&& (end.pass.phase, end.action) == moving(
                name,
                index,
                default_changed,
                moves,
                occurrences(outcomes, true),
                occurrences(outcomes, false),
            )
            &&& occurrences(outcomes, true) + occurrences(outcomes, false) == outcomes.len()
        }),
    decreases outcomes.len(),
{
    lemma_occurrences(outcomes);
    if outcomes.len() > 0 {
        let before = outcomes.drop_last();
        lemma_moves(start, name, index, default_changed, inputs, before);
        lemma_occurrences(before);
        assert(answers(outcomes).drop_last() =~= answers(before));
        assert(answers(outcomes).last() == PassEventView::Moved(outcomes.last()));
    }
}

/// The streams to move are those that play elsewhere: each of them is there, and none besides.
pub proof fn only_streams_elsewhere_are_moved(inputs: Seq<SinkInput>, index: u32)
    ensures
        forall|i: int|
            0 <= i < inputs.len() && (#[trigger] inputs[i]).sink_index != index
                ==> streams_elsewhere(inputs, index).contains(inputs[i].index),
        forall|k: int|
            0 <= k < streams_elsewhere(inputs, index).len() ==> exists|i: int|
                0 <= i < inputs.len() && (#[trigger] inputs[i]).sink_index != index
                    && inputs[i].index == #[trigger] streams_elsewhere(inputs, index)[k],
        streams_elsewhere(inputs, index).len() <= inputs.len(),
    decreases inputs.len(),
{
    if inputs.len() > 0 {
        let before = inputs.drop_last();
        only_streams_elsewhere_are_moved(before, index);
        let moves = streams_elsewhere(inputs, index);
        let moves_before = streams_elsewhere(before, index);
        assert forall|i: int|
            0 <= i < inputs.len() && (#[trigger] inputs[i]).sink_index
                != index implies moves.contains(inputs[i].index) by {
            if i < inputs.len() - 1 {
                assert(before[i] == inputs[i]);
                assert(moves_before.contains(inputs[i].index));
                let k = choose|k: int|
                    0 <= k < moves_before.len() && moves_before[k] == inputs[i].index;
                assert(moves[k] == inputs[i].index);
            } else {
                assert(moves[moves.len() - 1] == inputs[i].index);
            }
        }
        assert forall|k: int| 0 <= k < moves.len() implies exists|i: int|
            0 <= i < inputs.len() && (#[trigger] inputs[i]).sink_index != index && inputs[i].index
                == #[trigger] moves[k] by {
            if k < moves_before.len() {
                assert(moves[k] == moves_before[k]);
                let i = choose|i: int|
                    0 <= i < before.len() && (#[trigger] before[i]).sink_index != index
                        && before[i].index == moves_before[k];
                assert(inputs[i] == before[i]);
            } else {
                assert(inputs[inputs.len() - 1].index == moves[k]);
            }
        }
    }
}

/// Where everything is in place already, a pass changes nothing: it asks for the outputs, the
/// default and the streams, and is over.
pub proof fn pass_changes_nothing_that_is_in_place(
    start: Progress,
    sinks: Seq<SinkView>,
    inputs: Seq<SinkInput>,
    target: SinkView,
)
    requires
        start.pass.phase is ListingSinks,
        routed(
            start.router,
            start.pass.state,
            sinks,
            Some(target.name),
            start.pass.speaker_override,
        ).1 == Ok::<SinkView, RouteErrorView>(target),
        forall|i: int| 0 <= i < inputs.len() ==> (#[trigger] inputs[i]).sink_index == target.index,
    ensures
        ({
            let listed = advanced(start, PassEventView::Sinks(sinks));
            let read = advanced(listed, PassEventView::Default(Some(target.name)));
            let end = advanced(read, PassEventView::Inputs(inputs));
            &&& listed.action is ReadDefault
            &&& read.action is ListInputs
            &&& end.action == PassActionView::Finish(
                Ok(
                    ResultView {
                        target_name: target.name,
                        default_changed: false,
                        moved_streams: 0,
                        failed_stream_moves: 0,
                    },
                ),
            )
        }),
{
    only_streams_elsewhere_are_moved(inputs, target.index);
    let moves = streams_elsewhere(inputs, target.index);
    if moves.len() > 0 {
        assert(moves[0] == moves[0]);
    }
}

/// Where the default is another output, it is changed to the target before any stream is moved;
/// if the server refuses, the pass is over and the default is not taken for established.
pub proof fn default_is_changed_first(
    start: Progress,
    sinks: Seq<SinkView>,
    default_name: Option<Seq<char>>,
    target: SinkView,
)
    requires
        start.pass.phase is ListingSinks,
        routed(
            start.router,
            start.pass.state,
            sinks,
            default_name,
            start.pass.speaker_override,
        ).1 == Ok::<SinkView, RouteErrorView>(target),
        default_name != Some(target.name),
    ensures
        ({
            let listed = advanced(start, PassEventView::Sinks(sinks));
            let read = advanced(listed, PassEventView::Default(default_name));
            let accepted = advanced(read, PassEventView::DefaultSet(true));
            let refused = advanced(read, PassEventView::DefaultSet(false));
            &&& read.action == PassActionView::SetDefault(target.name)
            &&& accepted.action is ListInputs
            &&& accepted.router.established == Some(target.name)
            &&& refused.action == PassActionView::Finish(Err(RouteErrorView::Refused(target.name)))
            &&& refused.router.established == start.router.established
        }),
{
}

/// A stream that cannot be moved does not keep the others from being moved, as long as the server
/// can be talked to; once it cannot, the pass is over with that failure.
pub proof fn failed_move_is_passed_over(
    progress: Progress,
    name: Seq<char>,
    index: u32,
    default_changed: bool,
    moves: Seq<u32>,
    moved: nat,
    failed: nat,
    message: Seq<char>,
)
    requires
        progress.pass.phase == (PassPhaseView::Moving {
            name,
            index,
            default_changed,
            moves,
            moved,
            failed,
        }),
    ensures
        advanced(progress, PassEventView::Failed { message, usable: true }) == advanced(
            progress,
            PassEventView::Moved(false),
        ),
        moved + failed + 1 < moves.len() ==> advanced(
            progress,
            PassEventView::Failed { message, usable: true },
        ).action == (PassActionView::Move {
            input: moves[(moved + failed + 1) as int],
            sink: index,
        }),
        advanced(progress, PassEventView::Failed { message, usable: false }).action
            == PassActionView::Finish(Err(RouteErrorView::Operation(message))),
{
}

/// An operation that goes without an answer ends the pass with that failure, whatever it was for
/// and in whatever state the connection still is.
pub proof fn unanswered_operation_ends_the_pass<T>(
    progress: Progress,
    state: ConnectionState,
    timed_out: bool,
    answer: WaitStep<T>,
    message: Seq<char>,
)
    requires
        !(progress.pass.phase is Finished),
        answer is TimedOut,
    ensures
        ({
            let usable = is_usable(state, timed_out_after(timed_out, answer));
            let end = advanced(progress, PassEventView::Failed { message, usable });
            &&& end.pass.phase is Finished
            &&& end.action == PassActionView::Finish(Err(RouteErrorView::Operation(message)))
            &&& end.router == progress.router
        }),
{
}

/// The output that is made the default is the one that the streams are listed for, by name and by
/// index: the target, whatever is configured and whatever else is listed. One that is the default
/// already is left so.
pub proof fn default_and_streams_share_the_target(
    start: Progress,
    sinks: Seq<SinkView>,
    default_name: Option<Seq<char>>,
    target: SinkView,
)
    requires
        start.pass.phase == (PassPhaseView::ReadingDefault { sinks }),
        routed(
            start.router,
            start.pass.state,
            sinks,
            default_name,
            start.pass.speaker_override,
        ).1 == Ok::<SinkView, RouteErrorView>(target),
    ensures
        ({
            let read = advanced(start, PassEventView::Default(default_name));
            let accepted = advanced(read, PassEventView::DefaultSet(true));
            &&& default_name == Some(target.name) ==> read.action == PassActionView::ListInputs
                && read.pass.phase == (PassPhaseView::ListingInputs {
                name: target.name,
                index: target.index,
                default_changed: false,
            })
            &&& default_name != Some(target.name) ==> read.action == PassActionView::SetDefault(
                target.name,
            ) && accepted.action == PassActionView::ListInputs && accepted.pass.phase == (
            PassPhaseView::ListingInputs {
                name: target.name,
                index: target.index,
                default_changed: true,
            })
        }),
{
}

/// The first of the streams that play elsewhere is moved to the output that they were listed for,
/// by its index; where there is none, the pass is over and its result names that output.
pub proof fn streams_go_to_the_output_they_were_listed_for(
    start: Progress,
    name: Seq<char>,
    index: u32,
    default_changed: bool,
    inputs: Seq<SinkInput>,
)
    requires
        start.pass.phase == (PassPhaseView::ListingInputs { name, index, default_changed }),
    ensures
        ({
            let moves = streams_elsewhere(inputs, index);
            let listed = advanced(start, PassEventView::Inputs(inputs));
            &&& listed.router == start.router
            &&& moves.len() > 0 ==> listed.action == (PassActionView::Move {
                input: moves[0],
                sink: index,
            })
            &&& moves.len() == 0 ==> listed.action == PassActionView::Finish(
                Ok(
                    ResultView {
                        target_name: name,
                        default_changed,
                        moved_streams: 0,
                        failed_stream_moves: 0,
                    },
                ),
            )
        }),
{
}

/// After each move the next stream is moved to the same output, whether the server moved the one
/// before it or not; after the last one the pass is over, with both counted.
pub proof fn every_move_is_followed_by_the_next(
    progress: Progress,
    name: Seq<char>,
    index: u32,
    default_changed: bool,
    moves: Seq<u32>,
    moved: nat,
    failed: nat,
    done: bool,
)
    requires
        progress.pass.phase == (PassPhaseView::Moving {
            name,
            index,
            default_changed,
            moves,
            moved,
            failed,
        }),
        moved + failed < moves.len(),
    ensures
        ({
            let next = advanced(progress, PassEventView::Moved(done));
            let all_moved: nat = if done {
                moved + 1
            } else {
                moved
            };
            let all_failed: nat = if done {
                failed
            } else {
                failed + 1
            };
            &&& next.router == progress.router
            &&& moved + failed + 1 < moves.len() ==> next.action == (PassActionView::Move {
                input: moves[(moved + failed + 1) as int],
                sink: index,
            }) && next.pass.phase == (PassPhaseView::Moving {
                name,
                index,
                default_changed,
                moves,
                moved: all_moved,
                failed: all_failed,
            })
            &&& moved + failed + 1 == moves.len() ==> next.pass.phase is Finished && next.action
                == PassActionView::Finish(
                Ok(
                    ResultView {
                        target_name: name,
                        default_changed,
                        moved_streams: all_moved,
                        failed_stream_moves: all_failed,
                    },
                ),
            )
        }),
{
}

/// A pass from its first step on: the outputs are listed, the default is read, the default is
/// changed where it is another output than the target, and then the streams are listed. Every
/// stream that plays elsewhere is moved to the very output that is the target and the default by
/// then, and the result names that output. So it is for every default and every configured output.
pub proof fn streams_are_moved_to_the_output_that_is_made_the_default(
    start: Progress,
    sinks: Seq<SinkView>,
    default_name: Option<Seq<char>>,
    target: SinkView,
    inputs: Seq<SinkInput>,
    outcomes: Seq<bool>,
)
    requires
        start.pass.phase is ListingSinks,
        routed(
            start.router,
            start.pass.state,
            sinks,
            default_name,
            start.pass.speaker_override,
        ).1 == Ok::<SinkView, RouteErrorView>(target),
        outcomes.len() <= streams_elsewhere(inputs, target.index).len(),
    ensures
        ({
            let known = routed(
                start.router,
                start.pass.state,
                sinks,
                default_name,
                start.pass.speaker_override,
            ).0;
            let changes = default_name != Some(target.name);
            let listed = advanced(start, PassEventView::Sinks(sinks));
            let read = advanced(listed, PassEventView::Default(default_name));
            let ready = if changes {
                advanced(read, PassEventView::DefaultSet(true))
            } else {
                read
            };
            let moves = streams_elsewhere(inputs, target.index);
            let end = played(advanced(ready, PassEventView::Inputs(inputs)), answers(outcomes));
            &&& listed.action == PassActionView::ReadDefault
            &&& listed.router == start.router
            &&& changes ==> read.action == PassActionView::SetDefault(target.name) && read.router
                == known
            &&& ready.action == PassActionView::ListInputs
            &&& ready.router == (RouterView { established: Some(target.name), ..known })
            &&& end.router == ready.router
            &&& outcomes.len() < moves.len() ==> end.action == (PassActionView::Move {
                input: moves[outcomes.len() as int],
                sink: target.index,
            })
            &&& outcomes.len() == moves.len() ==> end.action == PassActionView::Finish(
                Ok(
                    ResultView {
                        target_name: target.name,
                        default_changed: changes,
                        moved_streams: occurrences(outcomes, true),
                        failed_stream_moves: occurrences(outcomes, false),
                    },
                ),
            )
        }),
{
    let listed = advanced(start, PassEventView::Sinks(sinks));
    let read = advanced(listed, PassEventView::Default(default_name));
    let changes = default_name != Some(target.name);
    let ready = if changes {
        advanced(read, PassEventView::DefaultSet(true))
    } else {
        read
    };
    every_stream_is_moved_once(ready, target.name, target.index, changes, inputs, outcomes);
}

/// A pass that has no target ends with the reason, before anything is changed; so does one whose
/// target the server refuses as the default, before any stream is moved.
pub proof fn pass_without_a_target_changes_nothing(
    start: Progress,
    sinks: Seq<SinkView>,
    default_name: Option<Seq<char>>,
)
    requires
        start.pass.phase is ListingSinks,
    ensures
        ({
            let (known, outcome) = routed(
                start.router,
                start.pass.state,
                sinks,
                default_name,
                start.pass.speaker_override,
            );
            let listed = advanced(start, PassEventView::Sinks(sinks));
            let read = advanced(listed, PassEventView::Default(default_name));
            let refused = advanced(read, PassEventView::DefaultSet(false));
            &&& outcome matches Err(error) ==> read.pass.phase is Finished && read.router == known
                && read.action == PassActionView::Finish(Err(error))
            &&& outcome matches Ok(target) ==> default_name != Some(target.name)
                ==> refused.pass.phase is Finished && refused.router == known && refused.action
                == PassActionView::Finish(Err(RouteErrorView::Refused(target.name)))
        }),
{
}

/// Any failure but that of a move ends the pass with it, and what the router knows stays.
pub proof fn failure_ends_the_pass(progress: Progress, message: Seq<char>, usable: bool)
    requires
        !(progress.pass.phase is Finished),
        !(progress.pass.phase is Moving),
    ensures
        ({
            let end = advanced(progress, PassEventView::Failed { message, usable });
            &&& end.pass.phase is Finished
            &&& end.router == progress.router
            &&& end.action == PassActionView::Finish(Err(RouteErrorView::Operation(message)))
        }),
{
}

/// A pass takes the outcome of what it asked for, or a failure of it, and nothing else; and nothing
/// once it is over.
pub proof fn pass_takes_what_it_asked_for(phase: PassPhaseView, event: PassEventView)
    ensures
        pass_expects(phase, event) <==> match phase {
            PassPhaseView::ListingSinks => event is Sinks || event is Failed,
            PassPhaseView::ReadingDefault { .. } => event is Default || event is Failed,
            PassPhaseView::SettingDefault { .. } => event is DefaultSet || event is Failed,
            PassPhaseView::ListingInputs { .. } => event is Inputs || event is Failed,
            PassPhaseView::Moving { .. } => event is Moved || event is Failed,
            PassPhaseView::Finished => false,
        },
{
}

} // verus!
