//! One pass of routing, step by step: read the outputs and the default, change the default, move
//! the streams.
use vstd::prelude::*;

use crate::hid::HeadsetState;
use crate::router::{
    pending_moves, routed, streams_elsewhere, PulseRouter, RouteError, RouteErrorView, RouterView,
};
use crate::sink::{sink_views, Sink, SinkInput, SinkView};
use crate::text::{as_deref, same_text, text_of};

verus! {

/// What a pass came to.
#[derive(Debug)]
pub struct ReconcileResult {
    pub target_name: String,
    pub default_changed: bool,
    pub moved_streams: usize,
    pub failed_stream_moves: usize,
}

/// What a pass came to, in the model.
pub struct ResultView {
    pub target_name: Seq<char>,
    pub default_changed: bool,
    pub moved_streams: nat,
    pub failed_stream_moves: nat,
}

impl View for ReconcileResult {
    type V = ResultView;

    open spec fn view(&self) -> ResultView {
        ResultView {
            target_name: self.target_name@,
            default_changed: self.default_changed,
            moved_streams: self.moved_streams as nat,
            failed_stream_moves: self.failed_stream_moves as nat,
        }
    }
}

/// How far a pass has come.
#[derive(Debug)]
pub enum PassPhase {
    /// The outputs are listed.
    ListingSinks,
    /// The name of the default is read.
    ReadingDefault { sinks: Vec<Sink> },
    /// The default is changed.
    SettingDefault { name: String, index: u32 },
    /// The streams are listed.
    ListingInputs { name: String, index: u32, default_changed: bool },
    /// The streams are moved one by one; those before the sum of the two counts are done.
    Moving {
        name: String,
        index: u32,
        default_changed: bool,
        moves: Vec<u32>,
        moved: usize,
        failed: usize,
    },
    /// Over.
    Finished,
}

/// How far a pass has come, in the model.
pub enum PassPhaseView {
    ListingSinks,
    ReadingDefault { sinks: Seq<SinkView> },
    SettingDefault { name: Seq<char>, index: u32 },
    ListingInputs { name: Seq<char>, index: u32, default_changed: bool },
    Moving {
        name: Seq<char>,
        index: u32,
        default_changed: bool,
        moves: Seq<u32>,
        moved: nat,
        failed: nat,
    },
    Finished,
}

impl View for PassPhase {
    type V = PassPhaseView;

    open spec fn view(&self) -> PassPhaseView {
        match self {
            PassPhase::ListingSinks => PassPhaseView::ListingSinks,
            PassPhase::ReadingDefault { sinks } => PassPhaseView::ReadingDefault {
                sinks: sink_views(sinks@),
            },
            PassPhase::SettingDefault { name, index } => PassPhaseView::SettingDefault {
                name: name@,
                index: *index,
            },
            PassPhase::ListingInputs { name, index, default_changed } =>
                PassPhaseView::ListingInputs {
                name: name@,
                index: *index,
                default_changed: *default_changed,
            },
            PassPhase::Moving { name, index, default_changed, moves, moved, failed } =>
                PassPhaseView::Moving {
                name: name@,
                index: *index,
                default_changed: *default_changed,
                moves: moves@,
                moved: *moved as nat,
                failed: *failed as nat,
            },
            PassPhase::Finished => PassPhaseView::Finished,
        }
    }
}

/// What came of the last step.
#[derive(Debug)]
pub enum PassEvent {
    /// The outputs.
    Sinks(Vec<Sink>),
    /// The name of the default.
    Default(Option<String>),
    /// Whether the server accepted the new default.
    DefaultSet(bool),
    /// The streams.
    Inputs(Vec<SinkInput>),
    /// Whether the server moved the stream.
    Moved(bool),
    /// Talking to the server failed, and whether it can still be talked to.
    Failed { message: String, usable: bool },
}

/// What came of the last step, in the model.
pub enum PassEventView {
    Sinks(Seq<SinkView>),
    Default(Option<Seq<char>>),
    DefaultSet(bool),
    Inputs(Seq<SinkInput>),
    Moved(bool),
    Failed { message: Seq<char>, usable: bool },
}

impl View for PassEvent {
    type V = PassEventView;

    open spec fn view(&self) -> PassEventView {
        match self {
            PassEvent::Sinks(sinks) => PassEventView::Sinks(sink_views(sinks@)),
            PassEvent::Default(name) => PassEventView::Default(text_of(*name)),
            PassEvent::DefaultSet(accepted) => PassEventView::DefaultSet(*accepted),
            PassEvent::Inputs(inputs) => PassEventView::Inputs(inputs@),
            PassEvent::Moved(moved) => PassEventView::Moved(*moved),
            PassEvent::Failed { message, usable } => PassEventView::Failed {
                message: message@,
                usable: *usable,
            },
        }
    }
}

/// What to do next.
#[derive(Debug)]
pub enum PassAction {
    ListSinks,
    ReadDefault,
    SetDefault(String),
    ListInputs,
    Move { input: u32, sink: u32 },
    /// The pass is over.
    Finish(Result<ReconcileResult, RouteError>),
}

/// What to do next, in the model.
pub enum PassActionView {
    ListSinks,
    ReadDefault,
    SetDefault(Seq<char>),
    ListInputs,
    Move { input: u32, sink: u32 },
    Finish(Result<ResultView, RouteErrorView>),
}

impl View for PassAction {
    type V = PassActionView;

    open spec fn view(&self) -> PassActionView {
        match self {
            PassAction::ListSinks => PassActionView::ListSinks,
            PassAction::ReadDefault => PassActionView::ReadDefault,
            PassAction::SetDefault(name) => PassActionView::SetDefault(name@),
            PassAction::ListInputs => PassActionView::ListInputs,
            PassAction::Move { input, sink } => PassActionView::Move { input: *input, sink: *sink },
            PassAction::Finish(Ok(result)) => PassActionView::Finish(Ok(result@)),
            PassAction::Finish(Err(error)) => PassActionView::Finish(Err(error@)),
        }
    }
}

/// A pass in the model.
pub struct PassView {
    pub state: HeadsetState,
    pub speaker_override: Option<Seq<char>>,
    pub phase: PassPhaseView,
}

/// Whether an event can come of what was done in that phase.
pub open spec fn pass_expects(phase: PassPhaseView, event: PassEventView) -> bool {
    match event {
        PassEventView::Sinks(_) => phase is ListingSinks,
        PassEventView::Default(_) => phase is ReadingDefault,
        PassEventView::DefaultSet(_) => phase is SettingDefault,
        PassEventView::Inputs(_) => phase is ListingInputs,
        PassEventView::Moved(_) => phase is Moving,
        PassEventView::Failed { .. } => !(phase is Finished),
    }
}

/// No more streams are done than there are, and while streams are moved one is left.
pub open spec fn pass_is_valid(phase: PassPhaseView) -> bool {
    phase matches PassPhaseView::Moving { moves, moved, failed, .. } ==> moved + failed
        < moves.len()
}

/// The next stream to move, or the end where none is left.
pub open spec fn moving(
    name: Seq<char>,
    index: u32,
    default_changed: bool,
    moves: Seq<u32>,
    moved: nat,
    failed: nat,
) -> (PassPhaseView, PassActionView) {
    if moved + failed < moves.len() {
        (
            PassPhaseView::Moving { name, index, default_changed, moves, moved, failed },
            PassActionView::Move { input: moves[(moved + failed) as int], sink: index },
        )
    } else {
        (
            PassPhaseView::Finished,
            PassActionView::Finish(
                Ok(
                    ResultView {
                        target_name: name,
                        default_changed,
                        moved_streams: moved,
                        failed_stream_moves: failed,
                    },
                ),
            ),
        )
    }
}

/// The end of a pass that failed.
pub open spec fn failed_pass(error: RouteErrorView) -> (PassPhaseView, PassActionView) {
    (PassPhaseView::Finished, PassActionView::Finish(Err(error)))
}

/// The course of a pass. The default is changed only if it is not the target already. Every stream
/// that plays elsewhere is moved to the target once. A stream that cannot be moved is counted and
/// passed over, unless the server cannot be talked to any more; every other failure ends the pass.
pub open spec fn pass_step(pass: PassView, router: RouterView, event: PassEventView) -> (
    PassPhaseView,
    RouterView,
    PassActionView,
) {
    match (pass.phase, event) {
        (PassPhaseView::ListingSinks, PassEventView::Sinks(sinks)) => (
            PassPhaseView::ReadingDefault { sinks },
            router,
            PassActionView::ReadDefault,
        ),
        (PassPhaseView::ReadingDefault { sinks }, PassEventView::Default(default_name)) => {
            let (after, outcome) = routed(
                router,
                pass.state,
                sinks,
                default_name,
                pass.speaker_override,
            );
            match outcome {
                Ok(target) => if default_name == Some(target.name) {
                    (
                        PassPhaseView::ListingInputs {
                            name: target.name,
                            index: target.index,
                            default_changed: false,
                        },
                        RouterView { established: Some(target.name), ..after },
                        PassActionView::ListInputs,
                    )
                } else {
                    (
                        PassPhaseView::SettingDefault { name: target.name, index: target.index },
                        after,
                        PassActionView::SetDefault(target.name),
                    )
                },
                Err(error) => {
                    let (phase, action) = failed_pass(error);
                    (phase, after, action)
                },
            }
        },
        (PassPhaseView::SettingDefault { name, index }, PassEventView::DefaultSet(accepted)) =>
            if accepted {
            (
                PassPhaseView::ListingInputs { name, index, default_changed: true },
                RouterView { established: Some(name), ..router },
                PassActionView::ListInputs,
            )
        } else {
            let (phase, action) = failed_pass(RouteErrorView::Refused(name));
            (phase, router, action)
        },
        (
            PassPhaseView::ListingInputs { name, index, default_changed },
            PassEventView::Inputs(inputs),
        ) => {
            let (phase, action) = moving(
                name,
                index,
                default_changed,
                streams_elsewhere(inputs, index),
                0,
                0,
            );
            (phase, router, action)
        },
        (
            PassPhaseView::Moving { name, index, default_changed, moves, moved, failed },
            PassEventView::Moved(done),
        ) => {
            let (phase, action) = if done {
                moving(name, index, default_changed, moves, moved + 1, failed)
            } else {
                moving(name, index, default_changed, moves, moved, failed + 1)
            };
            (phase, router, action)
        },
        (
            PassPhaseView::Moving { name, index, default_changed, moves, moved, failed },
            PassEventView::Failed { message, usable },
        ) => {
            let (phase, action) = if usable {
                moving(name, index, default_changed, moves, moved, failed + 1)
            } else {
                failed_pass(RouteErrorView::Operation(message))
            };
            (phase, router, action)
        },
        (_, PassEventView::Failed { message, .. }) => {
            let (phase, action) = failed_pass(RouteErrorView::Operation(message));
            (phase, router, action)
        },
        _ => (pass.phase, router, PassActionView::ListSinks),
    }
}

/// One pass of routing.
#[derive(Debug)]
pub struct Pass {
    state: HeadsetState,
    speaker_override: Option<String>,
    phase: PassPhase,
}

impl View for Pass {
    type V = PassView;

    closed spec fn view(&self) -> PassView {
        PassView {
            state: self.state,
            speaker_override: text_of(self.speaker_override),
            phase: self.phase@,
        }
    }
}

/// The next stream to move, or the end where none is left.
fn next_move(
    name: String,
    index: u32,
    default_changed: bool,
    moves: Vec<u32>,
    moved: usize,
    failed: usize,
) -> (r: (PassPhase, PassAction))
    requires
        moved + failed <= moves@.len(),
    ensures
        (r.0@, r.1@) == moving(
            name@,
            index,
            default_changed,
            moves@,
            moved as nat,
            failed as nat,
        ),
{
    let count: usize = moves.len();
    if moved + failed < count {
        let input: u32 = moves[moved + failed];
        (
            PassPhase::Moving { name, index, default_changed, moves, moved, failed },
            PassAction::Move { input, sink: index },
        )
    } else {
        (
            PassPhase::Finished,
            PassAction::Finish(
                Ok(
                    ReconcileResult {
                        target_name: name,
                        default_changed,
                        moved_streams: moved,
                        failed_stream_moves: failed,
                    },
                ),
            ),
        )
    }
}

/// The end of a pass that failed.
fn fail(error: RouteError) -> (r: (PassPhase, PassAction))
    ensures
        (r.0@, r.1@) == failed_pass(error@),
{
    (PassPhase::Finished, PassAction::Finish(Err(error)))
}

impl Pass {
    /// While streams are moved, one is left.
    #[verifier::type_invariant]
    spec fn is_valid(self) -> bool {
        pass_is_valid(self.phase@)
    }

    /// Starts a pass for the state of the headset. The first thing to do is to list the outputs.
    pub fn begin(state: HeadsetState, speaker_override: Option<String>) -> (r: (Self, PassAction))
        ensures
            r.0@ == (PassView {
                state,
                speaker_override: text_of(speaker_override),
                phase: PassPhaseView::ListingSinks,
            }),
            r.1@ == PassActionView::ListSinks,
    {
        (Pass { state, speaker_override, phase: PassPhase::ListingSinks }, PassAction::ListSinks)
    }

    /// Whether `event` can come of what was done last.
    pub fn expects(&self, event: &PassEvent) -> (r: bool)
        ensures
            r == pass_expects(self@.phase, event@),
    {
        match (&self.phase, event) {
            (PassPhase::ListingSinks, PassEvent::Sinks(_)) => true,
            (PassPhase::ReadingDefault { .. }, PassEvent::Default(_)) => true,
            (PassPhase::SettingDefault { .. }, PassEvent::DefaultSet(_)) => true,
            (PassPhase::ListingInputs { .. }, PassEvent::Inputs(_)) => true,
            (PassPhase::Moving { .. }, PassEvent::Moved(_)) => true,
            (PassPhase::Finished, PassEvent::Failed { .. }) => false,
            (_, PassEvent::Failed { .. }) => true,
            _ => false,
        }
    }

    /// Takes what came of the last step and says what to do next.
    pub fn step(self, router: &mut PulseRouter, event: PassEvent) -> (r: (Self, PassAction))
        requires
            pass_expects(self@.phase, event@),
        ensures
            (r.0@.phase, final(router)@, r.1@) == pass_step(self@, old(router)@, event@),
            r.0@.state == self@.state,
            r.0@.speaker_override == self@.speaker_override,
    {
        proof {
            use_type_invariant(&self);
        }
        let Pass { state, speaker_override, phase } = self;
        let (phase, action) = match (phase, event) {
            (PassPhase::ListingSinks, PassEvent::Sinks(sinks)) => {
                (PassPhase::ReadingDefault { sinks }, PassAction::ReadDefault)
            },
            (PassPhase::ReadingDefault { sinks }, PassEvent::Default(default_name)) => {
                match router.choose_target(
                    state,
                    sinks.as_slice(),
                    as_deref(&default_name),
                    as_deref(&speaker_override),
                ) {
                    Ok(target) => {
                        let is_default = match &default_name {
                            Some(name) => same_text(name.as_str(), target.name.as_str()),
                            None => false,
                        };
                        if is_default {
                            router.establish(target.name.clone());
                            (
                                PassPhase::ListingInputs {
                                    name: target.name,
                                    index: target.index,
                                    default_changed: false,
                                },
                                PassAction::ListInputs,
                            )
                        } else {
                            let name = target.name.clone();
                            (
                                PassPhase::SettingDefault {
                                    name: target.name,
                                    index: target.index,
                                },
                                PassAction::SetDefault(name),
                            )
                        }
                    },
                    Err(error) => fail(error),
                }
            },
            (PassPhase::SettingDefault { name, index }, PassEvent::DefaultSet(accepted)) => {
                if accepted {
                    router.establish(name.clone());
                    (
                        PassPhase::ListingInputs { name, index, default_changed: true },
                        PassAction::ListInputs,
                    )
                } else {
                    fail(RouteError::Refused(name))
                }
            },
            (
                PassPhase::ListingInputs { name, index, default_changed },
                PassEvent::Inputs(inputs),
            ) => {
                let moves = pending_moves(&inputs, index);
                next_move(name, index, default_changed, moves, 0, 0)
            },
            (
                PassPhase::Moving { name, index, default_changed, moves, moved, failed },
                PassEvent::Moved(done),
            ) => {
                assert(moves.len() <= usize::MAX);
                if done {
                    next_move(name, index, default_changed, moves, moved + 1, failed)
                } else {
                    next_move(name, index, default_changed, moves, moved, failed + 1)
                }
            },
            (
                PassPhase::Moving { name, index, default_changed, moves, moved, failed },
                PassEvent::Failed { message, usable },
            ) => {
                assert(moves.len() <= usize::MAX);
                if usable {
                    next_move(name, index, default_changed, moves, moved, failed + 1)
                } else {
                    fail(RouteError::Operation(message))
                }
            },
            (_, PassEvent::Failed { message, .. }) => fail(RouteError::Operation(message)),
            (phase, _) => (phase, PassAction::ListSinks),
        };
        (Pass { state, speaker_override, phase }, action)
    }
}

} // verus!
