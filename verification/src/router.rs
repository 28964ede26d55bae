//! Routing: which output becomes the default, what is remembered of the speakers, and which
//! streams have to move.
use vstd::prelude::*;

use crate::hid::HeadsetState;
use crate::selection::{
    fallback_index, find_best_fallback_sink, find_hyperx_sink, find_remembered_sink,
    find_sink_by_name, headset_index, is_headset, is_hyperx_sink, is_unplugged,
    is_unplugged_analog, named_index, recalled_index, resolve_speaker_sink, speaker_choice,
    speaker_error_text, SpeakerError, SpeakerErrorView,
};
use crate::sink::{
    memory_of, remembered_of, sink_views, RememberedSink, RememberedView, Sink, SinkInput, SinkView,
};
use crate::text::{same_text, text_of, view_of};

verus! {

/// What the router knows, in the model.
pub struct RouterView {
    /// The output that was last selected as the speakers.
    pub remembered: Option<RememberedView>,
    /// The output that was last in use besides the headset's, selected or standing in.
    pub previous: Option<RememberedView>,
    /// Whether the user selected the remembered output although nothing is plugged in there.
    pub insisted: bool,
    /// The name of the output that the router last made the default on this connection.
    pub established: Option<Seq<char>>,
}

/// Why routing came to nothing.
#[derive(Debug)]
pub enum RouteError {
    /// The headset is on, but has no output.
    HeadsetMissing,
    /// No output can stand for the speakers.
    Speaker(SpeakerError),
    /// The server did not accept the new default.
    Refused(String),
    /// Talking to the server failed.
    Operation(String),
}

/// Why routing came to nothing, in the model.
pub enum RouteErrorView {
    HeadsetMissing,
    Speaker(SpeakerErrorView),
    Refused(Seq<char>),
    Operation(Seq<char>),
}

impl View for RouteError {
    type V = RouteErrorView;

    open spec fn view(&self) -> RouteErrorView {
        match self {
            RouteError::HeadsetMissing => RouteErrorView::HeadsetMissing,
            RouteError::Speaker(error) => RouteErrorView::Speaker(error@),
            RouteError::Refused(name) => RouteErrorView::Refused(name@),
            RouteError::Operation(message) => RouteErrorView::Operation(message@),
        }
    }
}

/// The message of an error.
pub open spec fn route_error_text(error: RouteErrorView) -> Seq<char> {
    match error {
        RouteErrorView::HeadsetMissing =>
            "headset is connected, but the HyperX playback sink is unavailable"@,
        RouteErrorView::Speaker(error) => speaker_error_text(error),
        RouteErrorView::Refused(name) => "PulseAudio refused to set default sink to "@ + name,
        RouteErrorView::Operation(message) => message,
    }
}

impl RouteError {
    /// The message for the log.
    pub fn message(&self) -> (text: String)
        ensures
            text@ == route_error_text(self@),
    {
        match self {
            RouteError::HeadsetMissing => {
                "headset is connected, but the HyperX playback sink is unavailable".to_owned()
            },
            RouteError::Speaker(error) => error.message(),
            RouteError::Refused(name) => {
                "PulseAudio refused to set default sink to ".to_owned().concat(name.as_str())
            },
            RouteError::Operation(message) => message.clone(),
        }
    }
}

/// The default output, where the server names one that is there.
pub open spec fn default_of(sinks: Seq<SinkView>, name: Option<Seq<char>>) -> Option<SinkView> {
    match name {
        Some(name) => match named_index(sinks, name) {
            Some(i) => Some(sinks[i]),
            None => None,
        },
        None => None,
    }
}

/// Whether the default output is one that the user selected as the speakers. The headset's output
/// never is. Any other one is as long as nothing is remembered. From then on, an output that the
/// router itself made the default is not, nor one that the server moved to because the router's
/// choice has gone, nor the default on a new connection.
pub open spec fn is_user_choice(
    router: RouterView,
    sinks: Seq<SinkView>,
    current: Option<SinkView>,
) -> bool {
    current matches Some(sink) && !is_headset(sink) && (router.remembered is None || (
    router.established matches Some(name) && sink.name != name && named_index(sinks, name) is Some))
}

/// Whether the remembered output is there.
pub open spec fn is_recalled(router: RouterView, sinks: Seq<SinkView>) -> bool {
    router.remembered matches Some(memory) && recalled_index(sinks, memory) is Some
}

/// Whether an output is the remembered one: by its name, or because it is found for it.
pub open spec fn is_remembered(router: RouterView, sinks: Seq<SinkView>, sink: SinkView) -> bool {
    router.remembered matches Some(memory) && (memory.name == sink.name || (recalled_index(
        sinks,
        memory,
    ) matches Some(i) && sinks[i].name == sink.name))
}

/// What the speakers are looked for by: the remembered output, and while it is missing the
/// previous one.
pub open spec fn sought(router: RouterView, sinks: Seq<SinkView>) -> Option<RememberedView> {
    if is_recalled(router, sinks) {
        router.remembered
    } else {
        router.previous
    }
}

/// Whether the default output is the remembered one, put there by the router, and may stay:
/// something may be plugged in, or the user insisted on it.
pub open spec fn holds_choice(router: RouterView, current: Option<SinkView>) -> bool {
    &&& current matches Some(sink) && router.established == Some(sink.name) && (!is_unplugged(sink)
        || router.insisted)
    &&& router.remembered matches Some(memory) && router.established == Some(memory.name)
}

/// Whether an output may stand in for the remembered one as the default: something may be plugged
/// in, or there is nothing to fall back to.
pub open spec fn may_stand_in(sinks: Seq<SinkView>, current: Option<SinkView>) -> bool {
    current matches Some(sink) ==> !is_unplugged(sink) || fallback_index(sinks) is None
}

/// The default output as far as it counts for the speakers: the user's choice does, and the
/// remembered output stays where the router has put it; where the remembered output is missing,
/// another output may stand in for it.
pub open spec fn respected_default(
    router: RouterView,
    sinks: Seq<SinkView>,
    current: Option<SinkView>,
) -> Option<SinkView> {
    if is_user_choice(router, sinks, current) || holds_choice(router, current) || (!is_recalled(
        router,
        sinks,
    ) && may_stand_in(sinks, current)) {
        current
    } else {
        None
    }
}

/// Whether `target` only stands in for the remembered output, which is kept in memory.
pub open spec fn is_stand_in(
    router: RouterView,
    sinks: Seq<SinkView>,
    current: Option<SinkView>,
    speaker_override: Option<Seq<char>>,
    target: SinkView,
) -> bool {
    &&& speaker_override is None
    &&& router.remembered matches Some(memory) && memory.name != target.name
    &&& !is_recalled(router, sinks)
    &&& !is_user_choice(router, sinks, current)
}

/// Whether `target` is neither remembered nor noted: the headset's output, which only a configured
/// name can bring about, and an output with nothing plugged in that is used for want of another.
pub open spec fn is_passing(
    router: RouterView,
    sinks: Seq<SinkView>,
    current: Option<SinkView>,
    speaker_override: Option<Seq<char>>,
    target: SinkView,
) -> bool {
    is_headset(target) || (speaker_override is None && is_unplugged(target) && !is_user_choice(
        router,
        sinks,
        current,
    ) && !holds_choice(router, current))
}

/// Where the sound should go, and what is remembered then. While the headset is on, that is its
/// output; another output that is the default is noted as the previous one, and remembered if the
/// user had selected it or if it is the remembered one. While the headset is off, that is the
/// output that stands for the speakers; unless it is only passing, it becomes the previous one,
/// and is remembered unless it only stands in.
pub open spec fn routed(
    router: RouterView,
    state: HeadsetState,
    sinks: Seq<SinkView>,
    default_name: Option<Seq<char>>,
    speaker_override: Option<Seq<char>>,
) -> (RouterView, Result<SinkView, RouteErrorView>) {
    let current = default_of(sinks, default_name);
    let user_chose = is_user_choice(router, sinks, current);
    match state {
        HeadsetState::Connected => (
            if current matches Some(sink) && !is_headset(sink) {
                noted(
                    router,
                    current->0,
                    user_chose || is_remembered(router, sinks, current->0),
                    user_chose,
                )
            } else {
                router
            },
            match headset_index(sinks) {
                Some(i) => Ok(sinks[i]),
                None => Err(RouteErrorView::HeadsetMissing),
            },
        ),
        HeadsetState::Disconnected => match speaker_choice(
            sinks,
            respected_default(router, sinks, current),
            speaker_override,
            sought(router, sinks),
        ) {
            Ok(target) => (
                if is_passing(router, sinks, current, speaker_override, target) {
                    RouterView { insisted: false, ..router }
                } else {
                    noted(
                        router,
                        target,
                        !is_stand_in(router, sinks, current, speaker_override, target),
                        user_chose,
                    )
                },
                Ok(target),
            ),
            Err(error) => (router, Err(RouteErrorView::Speaker(error))),
        },
    }
}

/// The router with `sink` as the previous output, remembered as the speakers if it was `chosen`.
pub open spec fn noted(
    router: RouterView,
    sink: SinkView,
    chosen: bool,
    user_chose: bool,
) -> RouterView {
    let noted = RouterView { previous: Some(memory_of(sink)), ..router };
    if chosen {
        RouterView {
            remembered: Some(memory_of(sink)),
            insisted: is_unplugged(sink) && (user_chose || router.insisted),
            ..noted
        }
    } else {
        noted
    }
}

/// A router on a new connection, with what was saved of the speakers.
pub open spec fn connected_with(saved: Option<RememberedView>) -> RouterView {
    RouterView { remembered: saved, previous: None, insisted: false, established: None }
}

/// A router whose connection was replaced.
pub open spec fn reconnected(router: RouterView) -> RouterView {
    RouterView { established: None, ..router }
}

/// The streams that play on another output, in order.
pub open spec fn streams_elsewhere(inputs: Seq<SinkInput>, sink_index: u32) -> Seq<u32>
    decreases inputs.len(),
{
    if inputs.len() == 0 {
        seq![]
    } else if inputs.last().sink_index == sink_index {
        streams_elsewhere(inputs.drop_last(), sink_index)
    } else {
        streams_elsewhere(inputs.drop_last(), sink_index).push(inputs.last().index)
    }
}

/// The streams that play on another output than the one of that index, in order.
pub fn pending_moves(inputs: &Vec<SinkInput>, sink_index: u32) -> (moves: Vec<u32>)
    ensures
        moves@ == streams_elsewhere(inputs@, sink_index),
{
    let mut moves: Vec<u32> = Vec::new();
    for i in 0..inputs.len()
        invariant
            moves@ == streams_elsewhere(inputs@.take(i as int), sink_index),
    {
        assert(inputs@.take(i + 1).drop_last() =~= inputs@.take(i as int));
        if inputs[i].sink_index != sink_index {
            moves.push(inputs[i].index);
        }
    }
    assert(inputs@.take(inputs@.len() as int) =~= inputs@);
    moves
}

/// Whether the default output may stand in for the remembered one.
fn can_stand_in(sinks: &[Sink], current: Option<&Sink>) -> (r: bool)
    ensures
        r == may_stand_in(
            sink_views(sinks@),
            match current {
                Some(sink) => Some(sink@),
                None => None,
            },
        ),
{
    match current {
        Some(sink) => !is_unplugged_analog(sink) || find_best_fallback_sink(sinks).is_none(),
        None => true,
    }
}

/// An output to send the sound to.
#[derive(Debug)]
pub struct Target {
    pub name: String,
    pub index: u32,
}

/// Decides where the sound should go and remembers the speakers.
#[derive(Debug)]
pub struct PulseRouter {
    remembered_speaker: Option<RememberedSink>,
    previous_speaker: Option<RememberedSink>,
    insisted: bool,
    established: Option<String>,
}

impl View for PulseRouter {
    type V = RouterView;

    closed spec fn view(&self) -> RouterView {
        RouterView {
            remembered: remembered_of(self.remembered_speaker),
            previous: remembered_of(self.previous_speaker),
            insisted: self.insisted,
            established: text_of(self.established),
        }
    }
}

impl PulseRouter {
    /// A router on a new connection, with what was saved of the speakers.
    pub fn connect(saved: Option<RememberedSink>) -> (r: Self)
        ensures
            r@ == connected_with(remembered_of(saved)),
    {
        PulseRouter {
            remembered_speaker: saved,
            previous_speaker: None,
            insisted: false,
            established: None,
        }
    }

    /// The connection was replaced; what is remembered of the speakers stays.
    pub fn reconnect(&mut self)
        ensures
            final(self)@ == reconnected(old(self)@),
    {
        self.established = None;
    }

    /// The output of that name is the default now.
    pub fn establish(&mut self, name: String)
        ensures
            final(self)@ == (RouterView { established: Some(name@), ..old(self)@ }),
    {
        self.established = Some(name);
    }

    /// What is remembered of the speakers.
    pub fn remembered_speaker(&self) -> (r: Option<&RememberedSink>)
        ensures
            match r {
                Some(memory) => self@.remembered == Some(memory@),
                None => self@.remembered is None,
            },
    {
        match &self.remembered_speaker {
            Some(memory) => Some(memory),
            None => None,
        }
    }

    /// Whether the default output is one that the user selected as the speakers.
    fn user_chose(&self, sinks: &[Sink], current: Option<&Sink>) -> (r: bool)
        ensures
            r == is_user_choice(
                self@,
                sink_views(sinks@),
                match current {
                    Some(sink) => Some(sink@),
                    None => None,
                },
            ),
    {
        match current {
            Some(sink) => !is_hyperx_sink(sink) && (self.remembered_speaker.is_none()
                || match &self.established {
                Some(name) => !same_text(sink.name.as_str(), name.as_str()) && find_sink_by_name(
                    sinks,
                    name.as_str(),
                ).is_some(),
                None => false,
            }),
            None => false,
        }
    }

    /// Whether the default output is the remembered one, put there by the router, and may stay.
    fn holds(&self, current: Option<&Sink>) -> (r: bool)
        ensures
            r == holds_choice(
                self@,
                match current {
                    Some(sink) => Some(sink@),
                    None => None,
                },
            ),
    {
        match (current, &self.established, &self.remembered_speaker) {
            (Some(sink), Some(name), Some(memory)) => same_text(
                sink.name.as_str(),
                name.as_str(),
            ) && same_text(sink.name.as_str(), memory.name.as_str()) && (!is_unplugged_analog(sink)
                || self.insisted),
            _ => false,
        }
    }

    /// Whether the remembered output is there.
    fn recalls(&self, sinks: &[Sink]) -> (r: bool)
        ensures
            r == is_recalled(self@, sink_views(sinks@)),
    {
        match &self.remembered_speaker {
            Some(memory) => find_remembered_sink(sinks, memory).is_some(),
            None => false,
        }
    }

    /// Whether `sink` is the remembered output.
    fn is_remembered(&self, sinks: &[Sink], sink: &Sink) -> (r: bool)
        ensures
            r == is_remembered(self@, sink_views(sinks@), sink@),
    {
        match &self.remembered_speaker {
            Some(memory) => same_text(memory.name.as_str(), sink.name.as_str())
                || match find_remembered_sink(sinks, memory) {
                Some(found) => same_text(found.name.as_str(), sink.name.as_str()),
                None => false,
            },
            None => false,
        }
    }

    /// Takes note of `sink` as the previous output, and as the speakers if it was `chosen`.
    fn note(&mut self, sink: &Sink, chosen: bool, user_chose: bool)
        ensures
            final(self)@ == noted(old(self)@, sink@, chosen, user_chose),
    {
        self.previous_speaker = Some(RememberedSink::from_sink(sink));
        if chosen {
            self.insisted = is_unplugged_analog(sink) && (user_chose || self.insisted);
            self.remembered_speaker = Some(RememberedSink::from_sink(sink));
        }
    }

    /// Decides where the sound should go and takes note of the speakers.
    pub fn choose_target(
        &mut self,
        state: HeadsetState,
        sinks: &[Sink],
        current_default: Option<&str>,
        speaker_override: Option<&str>,
    ) -> (r: Result<Target, RouteError>)
        ensures
            ({
                let (router, outcome) = routed(
                    old(self)@,
                    state,
                    sink_views(sinks@),
                    view_of(current_default),
                    view_of(speaker_override),
                );
                &&& final(self)@ == router
                &&& match outcome {
                    Ok(sink) => r matches Ok(target) && target.name@ == sink.name && target.index
                        == sink.index,
                    Err(error) => r matches Err(e) && e@ == error,
                }
            }),
    {
        let ghost views = sink_views(sinks@);
        let current: Option<&Sink> = match current_default {
            Some(name) => find_sink_by_name(sinks, name),
            None => None,
        };
        let ghost current_view = default_of(views, view_of(current_default));
        assert(current_view == match current {
            Some(sink) => Some(sink@),
            None => None,
        });
        let user_chose = self.user_chose(sinks, current);
        if state.is_connected() {
            if let Some(sink) = current {
                if !is_hyperx_sink(sink) {
                    let chosen = user_chose || self.is_remembered(sinks, sink);
                    self.note(sink, chosen, user_chose);
                }
            }
            match find_hyperx_sink(sinks) {
                Some(sink) => Ok(Target { name: sink.name.clone(), index: sink.index }),
                None => Err(RouteError::HeadsetMissing),
            }
        } else {
            let recalled = self.recalls(sinks);
            let held = self.holds(current);
            let respected: Option<&Sink> = if user_chose || held || (!recalled && can_stand_in(
                sinks,
                current,
            )) {
                current
            } else {
                None
            };
            let memory: &Option<RememberedSink> = if recalled {
                &self.remembered_speaker
            } else {
                &self.previous_speaker
            };
            let choice = resolve_speaker_sink(
                sinks,
                respected,
                speaker_override,
                match memory {
                    Some(memory) => Some(memory),
                    None => None,
                },
            );
            match choice {
                Ok(sink) => {
                    let stand_in = speaker_override.is_none() && !recalled && !user_chose
                        && match &self.remembered_speaker {
                        Some(memory) => !same_text(memory.name.as_str(), sink.name.as_str()),
                        None => false,
                    };
                    let passing = is_hyperx_sink(sink) || (speaker_override.is_none()
                        && is_unplugged_analog(sink) && !user_chose && !held);
                    if passing {
                        self.insisted = false;
                    } else {
                        self.note(sink, !stand_in, user_chose);
                    }
                    Ok(Target { name: sink.name.clone(), index: sink.index })
                },
                Err(error) => Err(RouteError::Speaker(error)),
            }
        }
    }
}

} // verus!
