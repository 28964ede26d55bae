//! What holds of every decision where the sound goes, by what is listed, what is the default and
//! what is known from before.
use vstd::prelude::*;

use crate::guarantees::choosing::{
    best_fit_is_found_if_it_is_the_only_one, first_headset_is_found, first_of_a_name_is_found,
    likeliest_output_is_fallen_back_to,
};
use crate::hid::HeadsetState;
use crate::router::{
    connected_with, reconnected, routed, streams_elsewhere, RouteErrorView, RouterView,
};
use crate::selection::{
    fallback_index, headset_index, is_headset, is_unplugged, named_index, recalled_index,
    SpeakerErrorView,
};
use crate::sink::{memory_of, RememberedView, SinkInput, SinkView};

verus! {

/// Whether the output at `d` is the default: the first one of its name.
pub open spec fn is_default(sinks: Seq<SinkView>, name: Option<Seq<char>>, d: int) -> bool {
    &&& 0 <= d < sinks.len()
    &&& name == Some(sinks[d].name)
    &&& forall|j: int| 0 <= j < d ==> (#[trigger] sinks[j]).name != sinks[d].name
}

/// Whether some output has the name.
pub open spec fn is_listed(sinks: Seq<SinkView>, name: Seq<char>) -> bool {
    exists|i: int| 0 <= i < sinks.len() && (#[trigger] sinks[i]).name == name
}

/// Whether the router knows that it had made another output the default, which is still there: so
/// somebody else has made this one the default.
pub open spec fn was_replaced(router: RouterView, sinks: Seq<SinkView>, name: Seq<char>) -> bool {
    router.established is Some && router.established->0 != name && is_listed(
        sinks,
        router.established->0,
    )
}

/// Whether the memory is of an output of that name.
pub open spec fn has_name(memory: Option<RememberedView>, name: Seq<char>) -> bool {
    memory is Some && memory->0.name == name
}

/// Where the output stands that a memory is found by, if there is a memory.
pub open spec fn found_for(sinks: Seq<SinkView>, memory: Option<RememberedView>) -> Option<int> {
    match memory {
        Some(memory) => recalled_index(sinks, memory),
        None => None,
    }
}

/// A default is found by its name.
proof fn lemma_default(sinks: Seq<SinkView>, name: Option<Seq<char>>, d: int)
    requires
        is_default(sinks, name, d),
    ensures
        named_index(sinks, sinks[d].name) == Some(d),
{
    first_of_a_name_is_found(sinks, sinks[d].name);
    let i = named_index(sinks, sinks[d].name);
    assert(sinks[d] == sinks[d]);
    if i is Some {
        assert(sinks[i->0] == sinks[i->0]);
    }
}

/// What is listed is found, and what is found is listed.
proof fn lemma_listed(sinks: Seq<SinkView>, name: Seq<char>)
    ensures
        is_listed(sinks, name) <==> named_index(sinks, name) is Some,
{
    first_of_a_name_is_found(sinks, name);
    if named_index(sinks, name) is Some {
        assert(sinks[named_index(sinks, name)->0].name == name);
    }
}

/// While the headset is on, the sound goes to the first of its outputs, whatever the default, a
/// configured output and everything known from before are; where it has none, nothing is routed.
pub proof fn headset_on_means_the_headset(
    router: RouterView,
    sinks: Seq<SinkView>,
    default_name: Option<Seq<char>>,
    speaker_override: Option<Seq<char>>,
)
    ensures
        match routed(
            router,
            HeadsetState::Connected,
            sinks,
            default_name,
            speaker_override,
        ).1 {
            Ok(target) => exists|i: int|
                0 <= i < sinks.len() && #[trigger] sinks[i] == target && is_headset(target)
                    && forall|j: int| 0 <= j < i ==> !is_headset(#[trigger] sinks[j]),
            Err(error) => error == RouteErrorView::HeadsetMissing && forall|j: int|
                0 <= j < sinks.len() ==> !is_headset(#[trigger] sinks[j]),
        },
{
    first_headset_is_found(sinks);
    if headset_index(sinks) is Some {
        assert(sinks[headset_index(sinks)->0] == sinks[headset_index(sinks)->0]);
    }
}

/// While the headset is on, a default that is not its output is noted as the previous output. It is
/// remembered as well if nothing was remembered, if somebody else has made it the default, if the
/// remembered output has its name, or if it is found for the remembered one; else what is
/// remembered stays.
pub proof fn headset_on_notes_the_default(
    router: RouterView,
    sinks: Seq<SinkView>,
    d: int,
    default_name: Option<Seq<char>>,
    speaker_override: Option<Seq<char>>,
)
    requires
        is_default(sinks, default_name, d),
        !is_headset(sinks[d]),
    ensures
        ({
            let after = routed(
                router,
                HeadsetState::Connected,
                sinks,
                default_name,
                speaker_override,
            ).0;
            let sink = sinks[d];
            let selected = router.remembered is None || was_replaced(router, sinks, sink.name);
            let known = has_name(router.remembered, sink.name) || (found_for(
                sinks,
                router.remembered,
            ) is Some && sinks[found_for(sinks, router.remembered)->0].name == sink.name);
            &&& after.previous == Some(memory_of(sink))
            &&& after.established == router.established
            &&& selected || known ==> after.remembered == Some(memory_of(sink)) && after.insisted
                == (is_unplugged(sink) && (selected || router.insisted))
            &&& !selected && !known ==> after.remembered == router.remembered && after.insisted
                == router.insisted
        }),
{
    lemma_default(sinks, default_name, d);
    if router.established is Some {
        lemma_listed(sinks, router.established->0);
    }
}

/// While the headset is on, nothing is noted or forgotten where the default is the headset's
/// output, is not listed, or is not known.
pub proof fn headset_on_forgets_nothing(
    router: RouterView,
    sinks: Seq<SinkView>,
    default_name: Option<Seq<char>>,
    speaker_override: Option<Seq<char>>,
)
    requires
        forall|d: int| is_default(sinks, default_name, d) ==> is_headset(#[trigger] sinks[d]),
    ensures
        routed(router, HeadsetState::Connected, sinks, default_name, speaker_override).0 == router,
{
    if default_name is Some {
        first_of_a_name_is_found(sinks, default_name->0);
        if named_index(sinks, default_name->0) is Some {
            let d = named_index(sinks, default_name->0)->0;
            assert(is_default(sinks, default_name, d));
            assert(is_headset(sinks[d]));
        }
    }
}

/// While the headset is off, a configured output is where the sound goes, and it is what is
/// remembered and noted, unless it is the headset's own output; where it is not listed, nothing is
/// routed and nothing changes.
pub proof fn configured_output_is_used_and_remembered(
    router: RouterView,
    sinks: Seq<SinkView>,
    default_name: Option<Seq<char>>,
    name: Seq<char>,
)
    ensures
        ({
            let (after, outcome) = routed(
                router,
                HeadsetState::Disconnected,
                sinks,
                default_name,
                Some(name),
            );
            &&& after.established == router.established
            &&& outcome is Ok <==> is_listed(sinks, name)
            &&& match outcome {
                Ok(target) => {
                    &&& target.name == name
                    &&& exists|i: int| is_default(sinks, Some(name), i) && #[trigger] sinks[i]
                        == target
                    &&& after.insisted ==> is_unplugged(target) && !is_headset(target)
                    &&& is_headset(target) ==> after.remembered == router.remembered
                        && after.previous == router.previous
                    &&& !is_headset(target) ==> after.remembered == Some(memory_of(target))
                        && after.previous == Some(memory_of(target))
                },
                Err(error) => after == router && error == RouteErrorView::Speaker(
                    SpeakerErrorView::OverrideUnavailable(name),
                ),
            }
        }),
{
    lemma_listed(sinks, name);
    first_of_a_name_is_found(sinks, name);
    if named_index(sinks, name) is Some {
        let i = named_index(sinks, name)->0;
        assert(is_default(sinks, Some(name), i));
        assert(sinks[i] == sinks[i]);
    }
}

/// While the headset is off and no output is configured, a default that somebody selected is where
/// the sound goes, and it is remembered: any default but the headset's as long as nothing is
/// remembered, and from then on one that somebody else has made the default.
pub proof fn selected_output_is_used_and_remembered(
    router: RouterView,
    sinks: Seq<SinkView>,
    d: int,
    default_name: Option<Seq<char>>,
)
    requires
        is_default(sinks, default_name, d),
        !is_headset(sinks[d]),
        router.remembered is None || was_replaced(router, sinks, sinks[d].name),
    ensures
        routed(router, HeadsetState::Disconnected, sinks, default_name, None) == (
            RouterView {
                remembered: Some(memory_of(sinks[d])),
                previous: Some(memory_of(sinks[d])),
                insisted: is_unplugged(sinks[d]),
                ..router
            },
            Ok::<SinkView, RouteErrorView>(sinks[d]),
        ),
{
    lemma_default(sinks, default_name, d);
    if router.established is Some {
        lemma_listed(sinks, router.established->0);
    }
}

/// While the headset is off and no output is configured, the remembered output stays the default
/// where the router has put it, as long as something may be plugged in, or somebody selected it
/// with nothing plugged in.
pub proof fn remembered_default_stays(
    router: RouterView,
    sinks: Seq<SinkView>,
    d: int,
    default_name: Option<Seq<char>>,
)
    requires
        is_default(sinks, default_name, d),
        !is_headset(sinks[d]),
        router.established == Some(sinks[d].name),
        has_name(router.remembered, sinks[d].name),
        !is_unplugged(sinks[d]) || router.insisted,
    ensures
        routed(router, HeadsetState::Disconnected, sinks, default_name, None) == (
            RouterView {
                remembered: Some(memory_of(sinks[d])),
                previous: Some(memory_of(sinks[d])),
                insisted: is_unplugged(sinks[d]),
                ..router
            },
            Ok::<SinkView, RouteErrorView>(sinks[d]),
        ),
{
    lemma_default(sinks, default_name, d);
}

/// Whether the default leaves it to the router where the sound goes: nobody selected it, and the
/// router did not put it there for the remembered output, or nothing is plugged in any more.
pub open spec fn leaves_the_choice(
    router: RouterView,
    sinks: Seq<SinkView>,
    default_name: Option<Seq<char>>,
) -> bool {
    forall|d: int|
        is_default(sinks, default_name, d) ==> is_headset(#[trigger] sinks[d]) || (
        router.remembered is Some && !was_replaced(router, sinks, sinks[d].name) && !(
        router.established == Some(sinks[d].name) && has_name(router.remembered, sinks[d].name) && (
        !is_unplugged(sinks[d]) || router.insisted)))
}

/// While the headset is off and no output is configured, and the default leaves the choice, the
/// sound goes to the remembered output wherever it is found, and what is remembered is renewed from
/// it.
pub proof fn remembered_output_is_restored(
    router: RouterView,
    sinks: Seq<SinkView>,
    default_name: Option<Seq<char>>,
    i: int,
)
    requires
        leaves_the_choice(router, sinks, default_name),
        found_for(sinks, router.remembered) == Some(i),
    ensures
        routed(router, HeadsetState::Disconnected, sinks, default_name, None) == (
            RouterView {
                remembered: Some(memory_of(sinks[i])),
                previous: Some(memory_of(sinks[i])),
                insisted: false,
                ..router
            },
            Ok::<SinkView, RouteErrorView>(sinks[i]),
        ),
{
    lemma_leaves(router, sinks, default_name);
    best_fit_is_found_if_it_is_the_only_one(sinks, router.remembered->0);
}

/// A default that leaves the choice counts for no choice.
proof fn lemma_leaves(router: RouterView, sinks: Seq<SinkView>, default_name: Option<Seq<char>>)
    requires
        leaves_the_choice(router, sinks, default_name),
    ensures
        default_name is Some && named_index(sinks, default_name->0) is Some ==> is_default(
            sinks,
            default_name,
            named_index(sinks, default_name->0)->0,
        ) && {
            let sink = sinks[named_index(sinks, default_name->0)->0];
            is_headset(sink) || (router.remembered is Some && !was_replaced(
                router,
                sinks,
                sink.name,
            ) && !(router.established == Some(sink.name) && has_name(router.remembered, sink.name)
                && (!is_unplugged(sink) || router.insisted)))
        },
        router.established is Some ==> (is_listed(sinks, router.established->0) <==> named_index(
            sinks,
            router.established->0,
        ) is Some),
{
    if router.established is Some {
        lemma_listed(sinks, router.established->0);
    }
    if default_name is Some && named_index(sinks, default_name->0) is Some {
        first_of_a_name_is_found(sinks, default_name->0);
        let d = named_index(sinks, default_name->0)->0;
        assert(is_default(sinks, default_name, d));
        assert(sinks[d] == sinks[d]);
    }
}

/// While the headset is off, no output is configured, and the remembered one is not found, another
/// default that leaves the choice stands in for it: always where something may be plugged in, and
/// else only where there is nothing to fall back to. The remembered output stays remembered.
pub proof fn default_stands_in_for_a_missing_output(
    router: RouterView,
    sinks: Seq<SinkView>,
    d: int,
    default_name: Option<Seq<char>>,
)
    requires
        is_default(sinks, default_name, d),
        !is_headset(sinks[d]),
        leaves_the_choice(router, sinks, default_name),
        found_for(sinks, router.remembered) is None,
        !is_unplugged(sinks[d]) || fallback_index(sinks) is None,
    ensures
        ({
            let (after, outcome) = routed(
                router,
                HeadsetState::Disconnected,
                sinks,
                default_name,
                None,
            );
            &&& outcome == Ok::<SinkView, RouteErrorView>(sinks[d])
            &&& after.established == router.established
            &&& is_unplugged(sinks[d]) ==> after == (RouterView { insisted: false, ..router })
            &&& !is_unplugged(sinks[d]) ==> after.previous == Some(memory_of(sinks[d]))
            &&& !is_unplugged(sinks[d]) && has_name(router.remembered, sinks[d].name)
                ==> after.remembered == Some(memory_of(sinks[d])) && !after.insisted
            &&& !has_name(router.remembered, sinks[d].name) ==> after.remembered
                == router.remembered
        }),
{
    lemma_leaves(router, sinks, default_name);
    lemma_default(sinks, default_name, d);
    assert(sinks[d] == sinks[d]);
}

/// While the headset is off, no output is configured, the remembered one is not found, and the
/// default cannot stand in for it, the sound goes to the previous output wherever that is found;
/// else to the likeliest one; and only where there is none of these is nothing routed. The
/// remembered output stays remembered; where there was none, the target is.
pub proof fn missing_output_is_replaced(
    router: RouterView,
    sinks: Seq<SinkView>,
    default_name: Option<Seq<char>>,
)
    requires
        leaves_the_choice(router, sinks, default_name),
        found_for(sinks, router.remembered) is None,
        forall|d: int|
            is_default(sinks, default_name, d) ==> is_headset(#[trigger] sinks[d]) || (
            is_unplugged(sinks[d]) && fallback_index(sinks) is Some),
    ensures
        ({
            let (after, outcome) = routed(
                router,
                HeadsetState::Disconnected,
                sinks,
                default_name,
                None,
            );
            let place = if found_for(sinks, router.previous) is Some {
                found_for(sinks, router.previous)
            } else {
                fallback_index(sinks)
            };
            &&& place is None ==> after == router && outcome == Err::<SinkView, RouteErrorView>(
                RouteErrorView::Speaker(SpeakerErrorView::NoneUsable),
            )
            &&& place is Some ==> {
                let target = sinks[place->0];
                &&& outcome == Ok::<SinkView, RouteErrorView>(target)
                &&& after.established == router.established
                &&& after.previous == Some(memory_of(target))
                &&& router.remembered is None || has_name(router.remembered, target.name)
                    ==> after.remembered == Some(memory_of(target)) && !after.insisted
                &&& router.remembered is Some && !has_name(router.remembered, target.name)
                    ==> after.remembered == router.remembered && after.insisted == router.insisted
            }
        }),
{
    lemma_leaves(router, sinks, default_name);
    likeliest_output_is_fallen_back_to(sinks);
    if router.previous is Some {
        best_fit_is_found_if_it_is_the_only_one(sinks, router.previous->0);
    }
    if default_name is Some && named_index(sinks, default_name->0) is Some {
        assert(sinks[named_index(sinks, default_name->0)->0]
            == sinks[named_index(sinks, default_name->0)->0]);
    }
}

/// A new router knows what was saved and nothing else. A connection that is replaced takes nothing
/// with it but what the router had made the default there.
pub proof fn memory_outlives_the_connection(
    saved: Option<RememberedView>,
    router: RouterView,
)
    ensures
        connected_with(saved).remembered == saved,
        connected_with(saved).previous is None,
        connected_with(saved).established is None,
        !connected_with(saved).insisted,
        reconnected(router).remembered == router.remembered,
        reconnected(router).previous == router.previous,
        reconnected(router).insisted == router.insisted,
        reconnected(router).established is None,
{
}

/// The streams to move are those that play on another output, each as often as it is listed and in
/// the order of the list; a stream that plays on the output already is not among them.
pub proof fn streams_to_move_are_those_elsewhere(
    inputs: Seq<SinkInput>,
    input: SinkInput,
    index: u32,
)
    ensures
        streams_elsewhere(seq![], index) == Seq::<u32>::empty(),
        streams_elsewhere(inputs.push(input), index) == if input.sink_index == index {
            streams_elsewhere(inputs, index)
        } else {
            streams_elsewhere(inputs, index).push(input.index)
        },
{
    assert(inputs.push(input).drop_last() =~= inputs);
}

} // verus!
