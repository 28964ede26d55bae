//! What holds of the choice of an output.
use vstd::prelude::*;

use crate::guarantees::choosing::{first_of_a_name_is_found, lemma_first_headset};
use crate::hid::HeadsetState;
use crate::router::{
    default_of, is_recalled, is_remembered, is_user_choice, respected_default, routed, sought,
    RouteErrorView, RouterView,
};
use crate::selection::{
    fallback_at, fallback_index, headset_at, headset_index, is_eligible, is_headset,
    is_unplugged, named_at, named_index, recall_score, recalled_at, recalled_index, speaker_choice, SpeakerErrorView,
};
use crate::sink::{conflict, memory_of, RememberedView, SinkView};
use crate::text::{is_nonempty_equal, is_normalized_equal};

verus! {

/// Whether no two outputs share a name.
pub open spec fn names_differ(sinks: Seq<SinkView>) -> bool {
    forall|i: int, j: int|
        0 <= i < sinks.len() && 0 <= j < sinks.len() && i != j ==> (#[trigger] sinks[i]).name != (
        #[trigger] sinks[j]).name
}

/// With names that differ, every output is found under its name.
proof fn lemma_named(sinks: Seq<SinkView>, i: int)
    requires
        names_differ(sinks),
        0 <= i < sinks.len(),
    ensures
        named_index(sinks, sinks[i].name) == Some(i),
{
    assert(named_at(sinks, sinks[i].name, i));
}

/// An output that may be picked is found again by what is remembered of it, as long as it keeps
/// its name and shares it with no other.
pub proof fn keeps_finding_an_output_by_name(sinks: Seq<SinkView>, i: int, memory: RememberedView)
    requires
        names_differ(sinks),
        0 <= i < sinks.len(),
        is_eligible(sinks[i]),
        memory.name == sinks[i].name,
    ensures
        recalled_index(sinks, memory) == Some(i),
{
    assert forall|j: int| 0 <= j < sinks.len() && j != i implies (recall_score(
        #[trigger] sinks[j],
        memory,
    ) matches Some(other) ==> other < 1000) by {
        assert(sinks[j].name != sinks[i].name);
    }
    assert(recalled_at(sinks, memory, i));
    let k = choose|k: int| recalled_at(sinks, memory, k);
    if k != i {
        assert(sinks[k].name != sinks[i].name);
        assert(recall_score(sinks[k], memory)->0 < 1000);
        assert(recall_score(sinks[i], memory) == Some(1000u16));
    }
}

/// An output whose name has changed is found again by its serial number together with its profile
/// or its description, as long as no other output that may be picked has the remembered name or
/// that serial number, and its profile is not known to differ.
pub proof fn keeps_finding_an_output_by_serial(sinks: Seq<SinkView>, i: int, memory: RememberedView)
    requires
        0 <= i < sinks.len(),
        is_eligible(sinks[i]),
        memory.serial matches Some(serial) && serial.len() > 0 && sinks[i].serial == Some(serial),
        !conflict(memory.profile, sinks[i].profile),
        is_nonempty_equal(memory.profile, sinks[i].profile) || is_normalized_equal(
            memory.description,
            sinks[i].description,
        ),
        forall|j: int|
            0 <= j < sinks.len() && j != i && is_eligible(#[trigger] sinks[j]) ==> sinks[j].name
                != memory.name && sinks[j].serial != memory.serial,
    ensures
        recalled_index(sinks, memory) == Some(i),
{
    assert(recall_score(sinks[i], memory)->0 >= 900);
    assert forall|j: int| 0 <= j < sinks.len() && j != i implies (recall_score(
        #[trigger] sinks[j],
        memory,
    ) matches Some(other) ==> other < 900) by {}
    assert(recalled_at(sinks, memory, i));
    let k = choose|k: int| recalled_at(sinks, memory, k);
    if k != i {
        assert(recall_score(sinks[k], memory)->0 < 900);
        assert(sinks[i] == sinks[i]);
    }
}

/// An output whose name has changed is found again by its card and profile, as long as no other
/// output that may be picked has the remembered name, the serial number, or that card and profile.
pub proof fn keeps_finding_an_output_by_card_and_profile(
    sinks: Seq<SinkView>,
    i: int,
    memory: RememberedView,
)
    requires
        0 <= i < sinks.len(),
        is_eligible(sinks[i]),
        is_nonempty_equal(memory.card, sinks[i].card),
        is_nonempty_equal(memory.profile, sinks[i].profile),
        forall|j: int|
            0 <= j < sinks.len() && j != i && is_eligible(#[trigger] sinks[j]) ==> sinks[j].name
                != memory.name && !is_nonempty_equal(memory.serial, sinks[j].serial) && !(
            sinks[j].card == memory.card && sinks[j].profile == memory.profile),
    ensures
        recalled_index(sinks, memory) == Some(i),
{
    assert(recall_score(sinks[i], memory)->0 >= 850);
    assert forall|j: int| 0 <= j < sinks.len() && j != i implies (recall_score(
        #[trigger] sinks[j],
        memory,
    ) matches Some(other) ==> other < 850) by {}
    assert(recalled_at(sinks, memory, i));
    let k = choose|k: int| recalled_at(sinks, memory, k);
    if k != i {
        assert(recall_score(sinks[k], memory)->0 < 850);
        assert(sinks[i] == sinks[i]);
    }
}

/// Two outputs that fit equally well and better than all others are not told apart: none is
/// picked.
pub proof fn never_guesses_between_equals(
    sinks: Seq<SinkView>,
    memory: RememberedView,
    i: int,
    j: int,
)
    requires
        0 <= i < sinks.len(),
        0 <= j < sinks.len(),
        i != j,
        recall_score(sinks[i], memory) is Some,
        recall_score(sinks[i], memory) == recall_score(sinks[j], memory),
        forall|k: int|
            0 <= k < sinks.len() ==> (recall_score(#[trigger] sinks[k], memory) matches Some(other)
                ==> other <= recall_score(sinks[i], memory)->0),
    ensures
        recalled_index(sinks, memory) is None,
{
    if exists|k: int| recalled_at(sinks, memory, k) {
        let k = choose|k: int| recalled_at(sinks, memory, k);
        assert(sinks[i] == sinks[i] && sinks[j] == sinks[j] && sinks[k] == sinks[k]);
    }
}

/// What is picked for the remembered output, or for want of one, is never the headset's output,
/// nor one with nothing plugged in.
pub proof fn picks_only_eligible_outputs(sinks: Seq<SinkView>, memory: RememberedView)
    ensures
        recalled_index(sinks, memory) matches Some(i) ==> 0 <= i < sinks.len() && is_eligible(
            sinks[i],
        ),
        fallback_index(sinks) matches Some(i) ==> 0 <= i < sinks.len() && is_eligible(sinks[i]),
{
    if recalled_index(sinks, memory) is Some {
        assert(recalled_at(sinks, memory, recalled_index(sinks, memory)->0));
    }
    if fallback_index(sinks) is Some {
        assert(fallback_at(sinks, fallback_index(sinks)->0));
    }
}

/// Outputs of one card are not confused: what is picked for the remembered output has its name, or
/// its profile or description, and then no profile that is known to differ.
pub proof fn never_confuses_profiles(sinks: Seq<SinkView>, memory: RememberedView)
    ensures
        recalled_index(sinks, memory) matches Some(i) ==> sinks[i].name == memory.name || (
        !conflict(memory.profile, sinks[i].profile) && (is_nonempty_equal(
            memory.profile,
            sinks[i].profile,
        ) || is_normalized_equal(memory.description, sinks[i].description))),
{
    if recalled_index(sinks, memory) is Some {
        assert(recalled_at(sinks, memory, recalled_index(sinks, memory)->0));
    }
}

/// Without a configured output, the speakers are never the headset's output.
pub proof fn speakers_are_never_the_headset(
    sinks: Seq<SinkView>,
    current_default: Option<SinkView>,
    remembered: Option<RememberedView>,
)
    ensures
        speaker_choice(sinks, current_default, None, remembered) matches Ok(sink) ==> !is_headset(
            sink,
        ),
{
    if remembered is Some {
        picks_only_eligible_outputs(sinks, remembered->0);
    }
    if fallback_index(sinks) is Some {
        assert(fallback_at(sinks, fallback_index(sinks)->0));
    }
}

/// While the headset is on, the sound goes to the first of its outputs; where it has none, nothing
/// is routed.
pub proof fn headset_on_routes_to_the_headset(
    router: RouterView,
    sinks: Seq<SinkView>,
    default_name: Option<Seq<char>>,
    speaker_override: Option<Seq<char>>,
)
    ensures
        match routed(
            router,
            HeadsetState::Connected,
            sinks,
            default_name,
            speaker_override,
        ).1 {
            Ok(target) => exists|i: int| #[trigger] headset_at(sinks, i) && target == sinks[i],
            Err(error) => error == RouteErrorView::HeadsetMissing && forall|i: int|
                0 <= i < sinks.len() ==> !is_headset(#[trigger] sinks[i]),
        },
{
    if headset_index(sinks) is Some {
        assert(headset_at(sinks, headset_index(sinks)->0));
    } else if exists|i: int| 0 <= i < sinks.len() && is_headset(#[trigger] sinks[i]) {
        let i = choose|i: int| 0 <= i < sinks.len() && is_headset(#[trigger] sinks[i]);
        lemma_first_headset(sinks, i);
    }
}

/// A configured output is where the sound goes while the headset is off, whatever else holds;
/// where it is missing, nothing is routed and nothing is forgotten.
pub proof fn configured_output_is_forced(
    router: RouterView,
    sinks: Seq<SinkView>,
    default_name: Option<Seq<char>>,
    name: Seq<char>,
)
    ensures
        ({
            let (after, outcome) = routed(
                router,
                HeadsetState::Disconnected,
                sinks,
                default_name,
                Some(name),
            );
            match named_index(sinks, name) {
                Some(i) => outcome == Ok::<SinkView, RouteErrorView>(sinks[i]) && sinks[i].name
                    == name,
                None => after == router && outcome == Err::<SinkView, RouteErrorView>(
                    RouteErrorView::Speaker(SpeakerErrorView::OverrideUnavailable(name)),
                ),
            }
        }),
{
    if named_index(sinks, name) is Some {
        assert(named_at(sinks, name, named_index(sinks, name)->0));
    }
}

/// While the headset is on, another output that is the default is noted as the previous one,
/// whether the headset has an output or not. If it is the remembered output, or was selected by
/// the user, what is remembered is renewed from it; nothing else changes what is remembered.
pub proof fn headset_on_notes_the_previous_output(
    router: RouterView,
    sinks: Seq<SinkView>,
    default_name: Option<Seq<char>>,
    speaker_override: Option<Seq<char>>,
)
    ensures
        ({
            let after = routed(
                router,
                HeadsetState::Connected,
                sinks,
                default_name,
                speaker_override,
            ).0;
            match default_of(sinks, default_name) {
                Some(sink) => if is_headset(sink) {
                    after == router
                } else {
                    &&& after.previous == Some(memory_of(sink))
                    &&& (is_user_choice(router, sinks, Some(sink)) || (
                    router.remembered matches Some(memory) && memory.name == sink.name))
                        ==> after.remembered == Some(memory_of(sink))
                    &&& after.remembered == router.remembered || after.remembered == Some(
                        memory_of(sink),
                    )
                },
                None => after == router,
            }
        }),
{
}

/// When the headset is switched off, the sound goes back to the output that was the default
/// before it was switched on: one that the user had selected, the remembered one, or any other
/// while the remembered one is missing. It is still there and may be picked, under a name of its
/// own. By then the default is the headset's output, or there is none; where the headset's output
/// has gone, the default may be any output that the server has moved to, unless the remembered one
/// is missing.
pub proof fn headset_off_returns_to_the_previous_output(
    router: RouterView,
    sinks_on: Seq<SinkView>,
    sinks_off: Seq<SinkView>,
    before: int,
    headset: int,
    after: int,
    default_off: Option<Seq<char>>,
)
    requires
        names_differ(sinks_on),
        0 <= before < sinks_on.len(),
        !is_headset(sinks_on[before]),
        headset_at(sinks_on, headset),
        names_differ(sinks_off),
        0 <= after < sinks_off.len(),
        sinks_off[after].name == sinks_on[before].name,
        is_eligible(sinks_off[after]),
        ({
            let kept = is_user_choice(router, sinks_on, Some(sinks_on[before])) || is_remembered(
                router,
                sinks_on,
                sinks_on[before],
            );
            let off_speakers = default_of(sinks_off, default_off) matches Some(sink) ==> is_headset(
                sink,
            );
            ||| off_speakers && (kept || !is_recalled(router, sinks_off))
            ||| kept && named_index(sinks_off, sinks_on[headset].name) is None
        }),
    ensures
        ({
            let (switched_on, target_on) = routed(
                router,
                HeadsetState::Connected,
                sinks_on,
                Some(sinks_on[before].name),
                None,
            );
            let on_headset = RouterView {
                established: Some(sinks_on[headset].name),
                ..switched_on
            };
            let (switched_off, target_off) = routed(
                on_headset,
                HeadsetState::Disconnected,
                sinks_off,
                default_off,
                None,
            );
            &&& target_on == Ok::<SinkView, RouteErrorView>(sinks_on[headset])
            &&& target_off == Ok::<SinkView, RouteErrorView>(sinks_off[after])
        }),
{
    lemma_named(sinks_on, before);
    assert(headset_index(sinks_on) == Some(headset)) by {
        let k = choose|k: int| headset_at(sinks_on, k);
        assert(headset_at(sinks_on, k));
        if k < headset {
            assert(!is_headset(sinks_on[k]));
        } else if headset < k {
            assert(!is_headset(sinks_on[headset]));
        }
    }
    keeps_finding_an_output_by_name(sinks_off, after, memory_of(sinks_on[before]));
    lemma_default_is_named(sinks_off, default_off);
}

/// The default output is found under its name.
proof fn lemma_default_is_named(sinks: Seq<SinkView>, default_name: Option<Seq<char>>)
    ensures
        default_of(sinks, default_name) matches Some(sink) ==> named_index(sinks, sink.name) is Some,
{
    if default_of(sinks, default_name) is Some {
        assert(named_at(sinks, default_name->0, named_index(sinks, default_name->0)->0));
    }
}

/// Where the output that the router had made the default has gone, or there is no default, the
/// sound goes to the remembered output while the headset is off, whatever the server has moved to.
pub proof fn vanished_output_gives_way_to_the_remembered_one(
    router: RouterView,
    sinks: Seq<SinkView>,
    default_name: Option<Seq<char>>,
)
    requires
        is_recalled(router, sinks),
        default_of(sinks, default_name) is None || (router.established matches Some(name)
            && named_index(sinks, name) is None),
    ensures
        routed(router, HeadsetState::Disconnected, sinks, default_name, None).1 == Ok::<
            SinkView,
            RouteErrorView,
        >(sinks[recalled_index(sinks, router.remembered->0)->0]),
{
    lemma_default_is_named(sinks, default_name);
}

/// While the headset is off, a default output with nothing plugged in is left for one that may be
/// picked where there is one to fall back to, unless the user selected it: just now, or when the
/// router put it there, with nothing plugged in even then.
pub proof fn unplugged_default_is_skipped(
    router: RouterView,
    sinks: Seq<SinkView>,
    default_name: Option<Seq<char>>,
)
    requires
        default_of(sinks, default_name) matches Some(sink) && is_unplugged(sink),
        !is_user_choice(router, sinks, default_of(sinks, default_name)),
        !router.insisted,
        fallback_index(sinks) is Some,
    ensures
        routed(router, HeadsetState::Disconnected, sinks, default_name, None).1 matches Ok(target)
            && is_eligible(target),
{
    if sought(router, sinks) is Some {
        picks_only_eligible_outputs(sinks, sought(router, sinks)->0);
    }
    assert(fallback_at(sinks, fallback_index(sinks)->0));
}

/// The headset's output is never remembered, not even where it is the configured one: what is
/// remembered stays, or comes from another output that is there.
pub proof fn headset_is_never_remembered(
    router: RouterView,
    state: HeadsetState,
    sinks: Seq<SinkView>,
    default_name: Option<Seq<char>>,
    speaker_override: Option<Seq<char>>,
)
    ensures
        ({
            let after = routed(router, state, sinks, default_name, speaker_override).0;
            after.remembered == router.remembered || exists|i: int|
                0 <= i < sinks.len() && !is_headset(#[trigger] sinks[i]) && after.remembered == Some(
                    memory_of(sinks[i]),
                )
        }),
{
    lemma_target_is_listed(router, state, sinks, default_name, speaker_override);
    if default_name is Some && named_index(sinks, default_name->0) is Some {
        assert(named_at(sinks, default_name->0, named_index(sinks, default_name->0)->0));
    }
}

/// As long as nothing is remembered, an output other than the headset's that is the default is
/// remembered, in whatever state the headset is, and stays the default while it is off.
pub proof fn first_output_is_remembered(
    router: RouterView,
    state: HeadsetState,
    sinks: Seq<SinkView>,
    default_name: Option<Seq<char>>,
)
    requires
        router.remembered is None,
        default_of(sinks, default_name) matches Some(sink) && !is_headset(sink),
    ensures
        ({
            let (after, outcome) = routed(router, state, sinks, default_name, None);
            let sink = default_of(sinks, default_name)->0;
            &&& after.remembered == Some(memory_of(sink))
            &&& state is Disconnected ==> outcome == Ok::<SinkView, RouteErrorView>(sink)
        }),
{
}

/// An output is found by its name, if only because of another one of that name.
proof fn lemma_first_named(sinks: Seq<SinkView>, i: int)
    requires
        0 <= i < sinks.len(),
    ensures
        named_index(sinks, sinks[i].name) is Some,
{
    first_of_a_name_is_found(sinks, sinks[i].name);
    assert(sinks[i] == sinks[i]);
}

/// The sound only ever goes to an output that is there.
proof fn lemma_target_is_listed(
    router: RouterView,
    state: HeadsetState,
    sinks: Seq<SinkView>,
    default_name: Option<Seq<char>>,
    speaker_override: Option<Seq<char>>,
)
    ensures
        routed(router, state, sinks, default_name, speaker_override).1 matches Ok(target)
            ==> exists|i: int| 0 <= i < sinks.len() && target == sinks[i],
{
    if default_name is Some && named_index(sinks, default_name->0) is Some {
        assert(named_at(sinks, default_name->0, named_index(sinks, default_name->0)->0));
    }
    if headset_index(sinks) is Some {
        assert(headset_at(sinks, headset_index(sinks)->0));
    }
    if sought(router, sinks) is Some {
        picks_only_eligible_outputs(sinks, sought(router, sinks)->0);
    }
    if fallback_index(sinks) is Some {
        assert(fallback_at(sinks, fallback_index(sinks)->0));
    }
    if speaker_override is Some && named_index(sinks, speaker_override->0) is Some {
        assert(named_at(sinks, speaker_override->0, named_index(sinks, speaker_override->0)->0));
    }
}

/// A saved choice is restored on a new connection: while the headset is off, the sound goes to the
/// remembered output if it is there, whatever the default is, and it stays remembered.
pub proof fn saved_choice_is_restored(
    router: RouterView,
    sinks: Seq<SinkView>,
    default_name: Option<Seq<char>>,
)
    requires
        router.established is None,
        is_recalled(router, sinks),
    ensures
        ({
            let (after, outcome) = routed(
                router,
                HeadsetState::Disconnected,
                sinks,
                default_name,
                None,
            );
            let target = sinks[recalled_index(sinks, router.remembered->0)->0];
            outcome == Ok::<SinkView, RouteErrorView>(target) && after.remembered == Some(
                memory_of(target),
            )
        }),
{
}

/// On a new connection the default is not taken for a choice of the user while the headset is on,
/// once something is remembered: what is remembered stays, or is renewed from the same output.
pub proof fn new_connection_keeps_the_saved_choice(
    router: RouterView,
    sinks: Seq<SinkView>,
    default_name: Option<Seq<char>>,
)
    requires
        router.established is None,
        router.remembered is Some,
    ensures
        ({
            let after = routed(router, HeadsetState::Connected, sinks, default_name, None).0;
            after.remembered == router.remembered || (default_of(
                sinks,
                default_name,
            ) matches Some(sink) && is_remembered(router, sinks, sink) && after.remembered == Some(
                memory_of(sink),
            ))
        }),
{
}

/// A missing output is kept in memory while another one stands in for it, in whatever state the
/// headset is, until the user selects an output. One that is there but may not be picked is kept
/// as well, or renewed under the same name.
pub proof fn missing_output_is_kept(
    router: RouterView,
    state: HeadsetState,
    sinks: Seq<SinkView>,
    default_name: Option<Seq<char>>,
)
    requires
        router.remembered is Some,
        !is_recalled(router, sinks),
        !is_user_choice(router, sinks, default_of(sinks, default_name)),
    ensures
        ({
            let after = routed(router, state, sinks, default_name, None).0;
            &&& after.remembered matches Some(memory) && memory.name == router.remembered->0.name
            &&& named_index(sinks, router.remembered->0.name) is None ==> after.remembered
                == router.remembered
        }),
{
    lemma_target_is_listed(router, state, sinks, default_name, None);
    if let Ok(target) = routed(router, state, sinks, default_name, None).1 {
        let i = choose|i: int| 0 <= i < sinks.len() && target == sinks[i];
        lemma_first_named(sinks, i);
    }
    if default_name is Some && named_index(sinks, default_name->0) is Some {
        assert(named_at(sinks, default_name->0, named_index(sinks, default_name->0)->0));
    }
}

/// An output that was missing is used again as soon as it is back, unless the user has selected
/// another one in the meantime.
pub proof fn missing_output_is_restored(
    router: RouterView,
    sinks_without: Seq<SinkView>,
    default_without: Option<Seq<char>>,
    sinks_with: Seq<SinkView>,
    default_with: Option<Seq<char>>,
    back: int,
)
    requires
        router.remembered is Some,
        !is_recalled(router, sinks_without),
        named_index(sinks_without, router.remembered->0.name) is None,
        !is_user_choice(router, sinks_without, default_of(sinks_without, default_without)),
        recalled_index(sinks_with, router.remembered->0) == Some(back),
        routed(
            router,
            HeadsetState::Disconnected,
            sinks_without,
            default_without,
            None,
        ).1 is Ok,
        !is_user_choice(
            RouterView {
                established: Some(
                    routed(
                        router,
                        HeadsetState::Disconnected,
                        sinks_without,
                        default_without,
                        None,
                    ).1->Ok_0.name,
                ),
                ..router
            },
            sinks_with,
            default_of(sinks_with, default_with),
        ),
    ensures
        ({
            let (kept, stand_in) = routed(
                router,
                HeadsetState::Disconnected,
                sinks_without,
                default_without,
                None,
            );
            let meanwhile = RouterView { established: Some(stand_in->Ok_0.name), ..kept };
            routed(meanwhile, HeadsetState::Disconnected, sinks_with, default_with, None).1 == Ok::<
                SinkView,
                RouteErrorView,
            >(sinks_with[back])
        }),
{
    lemma_target_is_listed(
        router,
        HeadsetState::Disconnected,
        sinks_without,
        default_without,
        None,
    );
    let stand_in = routed(
        router,
        HeadsetState::Disconnected,
        sinks_without,
        default_without,
        None,
    ).1->Ok_0;
    let i = choose|i: int| 0 <= i < sinks_without.len() && stand_in == sinks_without[i];
    lemma_first_named(sinks_without, i);
}

/// While the headset is off, an output that the user selects is respected and remembered.
pub proof fn selecting_an_output_changes_the_choice(
    router: RouterView,
    sinks: Seq<SinkView>,
    selected: int,
)
    requires
        names_differ(sinks),
        0 <= selected < sinks.len(),
        !is_headset(sinks[selected]),
        router.established matches Some(name) && name != sinks[selected].name && named_index(
            sinks,
            name,
        ) is Some,
    ensures
        ({
            let (after, outcome) = routed(
                router,
                HeadsetState::Disconnected,
                sinks,
                Some(sinks[selected].name),
                None,
            );
            outcome == Ok::<SinkView, RouteErrorView>(sinks[selected]) && after.remembered == Some(
                memory_of(sinks[selected]),
            )
        }),
{
    lemma_named(sinks, selected);
}

/// Routing settles: with the same outputs and the target as the default, the next pass has the
/// same target and remembers the same.
pub proof fn routing_settles(
    router: RouterView,
    state: HeadsetState,
    sinks: Seq<SinkView>,
    default_name: Option<Seq<char>>,
    speaker_override: Option<Seq<char>>,
)
    requires
        names_differ(sinks),
        routed(router, state, sinks, default_name, speaker_override).1 is Ok,
    ensures
        ({
            let (after, outcome) = routed(router, state, sinks, default_name, speaker_override);
            let settled = RouterView { established: Some(outcome->Ok_0.name), ..after };
            routed(settled, state, sinks, Some(outcome->Ok_0.name), speaker_override) == (
                settled,
                outcome,
            )
        }),
{
    let current = default_of(sinks, default_name);
    let (after, outcome) = routed(router, state, sinks, default_name, speaker_override);
    let target = outcome->Ok_0;
    lemma_target_is_listed(router, state, sinks, default_name, speaker_override);
    let i = choose|i: int| 0 <= i < sinks.len() && target == sinks[i];
    lemma_named(sinks, i);
    if is_eligible(target) {
        keeps_finding_an_output_by_name(sinks, i, memory_of(target));
    }
    if state is Disconnected && speaker_override is None {
        speakers_are_never_the_headset(
            sinks,
            respected_default(router, sinks, current),
            sought(router, sinks),
        );
        if sought(router, sinks) is Some {
            picks_only_eligible_outputs(sinks, sought(router, sinks)->0);
        }
    }
}

} // verus!
