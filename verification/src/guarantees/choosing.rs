//! What holds of the search for an output among all of them.
use vstd::prelude::*;

use crate::selection::{
    fallback_at, fallback_index, fallback_score, headset_at, headset_index, is_eligible,
    is_headset, is_unplugged, named_at, named_index, recall_score, recalled_at, recalled_index,
    speaker_choice, speaker_points, SpeakerErrorView,
};
use crate::sink::{score_of, RememberedView, SinkView};

verus! {

/// The headset's output that is found is the first of them, and one is found whenever there is
/// one.
pub proof fn first_headset_is_found(sinks: Seq<SinkView>)
    ensures
        match headset_index(sinks) {
            Some(i) => 0 <= i < sinks.len() && is_headset(sinks[i]) && forall|j: int|
                0 <= j < i ==> !is_headset(#[trigger] sinks[j]),
            None => forall|j: int| 0 <= j < sinks.len() ==> !is_headset(#[trigger] sinks[j]),
        },
{
    if exists|j: int| 0 <= j < sinks.len() && is_headset(#[trigger] sinks[j]) {
        let j = choose|j: int| 0 <= j < sinks.len() && is_headset(#[trigger] sinks[j]);
        lemma_first_headset(sinks, j);
    }
    if headset_index(sinks) is Some {
        assert(headset_at(sinks, headset_index(sinks)->0));
    }
}

/// Where there is an output of the headset, there is a first one.
pub(crate) proof fn lemma_first_headset(sinks: Seq<SinkView>, i: int)
    requires
        0 <= i < sinks.len(),
        is_headset(sinks[i]),
    ensures
        exists|k: int| headset_at(sinks, k),
    decreases i,
{
    if exists|j: int| 0 <= j < i && is_headset(#[trigger] sinks[j]) {
        let j = choose|j: int| 0 <= j < i && is_headset(#[trigger] sinks[j]);
        lemma_first_headset(sinks, j);
    } else {
        assert(headset_at(sinks, i));
    }
}

/// The output that is found by a name is the first that has it, and one is found whenever there is
/// one.
pub proof fn first_of_a_name_is_found(sinks: Seq<SinkView>, name: Seq<char>)
    ensures
        match named_index(sinks, name) {
            Some(i) => 0 <= i < sinks.len() && sinks[i].name == name && forall|j: int|
                0 <= j < i ==> (#[trigger] sinks[j]).name != name,
            None => forall|j: int| 0 <= j < sinks.len() ==> (#[trigger] sinks[j]).name != name,
        },
{
    if exists|j: int| 0 <= j < sinks.len() && (#[trigger] sinks[j]).name == name {
        let j = choose|j: int| 0 <= j < sinks.len() && (#[trigger] sinks[j]).name == name;
        lemma_first_of_a_name(sinks, name, j);
    }
    if named_index(sinks, name) is Some {
        assert(named_at(sinks, name, named_index(sinks, name)->0));
    }
}

/// Where there is an output of a name, there is a first one.
proof fn lemma_first_of_a_name(sinks: Seq<SinkView>, name: Seq<char>, i: int)
    requires
        0 <= i < sinks.len(),
        sinks[i].name == name,
    ensures
        exists|k: int| named_at(sinks, name, k),
    decreases i,
{
    if exists|j: int| 0 <= j < i && (#[trigger] sinks[j]).name == name {
        let j = choose|j: int| 0 <= j < i && (#[trigger] sinks[j]).name == name;
        lemma_first_of_a_name(sinks, name, j);
    } else {
        assert(named_at(sinks, name, i));
    }
}

/// Whether an output may be picked and fits the memory.
pub open spec fn fits(memory: RememberedView, sink: SinkView) -> bool {
    !is_headset(sink) && !is_unplugged(sink) && score_of(memory, sink) is Some
}

/// The output that is found for a memory may be picked, fits it, and fits it better than every
/// other one that may be picked. Where none is found, none fits, or for each that fits there is
/// another that fits at least as well.
pub proof fn best_fit_is_found_if_it_is_the_only_one(sinks: Seq<SinkView>, memory: RememberedView)
    ensures
        match recalled_index(sinks, memory) {
            Some(i) => {
                &&& 0 <= i < sinks.len()
                &&& fits(memory, sinks[i])
                &&& forall|j: int|
                    0 <= j < sinks.len() && j != i && fits(memory, #[trigger] sinks[j])
                        ==> score_of(memory, sinks[j])->0 < score_of(memory, sinks[i])->0
            },
            None => forall|i: int|
                0 <= i < sinks.len() && fits(memory, #[trigger] sinks[i]) ==> exists|j: int|
                    0 <= j < sinks.len() && j != i && fits(memory, #[trigger] sinks[j])
                        && score_of(memory, sinks[j])->0 >= score_of(memory, sinks[i])->0,
        },
{
    assert forall|i: int| 0 <= i < sinks.len() implies (recall_score(#[trigger] sinks[i], memory)
        == if fits(memory, sinks[i]) {
        score_of(memory, sinks[i])
    } else {
        None
    }) by {}
    if recalled_index(sinks, memory) is Some {
        let i = recalled_index(sinks, memory)->0;
        assert(recalled_at(sinks, memory, i));
        assert(sinks[i] == sinks[i]);
    } else {
        assert forall|i: int|
            0 <= i < sinks.len() && fits(memory, #[trigger] sinks[i]) implies exists|j: int|
            0 <= j < sinks.len() && j != i && fits(memory, #[trigger] sinks[j]) && score_of(
                memory,
                sinks[j],
            )->0 >= score_of(memory, sinks[i])->0 by {
            assert(!recalled_at(sinks, memory, i));
        }
    }
}

/// Whether an output may be picked as the speakers without being known.
pub open spec fn is_likely(sink: SinkView) -> bool {
    !is_headset(sink) && !is_unplugged(sink) && speaker_points(sink) is Some
}

/// The output that is fallen back to may be picked, is the likeliest of those that may, and the
/// last of equally likely ones. One is found whenever there is one that may be picked.
pub proof fn likeliest_output_is_fallen_back_to(sinks: Seq<SinkView>)
    ensures
        match fallback_index(sinks) {
            Some(i) => {
                &&& 0 <= i < sinks.len()
                &&& is_likely(sinks[i])
                &&& forall|j: int|
                    0 <= j < sinks.len() && is_likely(#[trigger] sinks[j]) ==> speaker_points(
                        sinks[j],
                    )->0 <= speaker_points(sinks[i])->0
                &&& forall|j: int|
                    i < j < sinks.len() && is_likely(#[trigger] sinks[j]) ==> speaker_points(
                        sinks[j],
                    )->0 < speaker_points(sinks[i])->0
            },
            None => forall|j: int| 0 <= j < sinks.len() ==> !is_likely(#[trigger] sinks[j]),
        },
{
    assert forall|i: int| 0 <= i < sinks.len() implies (fallback_score(#[trigger] sinks[i])
        == if is_likely(sinks[i]) {
        speaker_points(sinks[i])
    } else {
        None
    }) by {}
    if exists|j: int| 0 <= j < sinks.len() && is_likely(#[trigger] sinks[j]) {
        lemma_likeliest(sinks, sinks.len() as int);
        assert(sinks.take(sinks.len() as int) =~= sinks);
        let k = choose|k: int| fallback_at(sinks.take(sinks.len() as int), k);
        assert(fallback_at(sinks, k));
    }
    if fallback_index(sinks) is Some {
        let i = fallback_index(sinks)->0;
        assert(fallback_at(sinks, i));
        assert(sinks[i] == sinks[i]);
    }
}

/// Among the first `n` outputs there is a likeliest one, if any may be picked.
proof fn lemma_likeliest(sinks: Seq<SinkView>, n: int)
    requires
        0 <= n <= sinks.len(),
        exists|j: int| 0 <= j < n && is_likely(#[trigger] sinks[j]),
    ensures
        exists|k: int| fallback_at(sinks.take(n), k),
    decreases n,
{
    let all = sinks.take(n);
    let before = sinks.take(n - 1);
    assert(all[n - 1] == sinks[n - 1]);
    if exists|j: int| 0 <= j < n - 1 && is_likely(#[trigger] sinks[j]) {
        lemma_likeliest(sinks, n - 1);
        let k = choose|k: int| fallback_at(before, k);
        assert(all[k] == before[k]);
        if is_likely(sinks[n - 1]) && speaker_points(sinks[n - 1])->0 >= speaker_points(
            sinks[k],
        )->0 {
            assert forall|j: int| 0 <= j < all.len() implies (fallback_score(
                #[trigger] all[j],
            ) matches Some(other) ==> other <= speaker_points(sinks[n - 1])->0 && (j > n - 1
                ==> other < speaker_points(sinks[n - 1])->0)) by {
                if j < n - 1 {
                    assert(all[j] == before[j]);
                }
            }
            assert(fallback_at(all, n - 1));
        } else {
            assert forall|j: int| 0 <= j < all.len() implies (fallback_score(
                #[trigger] all[j],
            ) matches Some(other) ==> other <= fallback_score(all[k])->0 && (j > k ==> other
                < fallback_score(all[k])->0)) by {
                if j < n - 1 {
                    assert(all[j] == before[j]);
                }
            }
            assert(fallback_at(all, k));
        }
    } else {
        assert(is_likely(sinks[n - 1]));
        assert forall|j: int| 0 <= j < all.len() implies (fallback_score(
            #[trigger] all[j],
        ) matches Some(other) ==> other <= speaker_points(sinks[n - 1])->0 && (j > n - 1 ==> other
            < speaker_points(sinks[n - 1])->0)) by {
            assert(all[j] == sinks[j]);
        }
        assert(fallback_at(all, n - 1));
    }
}

/// A configured output is the speakers wherever it is listed, whatever else is known; where it is
/// not, that is what is wrong, whatever else could be picked.
pub proof fn configured_output_counts_alone(
    sinks: Seq<SinkView>,
    current_default: Option<SinkView>,
    name: Seq<char>,
    remembered: Option<RememberedView>,
)
    ensures
        match speaker_choice(sinks, current_default, Some(name), remembered) {
            Ok(target) => exists|i: int|
                0 <= i < sinks.len() && #[trigger] sinks[i] == target && target.name == name
                    && forall|j: int| 0 <= j < i ==> (#[trigger] sinks[j]).name != name,
            Err(error) => error == SpeakerErrorView::OverrideUnavailable(name) && forall|j: int|
                0 <= j < sinks.len() ==> (#[trigger] sinks[j]).name != name,
        },
{
    first_of_a_name_is_found(sinks, name);
    if named_index(sinks, name) is Some {
        let i = named_index(sinks, name)->0;
        assert(sinks[i] == sinks[i]);
    }
}

/// Without a configured output, a default that is not the headset's is the speakers, whatever is
/// remembered and whatever else is listed.
pub proof fn default_of_the_speakers_stays(
    sinks: Seq<SinkView>,
    sink: SinkView,
    remembered: Option<RememberedView>,
)
    requires
        !is_headset(sink),
    ensures
        speaker_choice(sinks, Some(sink), None, remembered) == Ok::<SinkView, SpeakerErrorView>(
            sink,
        ),
{
}

/// Without a configured output, and with a default that is the headset's or none, the remembered
/// output is the speakers if it is found; else the likeliest output is, whatever is remembered;
/// and only where nothing at all can be picked is there none.
pub proof fn something_is_chosen_wherever_there_is_something(
    sinks: Seq<SinkView>,
    current_default: Option<SinkView>,
    remembered: Option<RememberedView>,
)
    requires
        current_default matches Some(sink) ==> is_headset(sink),
    ensures
        ({
            let choice = speaker_choice(sinks, current_default, None, remembered);
            let recalled = match remembered {
                Some(memory) => recalled_index(sinks, memory),
                None => None,
            };
            &&& recalled matches Some(i) ==> choice == Ok::<SinkView, SpeakerErrorView>(sinks[i])
            &&& recalled is None ==> match fallback_index(sinks) {
                Some(i) => choice == Ok::<SinkView, SpeakerErrorView>(sinks[i]),
                None => choice == Err::<SinkView, SpeakerErrorView>(SpeakerErrorView::NoneUsable),
            }
            &&& choice is Err ==> forall|j: int|
                0 <= j < sinks.len() ==> !is_likely(#[trigger] sinks[j])
            &&& choice matches Ok(target) ==> exists|i: int|
                0 <= i < sinks.len() && #[trigger] sinks[i] == target && !is_headset(target)
                    && !is_unplugged(target)
        }),
{
    likeliest_output_is_fallen_back_to(sinks);
    if fallback_index(sinks) is Some {
        assert(sinks[fallback_index(sinks)->0] == sinks[fallback_index(sinks)->0]);
    }
    if remembered is Some {
        best_fit_is_found_if_it_is_the_only_one(sinks, remembered->0);
        if recalled_index(sinks, remembered->0) is Some {
            let i = recalled_index(sinks, remembered->0)->0;
            assert(sinks[i] == sinks[i]);
        }
    }
}

/// Without a configured output there are no speakers only where there is nothing to choose: an
/// output that may be picked is enough, whatever the default is and whatever is remembered.
pub proof fn one_likely_output_is_enough(
    sinks: Seq<SinkView>,
    i: int,
    current_default: Option<SinkView>,
    remembered: Option<RememberedView>,
)
    requires
        0 <= i < sinks.len(),
        is_likely(sinks[i]),
    ensures
        fallback_index(sinks) is Some,
        speaker_choice(sinks, current_default, None, remembered) is Ok,
{
    likeliest_output_is_fallen_back_to(sinks);
}

/// Picking without being told is for outputs that are neither the headset's nor unplugged.
pub proof fn eligible_is_neither_headset_nor_unplugged(sink: SinkView)
    ensures
        is_eligible(sink) <==> !is_headset(sink) && !is_unplugged(sink),
{
}

} // verus!
