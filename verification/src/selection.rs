//! Which output is the headset's, and which one the speakers are.
use vstd::prelude::*;

use crate::sink::{or_empty, score_of, sink_views, RememberedSink, RememberedView, Sink, SinkView};
use crate::text::{
    as_deref, contains, has_part, normalize_text, normalized, same_text, text_of, view_of,
};
use crate::usb_id::{denotes_id, id_value_matches, CLOUD_III_S_PRODUCT_IDS, HYPERX_VENDOR_ID};

verus! {

/// Two texts with a space in between.
pub open spec fn spaced(left: Seq<char>, right: Seq<char>) -> Seq<char> {
    left + seq![' '] + right
}

/// Whether names and descriptions speak of a wireless HyperX Cloud III S.
pub open spec fn names_headset(
    name: Seq<char>,
    description: Seq<char>,
    product_name: Option<Seq<char>>,
) -> bool {
    let text = normalized(spaced(spaced(name, description), or_empty(product_name)));
    has_part(text, "hyperx"@) && has_part(text, "cloud iii s"@) && has_part(text, "wireless"@)
}

/// Whether the device numbers are those of a Cloud III S.
pub open spec fn ids_headset(vendor_id: Option<Seq<char>>, product_id: Option<Seq<char>>) -> bool {
    &&& vendor_id matches Some(vendor) && denotes_id(vendor, HYPERX_VENDOR_ID)
    &&& product_id matches Some(product) && (denotes_id(product, CLOUD_III_S_PRODUCT_IDS@[0])
        || denotes_id(product, CLOUD_III_S_PRODUCT_IDS@[1]))
}

/// Whether an output is the headset's: by its device numbers, else by its name.
pub open spec fn is_headset(sink: SinkView) -> bool {
    ||| ids_headset(sink.vendor_id, sink.product_id)
    ||| names_headset(sink.name, sink.description, sink.product_name)
}

/// All that is known of an output, as normalised text.
pub open spec fn described(sink: SinkView) -> Seq<char> {
    normalized(
        spaced(
            spaced(
                spaced(spaced(sink.name, sink.description), sink.driver),
                or_empty(sink.product_name),
            ),
            or_empty(sink.bus),
        ),
    )
}

/// Whether a description is that of an output that is never picked by itself: virtual outputs,
/// monitors, Bluetooth and the network.
pub open spec fn is_ruled_out(text: Seq<char>) -> bool {
    ||| has_part(text, "null"@)
    ||| has_part(text, "dummy"@)
    ||| has_part(text, "hdmi"@)
    ||| has_part(text, "displayport"@)
    ||| has_part(text, "bluez"@)
    ||| has_part(text, "bluetooth"@)
    ||| has_part(text, "raop"@)
    ||| has_part(text, "network"@)
}

/// `points` if `text` has `part`.
pub open spec fn points_for(text: Seq<char>, part: Seq<char>, points: int) -> int {
    if has_part(text, part) {
        points
    } else {
        0
    }
}

/// How likely an output is the speakers; `None` for one that is never picked by itself.
pub open spec fn speaker_points(sink: SinkView) -> Option<int> {
    let text = described(sink);
    if is_ruled_out(text) {
        None
    } else {
        Some(
            points_for(text, "alsa output"@, 20) + points_for(text, "usb"@, 100) + points_for(
                text,
                "speaker"@,
                50,
            ) + points_for(text, "analog"@, 30) + points_for(text, "pro output"@, 20),
        )
    }
}

/// Whether the output plays through an analog connector with nothing plugged in.
pub open spec fn is_unplugged(sink: SinkView) -> bool {
    sink.port matches Some(port) && !port.available && has_part(
        normalized(
            spaced(
                spaced(spaced(sink.name, sink.description), or_empty(sink.profile)),
                port.name,
            ),
        ),
        "analog"@,
    )
}

/// Whether an output may be picked without the user naming it: it is not the headset's, and
/// something may be plugged in.
pub open spec fn is_eligible(sink: SinkView) -> bool {
    !is_headset(sink) && !is_unplugged(sink)
}

/// How well an output that may be picked fits what is remembered.
pub open spec fn recall_score(sink: SinkView, remembered: RememberedView) -> Option<u16> {
    if is_eligible(sink) {
        score_of(remembered, sink)
    } else {
        None
    }
}

/// How likely an output that may be picked is the speakers.
pub open spec fn fallback_score(sink: SinkView) -> Option<int> {
    if is_eligible(sink) {
        speaker_points(sink)
    } else {
        None
    }
}

/// The output at `i` is the first of the headset's.
pub open spec fn headset_at(sinks: Seq<SinkView>, i: int) -> bool {
    &&& 0 <= i < sinks.len()
    &&& is_headset(sinks[i])
    &&& forall|j: int| 0 <= j < i ==> !is_headset(#[trigger] sinks[j])
}

/// Where the headset's output stands.
pub open spec fn headset_index(sinks: Seq<SinkView>) -> Option<int> {
    if exists|i: int| headset_at(sinks, i) {
        Some(choose|i: int| headset_at(sinks, i))
    } else {
        None
    }
}

/// The output at `i` is the first of that name.
pub open spec fn named_at(sinks: Seq<SinkView>, name: Seq<char>, i: int) -> bool {
    &&& 0 <= i < sinks.len()
    &&& sinks[i].name == name
    &&& forall|j: int| 0 <= j < i ==> (#[trigger] sinks[j]).name != name
}

/// Where the output of that name stands.
pub open spec fn named_index(sinks: Seq<SinkView>, name: Seq<char>) -> Option<int> {
    if exists|i: int| named_at(sinks, name, i) {
        Some(choose|i: int| named_at(sinks, name, i))
    } else {
        None
    }
}

/// The output at `i` fits what is remembered better than every other one.
pub open spec fn recalled_at(sinks: Seq<SinkView>, remembered: RememberedView, i: int) -> bool {
    &&& 0 <= i < sinks.len()
    &&& recall_score(sinks[i], remembered) matches Some(best) && forall|j: int|
        0 <= j < sinks.len() && j != i ==> (recall_score(#[trigger] sinks[j], remembered) matches Some(
            other,
        ) ==> other < best)
}

/// Where the remembered output stands; nowhere if two fit equally well.
pub open spec fn recalled_index(sinks: Seq<SinkView>, remembered: RememberedView) -> Option<int> {
    if exists|i: int| recalled_at(sinks, remembered, i) {
        Some(choose|i: int| recalled_at(sinks, remembered, i))
    } else {
        None
    }
}

/// The output at `i` is the last of the most likely speakers.
pub open spec fn fallback_at(sinks: Seq<SinkView>, i: int) -> bool {
    &&& 0 <= i < sinks.len()
    &&& fallback_score(sinks[i]) matches Some(best) && forall|j: int|
        0 <= j < sinks.len() ==> (fallback_score(#[trigger] sinks[j]) matches Some(other) ==> other
            <= best && (j > i ==> other < best))
}

/// Where the most likely speakers stand.
pub open spec fn fallback_index(sinks: Seq<SinkView>) -> Option<int> {
    if exists|i: int| fallback_at(sinks, i) {
        Some(choose|i: int| fallback_at(sinks, i))
    } else {
        None
    }
}

/// `r` is the output at that place, and none where there is no place.
pub open spec fn is_at(r: Option<&Sink>, sinks: Seq<Sink>, place: Option<int>) -> bool {
    match place {
        Some(i) => 0 <= i < sinks.len() && r == Some(&sinks[i]),
        None => r is None,
    }
}

/// Why no output can stand for the speakers.
#[derive(Debug)]
pub enum SpeakerError {
    /// The output that was configured by name is not there.
    OverrideUnavailable(String),
    /// There is nothing to fall back to.
    NoneUsable,
}

/// Why no output can stand for the speakers, in the model.
pub enum SpeakerErrorView {
    OverrideUnavailable(Seq<char>),
    NoneUsable,
}

impl View for SpeakerError {
    type V = SpeakerErrorView;

    open spec fn view(&self) -> SpeakerErrorView {
        match self {
            SpeakerError::OverrideUnavailable(name) => SpeakerErrorView::OverrideUnavailable(name@),
            SpeakerError::NoneUsable => SpeakerErrorView::NoneUsable,
        }
    }
}

/// The message of an error.
pub open spec fn speaker_error_text(error: SpeakerErrorView) -> Seq<char> {
    match error {
        SpeakerErrorView::OverrideUnavailable(name) => "configured speaker sink is unavailable: "@
            + name,
        SpeakerErrorView::NoneUsable =>
            "no usable non-HyperX playback sink found; select the speakers once or pass --speaker-sink"@,
    }
}

impl SpeakerError {
    /// The message for the log.
    pub fn message(&self) -> (text: String)
        ensures
            text@ == speaker_error_text(self@),
    {
        match self {
            SpeakerError::OverrideUnavailable(name) => {
                "configured speaker sink is unavailable: ".to_owned().concat(name.as_str())
            },
            SpeakerError::NoneUsable => {
                "no usable non-HyperX playback sink found; select the speakers once or pass --speaker-sink".to_owned()
            },
        }
    }
}

/// The output that stands for the speakers: the configured one if there is one; else an output
/// other than the headset's that is the default already; else the remembered one; else the most
/// likely one.
pub open spec fn speaker_choice(
    sinks: Seq<SinkView>,
    current_default: Option<SinkView>,
    speaker_override: Option<Seq<char>>,
    remembered: Option<RememberedView>,
) -> Result<SinkView, SpeakerErrorView> {
    match speaker_override {
        Some(name) => match named_index(sinks, name) {
            Some(i) => Ok(sinks[i]),
            None => Err(SpeakerErrorView::OverrideUnavailable(name)),
        },
        None => if current_default matches Some(sink) && !is_headset(sink) {
            Ok(current_default->0)
        } else if remembered matches Some(memory) && recalled_index(sinks, memory) is Some {
            Ok(sinks[recalled_index(sinks, remembered->0)->0])
        } else {
            match fallback_index(sinks) {
                Some(i) => Ok(sinks[i]),
                None => Err(SpeakerErrorView::NoneUsable),
            }
        },
    }
}

/// `left`, a space and `right`.
fn join_spaced(left: String, right: &str) -> (r: String)
    ensures
        r@ == spaced(left@, right@),
{
    let mut r = left;
    r.push(' ');
    r.append(right);
    r
}

/// The text, or the empty one where there is none.
fn deref_or_empty(text: &Option<String>) -> (r: &str)
    ensures
        r@ == or_empty(text_of(*text)),
{
    match text {
        Some(text) => text.as_str(),
        None => {
            proof {
                reveal_strlit("");
                assert(""@ =~= Seq::<char>::empty());
            }
            ""
        },
    }
}

/// Whether names and descriptions speak of a wireless HyperX Cloud III S.
pub fn is_hyperx_name_fallback(name: &str, description: &str, product_name: Option<&str>) -> (r:
    bool)
    ensures
        r == names_headset(name@, description@, view_of(product_name)),
{
    let product_name: &str = match product_name {
        Some(product_name) => product_name,
        None => {
            proof {
                reveal_strlit("");
                assert(""@ =~= Seq::<char>::empty());
            }
            ""
        },
    };
    let text = join_spaced(join_spaced(name.to_owned(), description), product_name);
    let text = normalize_text(text.as_str());
    contains(text.as_str(), "hyperx") && contains(text.as_str(), "cloud iii s") && contains(
        text.as_str(),
        "wireless",
    )
}

/// Whether `sink` is the headset's: by its device numbers, else by its name.
pub fn is_hyperx_sink(sink: &Sink) -> (r: bool)
    ensures
        r == is_headset(sink@),
{
    let vendor_matches = match &sink.vendor_id {
        Some(value) => id_value_matches(value.as_str(), HYPERX_VENDOR_ID),
        None => false,
    };
    let product_matches = match &sink.product_id {
        Some(value) => id_value_matches(value.as_str(), CLOUD_III_S_PRODUCT_IDS[0])
            || id_value_matches(value.as_str(), CLOUD_III_S_PRODUCT_IDS[1]),
        None => false,
    };
    (vendor_matches && product_matches) || is_hyperx_name_fallback(
        sink.name.as_str(),
        sink.description.as_str(),
        as_deref(&sink.product_name),
    )
}

/// Whether `sink` plays through an analog connector with nothing plugged in.
pub fn is_unplugged_analog(sink: &Sink) -> (r: bool)
    ensures
        r == is_unplugged(sink@),
{
    match &sink.port {
        Some(port) => {
            let text = join_spaced(sink.name.clone(), sink.description.as_str());
            let text = join_spaced(text, deref_or_empty(&sink.profile));
            let text = join_spaced(text, port.name.as_str());
            !port.available && contains(normalize_text(text.as_str()).as_str(), "analog")
        },
        None => false,
    }
}

/// `points` if `text` has `part`.
fn score_part(text: &str, part: &str, points: i32) -> (r: i32)
    ensures
        r == points_for(text@, part@, points as int),
{
    if contains(text, part) {
        points
    } else {
        0
    }
}

/// How likely `sink` is the speakers; `None` for an output that is never picked by itself.
pub fn speaker_score(sink: &Sink) -> (r: Option<i32>)
    ensures
        match r {
            Some(score) => speaker_points(sink@) == Some(score as int),
            None => speaker_points(sink@) is None,
        },
{
    let text = join_spaced(sink.name.clone(), sink.description.as_str());
    let text = join_spaced(text, sink.driver.as_str());
    let text = join_spaced(text, deref_or_empty(&sink.product_name));
    let text = join_spaced(text, deref_or_empty(&sink.bus));
    let text = normalize_text(text.as_str());
    let text: &str = text.as_str();
    if contains(text, "null") || contains(text, "dummy") || contains(text, "hdmi") || contains(
        text,
        "displayport",
    ) || contains(text, "bluez") || contains(text, "bluetooth") || contains(text, "raop")
        || contains(text, "network") {
        return None;
    }
    let score: i32 = score_part(text, "alsa output", 20) + score_part(text, "usb", 100)
        + score_part(text, "speaker", 50) + score_part(text, "analog", 30) + score_part(
        text,
        "pro output",
        20,
    );
    Some(score)
}

/// The first output that is the headset's.
pub fn find_hyperx_sink<'a>(sinks: &'a [Sink]) -> (r: Option<&'a Sink>)
    ensures
        is_at(r, sinks@, headset_index(sink_views(sinks@))),
{
    let ghost views = sink_views(sinks@);
    for i in 0..sinks.len()
        invariant
            views == sink_views(sinks@),
            forall|j: int| 0 <= j < i ==> !is_headset(#[trigger] views[j]),
    {
        if is_hyperx_sink(&sinks[i]) {
            assert(headset_at(views, i as int));
            return Some(&sinks[i]);
        }
    }
    None
}

/// The first output of that name.
pub fn find_sink_by_name<'a>(sinks: &'a [Sink], name: &str) -> (r: Option<&'a Sink>)
    ensures
        is_at(r, sinks@, named_index(sink_views(sinks@), name@)),
{
    let ghost views = sink_views(sinks@);
    for i in 0..sinks.len()
        invariant
            views == sink_views(sinks@),
            forall|j: int| 0 <= j < i ==> (#[trigger] views[j]).name != name@,
    {
        if same_text(sinks[i].name.as_str(), name) {
            assert(named_at(views, name@, i as int));
            return Some(&sinks[i]);
        }
    }
    None
}

/// The output that fits what is remembered best; none if two fit equally well.
pub fn find_remembered_sink<'a>(sinks: &'a [Sink], remembered: &RememberedSink) -> (r: Option<
    &'a Sink,
>)
    ensures
        is_at(r, sinks@, recalled_index(sink_views(sinks@), remembered@)),
{
    let ghost views = sink_views(sinks@);
    let mut best: Option<(u16, usize)> = None;
    let mut best_is_ambiguous: bool = false;
    for i in 0..sinks.len()
        invariant
            views == sink_views(sinks@),
            match best {
                None => !best_is_ambiguous && forall|j: int|
                    0 <= j < i ==> recall_score(#[trigger] views[j], remembered@) is None,
                Some((score, k)) => {
                    &&& 0 <= k < i
                    &&& recall_score(views[k as int], remembered@) == Some(score)
                    &&& forall|j: int|
                        0 <= j < i ==> (recall_score(#[trigger] views[j], remembered@) matches Some(
                            other,
                        ) ==> other <= score)
                    &&& best_is_ambiguous == exists|j: int|
                        0 <= j < i && j != k && recall_score(#[trigger] views[j], remembered@)
                            == Some(score)
                },
            },
    {
        let sink: &Sink = &sinks[i];
        assert(views[i as int] == sink@);
        if !is_hyperx_sink(sink) && !is_unplugged_analog(sink) {
            if let Some(score) = remembered.match_score(sink) {
                match best {
                    None => {
                        best = Some((score, i));
                    },
                    Some((best_score, _)) => {
                        if score > best_score {
                            best = Some((score, i));
                            best_is_ambiguous = false;
                        } else if score == best_score {
                            best_is_ambiguous = true;
                        }
                    },
                }
            }
        }
    }
    match best {
        Some((_, k)) if !best_is_ambiguous => {
            assert(recalled_at(views, remembered@, k as int));
            Some(&sinks[k])
        },
        _ => {
            proof {
                if exists|i: int| recalled_at(views, remembered@, i) {
                    let i = choose|i: int| recalled_at(views, remembered@, i);
                    let (score, k) = best->0;
                    let j = choose|j: int|
                        0 <= j < views.len() && j != k && recall_score(
                            #[trigger] views[j],
                            remembered@,
                        ) == Some(score);
                    assert(views[k as int] == views[k as int]);
                }
            }
            None
        },
    }
}

/// The most likely speakers among the outputs; of equally likely ones the last.
pub fn find_best_fallback_sink<'a>(sinks: &'a [Sink]) -> (r: Option<&'a Sink>)
    ensures
        is_at(r, sinks@, fallback_index(sink_views(sinks@))),
{
    let ghost views = sink_views(sinks@);
    let mut best: Option<(i32, usize)> = None;
    for i in 0..sinks.len()
        invariant
            views == sink_views(sinks@),
            match best {
                None => forall|j: int|
                    0 <= j < i ==> fallback_score(#[trigger] views[j]) is None,
                Some((score, k)) => {
                    &&& 0 <= k < i
                    &&& fallback_score(views[k as int]) == Some(score as int)
                    &&& forall|j: int|
                        0 <= j < i ==> (fallback_score(#[trigger] views[j]) matches Some(other)
                            ==> other <= score && (j > k ==> other < score))
                },
            },
    {
        let sink: &Sink = &sinks[i];
        assert(views[i as int] == sink@);
        if !is_hyperx_sink(sink) && !is_unplugged_analog(sink) {
            if let Some(score) = speaker_score(sink) {
                let better = match best {
                    Some((best_score, _)) => score >= best_score,
                    None => true,
                };
                if better {
                    best = Some((score, i));
                }
            }
        }
    }
    match best {
        Some((_, k)) => {
            assert(fallback_at(views, k as int));
            proof {
                let i = choose|i: int| fallback_at(views, i);
                assert(views[i] == views[i] && views[k as int] == views[k as int]);
                assert(i == k);
            }
            Some(&sinks[k])
        },
        None => None,
    }
}

/// The output that stands for the speakers: the configured one if there is one; else an output
/// other than the headset's that is the default already; else the remembered one; else the most
/// likely one.
pub fn resolve_speaker_sink<'a>(
    sinks: &'a [Sink],
    current_default: Option<&'a Sink>,
    speaker_override: Option<&str>,
    remembered_speaker: Option<&RememberedSink>,
) -> (r: Result<&'a Sink, SpeakerError>)
    ensures
        choice_view(r) == speaker_choice(
            sink_views(sinks@),
            match current_default {
                Some(sink) => Some(sink@),
                None => None,
            },
            view_of(speaker_override),
            match remembered_speaker {
                Some(memory) => Some(memory@),
                None => None,
            },
        ),
{
    if let Some(name) = speaker_override {
        return match find_sink_by_name(sinks, name) {
            Some(sink) => Ok(sink),
            None => Err(SpeakerError::OverrideUnavailable(name.to_owned())),
        };
    }
    if let Some(sink) = current_default {
        if !is_hyperx_sink(sink) {
            return Ok(sink);
        }
    }
    if let Some(remembered) = remembered_speaker {
        if let Some(sink) = find_remembered_sink(sinks, remembered) {
            return Ok(sink);
        }
    }
    match find_best_fallback_sink(sinks) {
        Some(sink) => Ok(sink),
        None => Err(SpeakerError::NoneUsable),
    }
}

/// A choice in the model.
pub open spec fn choice_view(r: Result<&Sink, SpeakerError>) -> Result<SinkView, SpeakerErrorView> {
    match r {
        Ok(sink) => Ok(sink@),
        Err(error) => Err(error@),
    }
}

} // verus!
