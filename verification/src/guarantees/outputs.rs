//! What holds of one output: what is read of it, what is remembered, and how it is judged.
use vstd::prelude::*;

use crate::selection::{described, is_headset, is_unplugged, speaker_points};
use crate::sink::{
    first_property_of, memory_of, property, reported_sink, score_of, PortView, RememberedView,
    SinkReport, SinkView, CARD_KEYS, PRODUCT_ID_KEYS, PRODUCT_NAME_KEYS, PROFILE_KEYS, SERIAL_KEYS,
    VENDOR_ID_KEYS,
};
use crate::text::{has_part, normalized, text_of};
use crate::usb_id::denotes_id;

verus! {

/// Whether the property at `i` is the first of that name.
pub open spec fn is_first_of_its_name(
    properties: Seq<(String, String)>,
    key: Seq<char>,
    i: int,
) -> bool {
    &&& 0 <= i < properties.len()
    &&& properties[i].0@ == key
    &&& forall|j: int| 0 <= j < i ==> (#[trigger] properties[j]).0@ != key
}

/// A property has the value that stands first beside its name, and none where its name does not
/// stand at all.
pub proof fn first_property_of_a_name_counts(properties: Seq<(String, String)>, key: Seq<char>)
    ensures
        match property(properties, key) {
            Some(value) => exists|i: int|
                #[trigger] is_first_of_its_name(properties, key, i) && properties[i].1@ == value,
            None => forall|i: int|
                0 <= i < properties.len() ==> (#[trigger] properties[i]).0@ != key,
        },
    decreases properties.len(),
{
    if properties.len() > 0 {
        let rest = properties.drop_first();
        first_property_of_a_name_counts(rest, key);
        if properties[0].0@ == key {
            assert(is_first_of_its_name(properties, key, 0));
        } else if property(rest, key) is Some {
            let i = choose|i: int|
                #[trigger] is_first_of_its_name(rest, key, i) && rest[i].1@ == property(
                    rest,
                    key,
                )->0;
            assert forall|j: int| 0 <= j < i + 1 implies (#[trigger] properties[j]).0@ != key by {
                if j > 0 {
                    assert(rest[j - 1] == properties[j]);
                }
            }
            assert(rest[i] == properties[i + 1]);
            assert(is_first_of_its_name(properties, key, i + 1));
        } else {
            assert forall|i: int| 0 <= i < properties.len() implies (#[trigger] properties[i]).0@
                != key by {
                if i > 0 {
                    assert(rest[i - 1] == properties[i]);
                }
            }
        }
    }
}

/// The first of two values that is there.
pub open spec fn either(a: Option<Seq<char>>, b: Option<Seq<char>>) -> Option<Seq<char>> {
    if a is Some {
        a
    } else {
        b
    }
}

/// Where several properties may tell a thing, the first of them that is there does; where none of
/// them is there, nothing tells it.
pub proof fn first_key_that_is_there_counts(
    properties: Seq<(String, String)>,
    keys: Seq<&str>,
    k: int,
)
    requires
        0 <= k <= keys.len(),
        forall|j: int| 0 <= j < k ==> property(properties, (#[trigger] keys[j])@) is None,
    ensures
        k == keys.len() ==> first_property_of(properties, keys) is None,
        k < keys.len() && property(properties, keys[k]@) is Some ==> first_property_of(
            properties,
            keys,
        ) == property(properties, keys[k]@),
    decreases keys.len(),
{
    if keys.len() > 0 && k > 0 {
        let rest = keys.drop_first();
        assert(keys[0] == keys[0]);
        assert forall|j: int| 0 <= j < k - 1 implies property(
            properties,
            (#[trigger] rest[j])@,
        ) is None by {
            assert(rest[j] == keys[j + 1]);
        }
        first_key_that_is_there_counts(properties, rest, k - 1);
        if k < keys.len() {
            assert(rest[k - 1] == keys[k]);
        }
    }
}

/// The same for two and for three properties.
proof fn lemma_first_of(properties: Seq<(String, String)>, keys: Seq<&str>)
    ensures
        keys.len() == 2 ==> first_property_of(properties, keys) == either(
            property(properties, keys[0]@),
            property(properties, keys[1]@),
        ),
        keys.len() == 3 ==> first_property_of(properties, keys) == either(
            property(properties, keys[0]@),
            either(property(properties, keys[1]@), property(properties, keys[2]@)),
        ),
{
    reveal_with_fuel(first_property_of, 4);
    if keys.len() >= 2 {
        let rest = keys.drop_first();
        assert(rest[0] == keys[1]);
        if keys.len() == 3 {
            assert(rest.drop_first()[0] == keys[2]);
        }
    }
}

/// A report without a name describes no output. Any other one describes an output with that name
/// and index, with its description and driver as far as they are there, with its port, and with
/// what its properties tell.
pub proof fn report_is_read_whole(report: SinkReport)
    ensures
        reported_sink(report) is None <==> report.name is None,
        reported_sink(report) matches Some(sink) ==> {
            let told = |key: Seq<char>| property(report.properties@, key);
            &&& Some(sink.name) == text_of(report.name)
            &&& sink.index == report.index
            &&& match report.description {
                Some(text) => sink.description == text@,
                None => sink.description.len() == 0,
            }
            &&& match report.driver {
                Some(text) => sink.driver == text@,
                None => sink.driver.len() == 0,
            }
            &&& sink.vendor_id == either(told("device.vendor.id"@), told("alsa.vendor_id"@))
            &&& sink.product_id == either(told("device.product.id"@), told("alsa.product_id"@))
            &&& sink.serial == either(
                told("device.serial"@),
                either(told("device.string"@), told("alsa.long_card_name"@)),
            )
            &&& sink.product_name == either(
                told("device.product.name"@),
                either(told("device.description"@), told("alsa.card_name"@)),
            )
            &&& sink.bus == told("device.bus"@)
            &&& sink.card == either(told("device.bus_path"@), told("alsa.card_name"@))
            &&& sink.profile == either(
                told("device.profile.name"@),
                told("device.profile.description"@),
            )
            &&& match report.port {
                Some(port) => sink.port == Some(
                    PortView { name: port.name@, available: port.available },
                ),
                None => sink.port is None,
            }
        },
{
    let p = report.properties@;
    lemma_first_of(p, VENDOR_ID_KEYS@);
    lemma_first_of(p, PRODUCT_ID_KEYS@);
    lemma_first_of(p, SERIAL_KEYS@);
    lemma_first_of(p, PRODUCT_NAME_KEYS@);
    lemma_first_of(p, CARD_KEYS@);
    lemma_first_of(p, PROFILE_KEYS@);
}

/// What is remembered of an output is its name, its numbers, its product, its description, its
/// card and its profile; two outputs that agree in these are remembered alike.
pub proof fn memory_keeps_what_tells_an_output(sink: SinkView, other: SinkView)
    ensures
        memory_of(sink).name == sink.name,
        memory_of(sink).serial == sink.serial,
        memory_of(sink).vendor_id == sink.vendor_id,
        memory_of(sink).product_id == sink.product_id,
        memory_of(sink).product_name == sink.product_name,
        memory_of(sink).description == sink.description,
        memory_of(sink).card == sink.card,
        memory_of(sink).profile == sink.profile,
        memory_of(sink) == memory_of(other) ==> sink.name == other.name && sink.description
            == other.description,
{
}

/// Whether two values are there, not empty, and the same.
pub open spec fn agree(a: Option<Seq<char>>, b: Option<Seq<char>>) -> bool {
    a is Some && b is Some && a->0 == b->0 && a->0.len() > 0
}

/// Whether two texts have the same words, at least one.
pub open spec fn read_alike(a: Seq<char>, b: Seq<char>) -> bool {
    normalized(a) == normalized(b) && normalized(a).len() > 0
}

/// An output of the remembered name fits best of all, whatever else is known of it, and always
/// equally well.
pub proof fn the_same_name_fits_best(
    memory: RememberedView,
    sink: SinkView,
    other_memory: RememberedView,
    other: SinkView,
)
    ensures
        memory.name == sink.name ==> score_of(memory, sink) is Some && (other_memory.name
            == other.name ==> score_of(memory, sink) == score_of(other_memory, other)),
        memory.name == sink.name && other_memory.name != other.name && score_of(
            other_memory,
            other,
        ) is Some ==> score_of(memory, sink)->0 > score_of(other_memory, other)->0,
        score_of(memory, sink) == Some(1000u16) <==> memory.name == sink.name,
{
}

/// An output of another name fits only if its profile or its description agrees, and no profile
/// is known to differ. Then the serial number counts most, then the card together with the
/// profile, then the hardware together with the product or the description, then the product, then
/// the description. What counts less does not matter where something that counts more agrees.
pub proof fn other_names_fit_by_what_agrees(memory: RememberedView, sink: SinkView)
    requires
        memory.name != sink.name,
    ensures
        ({
            let same_profile = agree(memory.profile, sink.profile);
            let other_profile = memory.profile is Some && sink.profile is Some
                && memory.profile->0.len() > 0 && sink.profile->0.len() > 0 && memory.profile
                != sink.profile;
            let same_description = read_alike(memory.description, sink.description);
            let same_product = memory.product_name is Some && sink.product_name is Some
                && read_alike(memory.product_name->0, sink.product_name->0);
            let same_hardware = agree(memory.vendor_id, sink.vendor_id) && agree(
                memory.product_id,
                sink.product_id,
            );
            let score = score_of(memory, sink);
            &&& other_profile ==> score is None
            &&& !same_profile && !same_description ==> score is None
            &&& !other_profile && (same_profile || same_description) ==> {
                &&& agree(memory.serial, sink.serial) ==> score == Some(900u16)
                &&& !agree(memory.serial, sink.serial) ==> {
                    &&& agree(memory.card, sink.card) && same_profile ==> score == Some(850u16)
                    &&& !(agree(memory.card, sink.card) && same_profile) ==> {
                        &&& same_hardware && (same_product || same_description) ==> score == Some(
                            800u16,
                        )
                        &&& !same_hardware && same_product ==> score == Some(500u16)
                        &&& !same_hardware && !same_product && same_description ==> score == Some(
                            300u16,
                        )
                        &&& !same_product && !same_description ==> score is None
                    }
                }
            }
        }),
{
}

/// An output is the headset's if its vendor number is that of HyperX and its product number one of
/// the two of the Cloud III S, or if its name, its description and its product name together have
/// all of the words for it. Nothing else makes it so.
pub proof fn headset_is_told_by_numbers_or_words(sink: SinkView)
    ensures
        ({
            let text = normalized(
                sink.name + seq![' '] + sink.description + seq![' '] + match sink.product_name {
                    Some(text) => text,
                    None => seq![],
                },
            );
            let numbers = sink.vendor_id is Some && denotes_id(sink.vendor_id->0, 0x03f0)
                && sink.product_id is Some && (denotes_id(sink.product_id->0, 0x06be)
                || denotes_id(sink.product_id->0, 0x02cc));
            let words = has_part(text, "hyperx"@) && has_part(text, "cloud iii s"@) && has_part(
                text,
                "wireless"@,
            );
            is_headset(sink) <==> numbers || words
        }),
{
}

/// An output is unplugged if it plays through a port that is not available and speaks of analog
/// sound anywhere in its name, description, profile or port. One without a port, or with an
/// available one, never is.
pub proof fn unplugged_is_an_unavailable_analog_port(sink: SinkView)
    ensures
        sink.port is None ==> !is_unplugged(sink),
        sink.port matches Some(port) ==> {
            let profile = match sink.profile {
                Some(text) => text,
                None => seq![],
            };
            let text = normalized(
                sink.name + seq![' '] + sink.description + seq![' '] + profile + seq![' ']
                    + port.name,
            );
            is_unplugged(sink) <==> !port.available && has_part(text, "analog"@)
        },
{
}

/// All that is known of an output, as one normalised text.
pub open spec fn all_words(sink: SinkView) -> Seq<char> {
    let product = match sink.product_name {
        Some(text) => text,
        None => seq![],
    };
    let bus = match sink.bus {
        Some(text) => text,
        None => seq![],
    };
    normalized(
        sink.name + seq![' '] + sink.description + seq![' '] + sink.driver + seq![' '] + product
            + seq![' '] + bus,
    )
}

/// Virtual outputs, monitors, Bluetooth and the network are never the speakers, whatever else is
/// known of them: any one of the words for them is enough. Every other output may be.
pub proof fn unsuitable_outputs_are_never_the_speakers(sink: SinkView)
    ensures
        ({
            let text = all_words(sink);
            speaker_points(sink) is None <==> has_part(text, "null"@) || has_part(text, "dummy"@)
                || has_part(text, "hdmi"@) || has_part(text, "displayport"@) || has_part(
                text,
                "bluez"@,
            ) || has_part(text, "bluetooth"@) || has_part(text, "raop"@) || has_part(
                text,
                "network"@,
            )
        }),
{
    assert(described(sink) == all_words(sink));
}

/// What a word is worth to an output that has it.
pub open spec fn worth(text: Seq<char>, part: Seq<char>, points: int) -> int {
    if has_part(text, part) {
        points
    } else {
        0
    }
}

/// Each of the words for speakers counts by itself, whatever the others are: a USB device most,
/// then speakers, then analog sound, then an ALSA output and a professional output.
pub proof fn words_for_speakers_count_each_by_itself(sink: SinkView)
    ensures
        speaker_points(sink) matches Some(points) ==> points == worth(
            all_words(sink),
            "usb"@,
            100,
        ) + worth(all_words(sink), "speaker"@, 50) + worth(all_words(sink), "analog"@, 30) + worth(
            all_words(sink),
            "alsa output"@,
            20,
        ) + worth(all_words(sink), "pro output"@, 20),
{
    assert(described(sink) == all_words(sink));
}

} // verus!
