//! Playback outputs of the sound server, and what is remembered of one.
use vstd::prelude::*;

use crate::text::{
    as_deref, clone_text, is_nonempty_equal, is_normalized_equal, is_optional_normalized_equal,
    nonempty_equal, normalized_equal, optional_normalized_equal, same_text, text_of,
};

verus! {

/// The properties that hold the vendor number of an output, most telling first.
pub const VENDOR_ID_KEYS: [&'static str; 2] = ["device.vendor.id", "alsa.vendor_id"];

/// The properties that hold the product number of an output, most telling first.
pub const PRODUCT_ID_KEYS: [&'static str; 2] = ["device.product.id", "alsa.product_id"];

/// The properties that tell one piece of hardware from another of its kind, most telling first.
pub const SERIAL_KEYS: [&'static str; 3] = [
    "device.serial",
    "device.string",
    "alsa.long_card_name",
];

/// The properties that hold a product name for people to read, most telling first.
pub const PRODUCT_NAME_KEYS: [&'static str; 3] = [
    "device.product.name",
    "device.description",
    "alsa.card_name",
];

/// The properties that tell which card an output belongs to, most telling first.
pub const CARD_KEYS: [&'static str; 2] = ["device.bus_path", "alsa.card_name"];

/// The properties that tell which output of its card an output is, most telling first.
pub const PROFILE_KEYS: [&'static str; 2] = [
    "device.profile.name",
    "device.profile.description",
];

/// The property that holds the bus an output is attached to.
pub const BUS_KEY: &'static str = "device.bus";

/// The connector that an output plays through.
#[derive(Debug)]
pub struct SinkPort {
    pub name: String,
    /// Whether something may be plugged in; a port of unknown state counts as available.
    pub available: bool,
}

/// A port in the model.
pub struct PortView {
    pub name: Seq<char>,
    pub available: bool,
}

impl View for SinkPort {
    type V = PortView;

    open spec fn view(&self) -> PortView {
        PortView { name: self.name@, available: self.available }
    }
}

/// The port in the model, where there is one.
pub open spec fn port_of(port: Option<SinkPort>) -> Option<PortView> {
    match port {
        Some(port) => Some(port@),
        None => None,
    }
}

/// An output as the sound server describes it.
#[derive(Debug)]
pub struct SinkReport {
    pub name: Option<String>,
    pub index: u32,
    pub description: Option<String>,
    pub driver: Option<String>,
    /// Property names and their values.
    pub properties: Vec<(String, String)>,
    pub port: Option<SinkPort>,
}

/// A playback output.
#[derive(Debug)]
pub struct Sink {
    pub name: String,
    pub index: u32,
    pub description: String,
    pub driver: String,
    pub vendor_id: Option<String>,
    pub product_id: Option<String>,
    pub serial: Option<String>,
    pub product_name: Option<String>,
    pub bus: Option<String>,
    pub card: Option<String>,
    pub profile: Option<String>,
    pub port: Option<SinkPort>,
}

/// A playback output in the model.
pub struct SinkView {
    pub name: Seq<char>,
    pub index: u32,
    pub description: Seq<char>,
    pub driver: Seq<char>,
    pub vendor_id: Option<Seq<char>>,
    pub product_id: Option<Seq<char>>,
    pub serial: Option<Seq<char>>,
    pub product_name: Option<Seq<char>>,
    pub bus: Option<Seq<char>>,
    pub card: Option<Seq<char>>,
    pub profile: Option<Seq<char>>,
    pub port: Option<PortView>,
}

impl View for Sink {
    type V = SinkView;

    open spec fn view(&self) -> SinkView {
        SinkView {
            name: self.name@,
            index: self.index,
            description: self.description@,
            driver: self.driver@,
            vendor_id: text_of(self.vendor_id),
            product_id: text_of(self.product_id),
            serial: text_of(self.serial),
            product_name: text_of(self.product_name),
            bus: text_of(self.bus),
            card: text_of(self.card),
            profile: text_of(self.profile),
            port: port_of(self.port),
        }
    }
}

/// The outputs of a list in the model.
pub open spec fn sink_views(sinks: Seq<Sink>) -> Seq<SinkView> {
    Seq::new(sinks.len(), |i: int| sinks[i]@)
}

/// A playing stream and the output it plays on.
#[derive(Debug, Clone, Copy)]
pub struct SinkInput {
    pub index: u32,
    pub sink_index: u32,
}

/// What is remembered of an output, so that it is found again under another generated name.
#[derive(Debug)]
pub struct RememberedSink {
    pub name: String,
    pub serial: Option<String>,
    pub vendor_id: Option<String>,
    pub product_id: Option<String>,
    pub product_name: Option<String>,
    pub description: String,
    pub card: Option<String>,
    pub profile: Option<String>,
}

/// What is remembered of an output, in the model.
pub struct RememberedView {
    pub name: Seq<char>,
    pub serial: Option<Seq<char>>,
    pub vendor_id: Option<Seq<char>>,
    pub product_id: Option<Seq<char>>,
    pub product_name: Option<Seq<char>>,
    pub description: Seq<char>,
    pub card: Option<Seq<char>>,
    pub profile: Option<Seq<char>>,
}

impl View for RememberedSink {
    type V = RememberedView;

    open spec fn view(&self) -> RememberedView {
        RememberedView {
            name: self.name@,
            serial: text_of(self.serial),
            vendor_id: text_of(self.vendor_id),
            product_id: text_of(self.product_id),
            product_name: text_of(self.product_name),
            description: self.description@,
            card: text_of(self.card),
            profile: text_of(self.profile),
        }
    }
}

/// What is remembered, in the model, where there is something.
pub open spec fn remembered_of(remembered: Option<RememberedSink>) -> Option<RememberedView> {
    match remembered {
        Some(remembered) => Some(remembered@),
        None => None,
    }
}

/// What is to be remembered of an output.
pub open spec fn memory_of(sink: SinkView) -> RememberedView {
    RememberedView {
        name: sink.name,
        serial: sink.serial,
        vendor_id: sink.vendor_id,
        product_id: sink.product_id,
        product_name: sink.product_name,
        description: sink.description,
        card: sink.card,
        profile: sink.profile,
    }
}

/// The value of the first property of that name.
pub open spec fn property(properties: Seq<(String, String)>, key: Seq<char>) -> Option<Seq<char>>
    decreases properties.len(),
{
    if properties.len() == 0 {
        None
    } else if properties[0].0@ == key {
        Some(properties[0].1@)
    } else {
        property(properties.drop_first(), key)
    }
}

/// The value of the first of the properties that is there.
pub open spec fn first_property_of(
    properties: Seq<(String, String)>,
    keys: Seq<&str>,
) -> Option<Seq<char>>
    decreases keys.len(),
{
    if keys.len() == 0 {
        None
    } else {
        match property(properties, keys[0]@) {
            Some(value) => Some(value),
            None => first_property_of(properties, keys.drop_first()),
        }
    }
}

/// A text, or the empty one where there is none.
pub open spec fn or_empty(text: Option<Seq<char>>) -> Seq<char> {
    match text {
        Some(text) => text,
        None => seq![],
    }
}

/// The output that a report describes; a report without a name describes none.
pub open spec fn reported_sink(report: SinkReport) -> Option<SinkView> {
    match report.name {
        Some(name) => Some(
            SinkView {
                name: name@,
                index: report.index,
                description: or_empty(text_of(report.description)),
                driver: or_empty(text_of(report.driver)),
                vendor_id: first_property_of(report.properties@, VENDOR_ID_KEYS@),
                product_id: first_property_of(report.properties@, PRODUCT_ID_KEYS@),
                serial: first_property_of(report.properties@, SERIAL_KEYS@),
                product_name: first_property_of(report.properties@, PRODUCT_NAME_KEYS@),
                bus: property(report.properties@, BUS_KEY@),
                card: first_property_of(report.properties@, CARD_KEYS@),
                profile: first_property_of(report.properties@, PROFILE_KEYS@),
                port: port_of(report.port),
            },
        ),
        None => None,
    }
}

/// Whether both texts are there, not empty, and different.
pub open spec fn conflict(left: Option<Seq<char>>, right: Option<Seq<char>>) -> bool {
    left matches Some(l) && right matches Some(r) && l.len() > 0 && r.len() > 0 && l != r
}

/// How well an output fits what is remembered; the more, the better. Numbers and product names
/// may be those of a whole card, so they tell an output only together with its profile or its
/// description. An output of another profile fits only under the very same name.
pub open spec fn score_of(remembered: RememberedView, sink: SinkView) -> Option<u16> {
    let hardware_matches = is_nonempty_equal(remembered.vendor_id, sink.vendor_id)
        && is_nonempty_equal(remembered.product_id, sink.product_id);
    let product_matches = is_optional_normalized_equal(
        remembered.product_name,
        sink.product_name,
    );
    let description_matches = is_normalized_equal(remembered.description, sink.description);
    let profile_matches = is_nonempty_equal(remembered.profile, sink.profile);
    if remembered.name == sink.name {
        Some(1_000)
    } else if conflict(remembered.profile, sink.profile) || !(profile_matches
        || description_matches) {
        None
    } else if is_nonempty_equal(remembered.serial, sink.serial) {
        Some(900)
    } else if is_nonempty_equal(remembered.card, sink.card) && profile_matches {
        Some(850)
    } else if hardware_matches && (product_matches || description_matches) {
        Some(800)
    } else if product_matches {
        Some(500)
    } else if description_matches {
        Some(300)
    } else {
        None
    }
}

/// The value of the first of the properties that `info` has.
pub fn first_property(info: &SinkReport, keys: &[&str]) -> (r: Option<String>)
    ensures
        text_of(r) == first_property_of(info.properties@, keys@),
{
    assert(keys@.skip(0) =~= keys@);
    for k in 0..keys.len()
        invariant
            first_property_of(info.properties@, keys@) == first_property_of(
                info.properties@,
                keys@.skip(k as int),
            ),
    {
        assert(keys@.skip(k as int).drop_first() =~= keys@.skip(k + 1));
        let value = get_property(info, keys[k]);
        if value.is_some() {
            return value;
        }
    }
    None
}

/// The value of the property `key` of `info`.
pub fn get_property(info: &SinkReport, key: &str) -> (r: Option<String>)
    ensures
        text_of(r) == property(info.properties@, key@),
{
    assert(info.properties@.skip(0) =~= info.properties@);
    for i in 0..info.properties.len()
        invariant
            property(info.properties@, key@) == property(
                info.properties@.skip(i as int),
                key@,
            ),
    {
        assert(info.properties@.skip(i as int).drop_first() =~= info.properties@.skip(i + 1));
        if same_text(info.properties[i].0.as_str(), key) {
            return Some(info.properties[i].1.clone());
        }
    }
    None
}

impl Sink {
    /// The output that the sound server describes; one without a name is passed over.
    pub fn from_pulse(info: &SinkReport) -> (r: Option<Self>)
        ensures
            match r {
                Some(sink) => reported_sink(*info) == Some(sink@),
                None => reported_sink(*info) is None,
            },
    {
        match &info.name {
            Some(name) => Some(
                Sink {
                    name: name.clone(),
                    index: info.index,
                    description: text_or_empty(&info.description),
                    driver: text_or_empty(&info.driver),
                    vendor_id: first_property(info, &VENDOR_ID_KEYS),
                    product_id: first_property(info, &PRODUCT_ID_KEYS),
                    serial: first_property(info, &SERIAL_KEYS),
                    product_name: first_property(info, &PRODUCT_NAME_KEYS),
                    bus: get_property(info, BUS_KEY),
                    card: first_property(info, &CARD_KEYS),
                    profile: first_property(info, &PROFILE_KEYS),
                    port: clone_port(&info.port),
                },
            ),
            None => None,
        }
    }
}

/// The text, or the empty one where there is none.
fn text_or_empty(text: &Option<String>) -> (r: String)
    ensures
        r@ == or_empty(text_of(*text)),
{
    match text {
        Some(text) => text.clone(),
        None => {
            let empty = String::new();
            assert(empty@ =~= Seq::<char>::empty());
            empty
        },
    }
}

/// Whether both texts are there, not empty, and different.
fn conflicting(left: &Option<String>, right: &Option<String>) -> (r: bool)
    ensures
        r == conflict(text_of(*left), text_of(*right)),
{
    match (as_deref(left), as_deref(right)) {
        (Some(left), Some(right)) => !left.is_empty() && !right.is_empty() && !same_text(
            left,
            right,
        ),
        _ => false,
    }
}

impl Clone for SinkPort {
    fn clone(&self) -> (r: Self)
        ensures
            r@ == self@,
    {
        SinkPort { name: self.name.clone(), available: self.available }
    }
}

impl Clone for Sink {
    fn clone(&self) -> (r: Self)
        ensures
            r@ == self@,
    {
        Sink {
            name: self.name.clone(),
            index: self.index,
            description: self.description.clone(),
            driver: self.driver.clone(),
            vendor_id: clone_text(&self.vendor_id),
            product_id: clone_text(&self.product_id),
            serial: clone_text(&self.serial),
            product_name: clone_text(&self.product_name),
            bus: clone_text(&self.bus),
            card: clone_text(&self.card),
            profile: clone_text(&self.profile),
            port: clone_port(&self.port),
        }
    }
}

impl Clone for RememberedSink {
    fn clone(&self) -> (r: Self)
        ensures
            r@ == self@,
    {
        RememberedSink {
            name: self.name.clone(),
            serial: clone_text(&self.serial),
            vendor_id: clone_text(&self.vendor_id),
            product_id: clone_text(&self.product_id),
            product_name: clone_text(&self.product_name),
            description: self.description.clone(),
            card: clone_text(&self.card),
            profile: clone_text(&self.profile),
        }
    }
}

/// A copy of an optional port.
fn clone_port(port: &Option<SinkPort>) -> (r: Option<SinkPort>)
    ensures
        port_of(r) == port_of(*port),
{
    match port {
        Some(port) => Some(port.clone()),
        None => None,
    }
}

impl RememberedSink {
    /// What is to be remembered of `sink`.
    pub fn from_sink(sink: &Sink) -> (r: Self)
        ensures
            r@ == memory_of(sink@),
    {
        RememberedSink {
            name: sink.name.clone(),
            serial: clone_text(&sink.serial),
            vendor_id: clone_text(&sink.vendor_id),
            product_id: clone_text(&sink.product_id),
            product_name: clone_text(&sink.product_name),
            description: sink.description.clone(),
            card: clone_text(&sink.card),
            profile: clone_text(&sink.profile),
        }
    }

    /// How well `sink` fits what is remembered; the more, the better.
    pub fn match_score(&self, sink: &Sink) -> (r: Option<u16>)
        ensures
            r == score_of(self@, sink@),
    {
        if same_text(self.name.as_str(), sink.name.as_str()) {
            return Some(1_000);
        }
        let profile_matches = nonempty_equal(as_deref(&self.profile), as_deref(&sink.profile));
        let description_matches = normalized_equal(
            self.description.as_str(),
            sink.description.as_str(),
        );
        if conflicting(&self.profile, &sink.profile) || !(profile_matches || description_matches) {
            return None;
        }
        if nonempty_equal(as_deref(&self.serial), as_deref(&sink.serial)) {
            return Some(900);
        }
        if nonempty_equal(as_deref(&self.card), as_deref(&sink.card)) && profile_matches {
            return Some(850);
        }
        let hardware_matches = nonempty_equal(
            as_deref(&self.vendor_id),
            as_deref(&sink.vendor_id),
        ) && nonempty_equal(as_deref(&self.product_id), as_deref(&sink.product_id));
        let product_matches = optional_normalized_equal(
            as_deref(&self.product_name),
            as_deref(&sink.product_name),
        );
        if hardware_matches && (product_matches || description_matches) {
            return Some(800);
        }
        if product_matches {
            return Some(500);
        }
        if description_matches {
            return Some(300);
        }
        None
    }
}

} // verus!
