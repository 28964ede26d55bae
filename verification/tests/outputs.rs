use hyperx_switchd::selection::{
    find_best_fallback_sink, find_hyperx_sink, find_remembered_sink, find_sink_by_name,
    is_hyperx_name_fallback, is_hyperx_sink, is_unplugged_analog, resolve_speaker_sink,
    speaker_score, SpeakerError,
};
use hyperx_switchd::sink::{RememberedSink, Sink, SinkPort, SinkReport};
use hyperx_switchd::usb_id::{id_value_matches, CLOUD_III_S_PRODUCT_IDS, HYPERX_VENDOR_ID};

fn sink(name: &str, description: &str) -> Sink {
    Sink {
        name: name.to_owned(),
        index: 1,
        description: description.to_owned(),
        driver: String::new(),
        vendor_id: None,
        product_id: None,
        serial: None,
        product_name: None,
        bus: None,
        card: None,
        profile: None,
        port: None,
    }
}

fn headset() -> Sink {
    let mut device = sink("headset", "");
    device.vendor_id = Some("0x03f0".to_owned());
    device.product_id = Some("0x02cc".to_owned());
    device
}

fn text(value: &str) -> Option<String> {
    Some(value.to_owned())
}

fn found(sink: Option<&Sink>) -> Option<&str> {
    sink.map(|sink| sink.name.as_str())
}

#[test]
fn matches_hyperx_by_usb_properties() {
    let mut device = sink("generated-name", "Unknown USB Audio");
    device.vendor_id = Some("usb:03f0".to_owned());
    device.product_id = Some("0x06be".to_owned());
    assert!(is_hyperx_sink(&device));
}

#[test]
fn matches_pipewire_style_hyperx_name_as_fallback() {
    let device = sink(
        "alsa_output.usb-HP_Inc._HyperX_Cloud_III_S_Wireless-00.analog-stereo",
        "HyperX Cloud III S Wireless Analog Stereo",
    );
    assert!(is_hyperx_sink(&device));
}

#[test]
fn rejects_other_hyperx_models() {
    let device = sink(
        "alsa_output.usb-HP_HyperX_Cloud_III_Wireless-00.analog-stereo",
        "HyperX Cloud III Wireless",
    );
    assert!(!is_hyperx_sink(&device));
}

#[test]
fn parses_common_usb_id_formats() {
    assert!(id_value_matches("usb:03f0", HYPERX_VENDOR_ID));
    assert!(id_value_matches("0x03f0", HYPERX_VENDOR_ID));
    assert!(id_value_matches("03f0", HYPERX_VENDOR_ID));
    assert!(id_value_matches("1008", HYPERX_VENDOR_ID));
    assert!(id_value_matches("usb:06be", CLOUD_III_S_PRODUCT_IDS[0]));
}

#[test]
fn remembers_a_device_across_generated_name_changes() {
    let mut old = sink("old.generated.name", "Generic USB Audio");
    old.serial = Some("usb-1234".to_owned());
    let remembered = RememberedSink::from_sink(&old);

    let mut new = sink("new.generated.name", "Generic USB Audio");
    new.serial = Some("usb-1234".to_owned());
    assert_eq!(
        find_remembered_sink(&[new], &remembered).map(|sink| sink.name.as_str()),
        Some("new.generated.name")
    );
}

#[test]
fn prefers_usb_speakers_over_generic_analog() {
    let mut usb = sink(
        "alsa_output.usb-Generic_USB_Audio-00.pro-output-2",
        "Generic USB Audio Pro Output 2",
    );
    usb.bus = Some("usb".to_owned());
    let analog = sink(
        "alsa_output.pci-0000_00_1f.3.analog-stereo",
        "Built-in Audio Analog Stereo",
    );
    assert!(speaker_score(&usb).unwrap() > speaker_score(&analog).unwrap());
}

#[test]
fn ambiguous_description_does_not_guess_a_remembered_device() {
    let old = sink("old.generated.name", "Generic USB Audio");
    let remembered = RememberedSink::from_sink(&old);
    let first = sink("first.generated.name", "Generic USB Audio");
    let second = sink("second.generated.name", "Generic USB Audio");

    assert!(find_remembered_sink(&[first, second], &remembered).is_none());
}

#[test]
fn usb_id_must_match_the_cloud_iii_s() {
    let mut device = sink("generated-name", "Unknown USB Audio");
    device.vendor_id = Some("03f0".to_owned());
    device.product_id = Some("1234".to_owned());
    assert!(!is_hyperx_sink(&device));
}

#[test]
fn excludes_hdmi_and_virtual_outputs() {
    assert_eq!(
        speaker_score(&sink("alsa_output.pci.example.hdmi-stereo", "HDMI Output")),
        None
    );
    assert_eq!(speaker_score(&sink("auto_null", "Dummy Output")), None);
}

#[test]
fn every_spelling_of_the_numbers_is_the_headset() {
    for vendor in ["03f0", "0x03f0", "0X03F0", "1008", "usb:03f0", " 03F0\n", "pci:usb:0x3f0"] {
        for product in ["06be", "0x06be", "1726", "02cc", "716", "usb:02CC"] {
            let mut device = sink("any name", "any description");
            device.vendor_id = text(vendor);
            device.product_id = text(product);
            assert!(is_hyperx_sink(&device), "{vendor} {product}");
        }
    }
}

#[test]
fn odd_numbers_are_not_the_headset() {
    for vendor in ["", "0x", "03f0:", "0x0x03f0", "-1008", "103f0", "03f0 h", "1 008"] {
        assert!(!id_value_matches(vendor, HYPERX_VENDOR_ID), "{vendor}");
    }
    assert!(id_value_matches("+3f0", HYPERX_VENDOR_ID));
    assert!(id_value_matches("0x+3f0", HYPERX_VENDOR_ID));
    assert!(id_value_matches("0003f0", HYPERX_VENDOR_ID));
}

#[test]
fn numbers_are_read_as_the_standard_library_reads_them() {
    let values = [
        "0", "1", "ff", "FF", "ffff", "10000", "65535", "65536", "+12", "++1", "+", "-1", "0_1",
        "g", "12g", "00000000012", "99999999999999999999", "\u{661}", "1e3",
    ];
    for value in values {
        for expected in [0u16, 1, 12, 18, 0xff, 0xffff, 0x1e3] {
            let reference = u16::from_str_radix(&value.to_ascii_lowercase(), 16)
                .is_ok_and(|n| n == expected)
                || value.parse::<u16>().is_ok_and(|n| n == expected);
            assert_eq!(id_value_matches(value, expected), reference, "{value} {expected}");
        }
    }
}

#[test]
fn one_number_is_not_enough_for_the_headset() {
    let mut device = sink("any", "any");
    device.vendor_id = text("03f0");
    assert!(!is_hyperx_sink(&device));
    device.vendor_id = None;
    device.product_id = text("06be");
    assert!(!is_hyperx_sink(&device));
}

#[test]
fn headset_name_may_be_spread_over_all_texts() {
    assert!(is_hyperx_name_fallback("hyperx", "Cloud-III", Some("S WIRELESS")));
    assert!(!is_hyperx_name_fallback("hyperx", "Cloud III S", None));
    assert!(!is_hyperx_name_fallback("", "", None));
}

#[test]
fn first_headset_and_first_name_are_found() {
    let mut second = headset();
    second.name = "other headset".to_owned();
    let mut twin = sink("speakers", "");
    twin.index = 9;
    let sinks = [sink("speakers", ""), headset(), second, twin];
    assert_eq!(found(find_hyperx_sink(&sinks)), Some("headset"));
    assert_eq!(find_sink_by_name(&sinks, "speakers").map(|sink| sink.index), Some(1));
    assert!(find_sink_by_name(&sinks, "Speakers").is_none());
    assert!(find_hyperx_sink(&sinks[..1]).is_none());
}

#[test]
fn scores_of_the_speakers_add_up() {
    assert_eq!(speaker_score(&sink("x", "y")), Some(0));
    assert_eq!(speaker_score(&sink("alsa_output.x", "y")), Some(20));
    assert_eq!(speaker_score(&sink("x", "USB")), Some(100));
    assert_eq!(speaker_score(&sink("x", "Speakers")), Some(50));
    assert_eq!(speaker_score(&sink("x", "Analog")), Some(30));
    assert_eq!(speaker_score(&sink("x.pro-output-0", "")), Some(20));
    let mut all = sink("alsa_output.usb.pro-output-0", "Analog Speaker");
    all.driver = "module-alsa-card.c".to_owned();
    assert_eq!(speaker_score(&all), Some(220));
    let mut by_bus = sink("x", "y");
    by_bus.bus = text("usb");
    by_bus.product_name = text("speaker");
    assert_eq!(speaker_score(&by_bus), Some(150));
    for word in ["null", "dummy", "hdmi", "DisplayPort", "bluez", "bluetooth", "raop", "network"] {
        assert_eq!(speaker_score(&sink("x", word)), None, "{word}");
        let mut by_driver = sink("alsa_output.usb", "speaker");
        by_driver.driver = word.to_owned();
        assert_eq!(speaker_score(&by_driver), None, "{word}");
    }
}

#[test]
fn scores_of_remembered_outputs() {
    let mut old = sink("old", "Line Out");
    old.serial = text("s1");
    old.vendor_id = text("1");
    old.product_id = text("2");
    old.product_name = text("Card One");
    let remembered = RememberedSink::from_sink(&old);

    let mut other = sink("old", "");
    assert_eq!(remembered.match_score(&other), Some(1_000));
    other.name = "new".to_owned();
    assert_eq!(remembered.match_score(&other), None);
    other.description = "line-out".to_owned();
    assert_eq!(remembered.match_score(&other), Some(300));
    other.product_name = text("card ONE");
    assert_eq!(remembered.match_score(&other), Some(500));
    other.vendor_id = text("1");
    other.product_id = text("2");
    assert_eq!(remembered.match_score(&other), Some(800));
    other.product_name = None;
    assert_eq!(remembered.match_score(&other), Some(800));
    other.serial = text("s1");
    assert_eq!(remembered.match_score(&other), Some(900));
}

#[test]
fn profile_tells_an_output_where_descriptions_differ() {
    let mut old = sink("old", "Line Out");
    old.vendor_id = text("1");
    old.product_id = text("2");
    old.product_name = text("Card One");
    old.card = text("pci-1");
    old.profile = text("analog-stereo");
    let remembered = RememberedSink::from_sink(&old);

    let mut other = sink("new", "Headphones");
    other.profile = text("analog-stereo");
    assert_eq!(remembered.match_score(&other), None);
    other.product_name = text("Card One");
    assert_eq!(remembered.match_score(&other), Some(500));
    other.vendor_id = text("1");
    other.product_id = text("2");
    assert_eq!(remembered.match_score(&other), Some(800));
    other.card = text("pci-1");
    assert_eq!(remembered.match_score(&other), Some(850));
    other.profile = None;
    assert_eq!(remembered.match_score(&other), None);
}

#[test]
fn outputs_of_one_card_are_told_apart_without_a_profile() {
    let mut analog = sink("old.card.analog-stereo", "Card Analog Stereo");
    let mut spdif = sink("new.card.iec958-stereo", "Card Digital Stereo (IEC958)");
    for output in [&mut analog, &mut spdif] {
        output.serial = text("card-1");
    }
    let remembered = RememberedSink::from_sink(&analog);
    assert!(find_remembered_sink(&[spdif.clone()], &remembered).is_none());
    for output in [&mut analog, &mut spdif] {
        output.vendor_id = text("8086");
        output.product_id = text("a348");
        output.product_name = text("Built-in Audio");
    }
    let remembered = RememberedSink::from_sink(&analog);
    assert!(find_remembered_sink(&[spdif.clone()], &remembered).is_none());
    analog.name = "new.card.analog-stereo".to_owned();
    let sinks = [spdif, analog];
    assert_eq!(found(find_remembered_sink(&sinks, &remembered)), Some("new.card.analog-stereo"));
}

#[test]
fn renamed_output_is_found_by_card_and_profile() {
    let mut old = sink("old", "Speakers");
    old.card = text("pci-1");
    old.profile = text("analog-stereo");
    let remembered = RememberedSink::from_sink(&old);
    let mut same = sink("new", "Line Out");
    same.card = text("pci-1");
    same.profile = text("analog-stereo");
    let mut digital = sink("digital", "Speakers");
    digital.card = text("pci-1");
    digital.profile = text("iec958-stereo");
    let other_card = sink("other", "Speakers");
    let sinks = [digital, same, other_card];
    assert_eq!(found(find_remembered_sink(&sinks, &remembered)), Some("new"));
}

#[test]
fn empty_texts_match_nothing() {
    let mut old = sink("old", "");
    old.serial = text("");
    old.product_name = text("--");
    let remembered = RememberedSink::from_sink(&old);
    let mut other = sink("new", "");
    other.serial = text("");
    other.product_name = text("--");
    assert_eq!(remembered.match_score(&other), None);
}

#[test]
fn outputs_of_one_card_are_told_apart_by_profile() {
    let mut analog = sink("card.analog", "Built-in Audio");
    analog.serial = text("pci-0000");
    analog.card = text("pci-0000");
    analog.profile = text("analog-stereo");
    let mut digital = sink("card.iec958", "Built-in Audio");
    digital.serial = text("pci-0000");
    digital.card = text("pci-0000");
    digital.profile = text("iec958-stereo");
    let remembered = RememberedSink::from_sink(&digital);

    analog.name = "card.analog.2".to_owned();
    digital.name = "card.iec958.2".to_owned();
    assert_eq!(remembered.match_score(&analog), None);
    assert_eq!(remembered.match_score(&digital), Some(900));
    digital.serial = None;
    assert_eq!(remembered.match_score(&digital), Some(850));
    let sinks = [analog, digital];
    assert_eq!(found(find_remembered_sink(&sinks, &remembered)), Some("card.iec958.2"));
}

#[test]
fn remembered_output_is_never_the_headset() {
    let device = headset();
    let remembered = RememberedSink::from_sink(&device);
    assert!(find_remembered_sink(&[device], &remembered).is_none());
}

#[test]
fn better_match_settles_an_ambiguity() {
    let remembered = RememberedSink::from_sink(&sink("old", "Audio"));
    let sinks = [sink("a", "Audio"), sink("b", "Audio"), sink("old", "x")];
    assert_eq!(found(find_remembered_sink(&sinks, &remembered)), Some("old"));
    let sinks = [sink("old", "x"), sink("a", "Audio"), sink("b", "Audio")];
    assert_eq!(found(find_remembered_sink(&sinks, &remembered)), Some("old"));
}

#[test]
fn unavailable_analog_ports_are_skipped() {
    let mut unplugged = sink("alsa_output.usb.analog-stereo", "USB Speakers");
    unplugged.port = Some(SinkPort { name: "analog-output-lineout".to_owned(), available: false });
    let mut plugged = sink("alsa_output.pci.analog-stereo", "Built-in");
    plugged.port = Some(SinkPort { name: "analog-output".to_owned(), available: true });
    assert!(is_unplugged_analog(&unplugged));
    assert!(!is_unplugged_analog(&plugged));
    let remembered = RememberedSink::from_sink(&unplugged);
    let mut digital = sink("alsa_output.iec958", "S/PDIF");
    digital.port = Some(SinkPort { name: "iec958-stereo-output".to_owned(), available: false });
    assert!(!is_unplugged_analog(&digital));
    digital.description = "Analog Output".to_owned();
    assert!(is_unplugged_analog(&digital));

    let sinks = [unplugged, plugged];
    assert!(find_remembered_sink(&sinks, &remembered).is_none());
    assert_eq!(
        found(find_best_fallback_sink(&sinks)),
        Some("alsa_output.pci.analog-stereo")
    );
    assert!(find_best_fallback_sink(&sinks[..1]).is_none());
}

#[test]
fn last_of_equally_good_fallbacks_is_picked() {
    let sinks = [sink("a", "usb"), sink("b", "analog"), sink("c", "usb"), headset()];
    assert_eq!(found(find_best_fallback_sink(&sinks)), Some("c"));
    assert!(find_best_fallback_sink(&[headset(), sink("x", "hdmi")]).is_none());
}

#[test]
fn speakers_are_resolved_in_order() {
    let sinks = [sink("wanted", ""), sink("kept", "usb"), sink("left", "analog"), headset()];
    let remembered = RememberedSink::from_sink(&sinks[1]);

    let forced = resolve_speaker_sink(&sinks, Some(&sinks[2]), Some("wanted"), Some(&remembered));
    assert_eq!(forced.unwrap().name, "wanted");
    let current = resolve_speaker_sink(&sinks, Some(&sinks[2]), None, Some(&remembered));
    assert_eq!(current.unwrap().name, "left");
    let recalled = resolve_speaker_sink(&sinks, Some(&sinks[3]), None, Some(&remembered));
    assert_eq!(recalled.unwrap().name, "kept");
    let fallback = resolve_speaker_sink(&sinks, None, None, None);
    assert_eq!(fallback.unwrap().name, "kept");
    let forced_headset = resolve_speaker_sink(&sinks, None, Some("headset"), None);
    assert_eq!(forced_headset.unwrap().name, "headset");
}

#[test]
fn unresolved_speakers_are_explained() {
    let sinks = [headset()];
    let error = resolve_speaker_sink(&sinks, None, Some("gone"), None).unwrap_err();
    assert!(matches!(&error, SpeakerError::OverrideUnavailable(name) if name == "gone"));
    assert_eq!(error.message(), "configured speaker sink is unavailable: gone");
    let error = resolve_speaker_sink(&sinks, Some(&sinks[0]), None, None).unwrap_err();
    assert!(matches!(error, SpeakerError::NoneUsable));
    assert_eq!(
        error.message(),
        "no usable non-HyperX playback sink found; select the speakers once or pass --speaker-sink"
    );
}

#[test]
fn report_becomes_an_output() {
    let properties = vec![
        ("alsa.vendor_id".to_owned(), "second".to_owned()),
        ("device.vendor.id".to_owned(), "first".to_owned()),
        ("alsa.product_id".to_owned(), "0x06be".to_owned()),
        ("device.string".to_owned(), "front:0".to_owned()),
        ("alsa.card_name".to_owned(), "Card".to_owned()),
        ("device.bus".to_owned(), "usb".to_owned()),
        ("device.profile.name".to_owned(), "analog-stereo".to_owned()),
    ];
    let report = SinkReport {
        name: text("out"),
        index: 7,
        description: None,
        driver: text("alsa"),
        properties,
        port: Some(SinkPort { name: "line".to_owned(), available: true }),
    };
    let sink = Sink::from_pulse(&report).unwrap();
    assert_eq!(sink.name, "out");
    assert_eq!(sink.index, 7);
    assert_eq!(sink.description, "");
    assert_eq!(sink.driver, "alsa");
    assert_eq!(sink.vendor_id.as_deref(), Some("first"));
    assert_eq!(sink.product_id.as_deref(), Some("0x06be"));
    assert_eq!(sink.serial.as_deref(), Some("front:0"));
    assert_eq!(sink.product_name.as_deref(), Some("Card"));
    assert_eq!(sink.bus.as_deref(), Some("usb"));
    assert_eq!(sink.card.as_deref(), Some("Card"));
    assert_eq!(sink.profile.as_deref(), Some("analog-stereo"));
    assert_eq!(sink.port.as_ref().map(|port| port.name.as_str()), Some("line"));

    let nameless = SinkReport { name: None, ..report };
    assert!(Sink::from_pulse(&nameless).is_none());
}

#[test]
fn memory_and_copies_keep_every_field() {
    let mut output = sink("n", "d");
    output.serial = text("s");
    output.vendor_id = text("v");
    output.product_id = text("p");
    output.product_name = text("pn");
    output.card = text("c");
    output.profile = text("pr");
    let copy = output.clone();
    let memory = RememberedSink::from_sink(&copy).clone();
    assert_eq!(memory.name, "n");
    assert_eq!(memory.serial.as_deref(), Some("s"));
    assert_eq!(memory.vendor_id.as_deref(), Some("v"));
    assert_eq!(memory.product_id.as_deref(), Some("p"));
    assert_eq!(memory.product_name.as_deref(), Some("pn"));
    assert_eq!(memory.description, "d");
    assert_eq!(memory.card.as_deref(), Some("c"));
    assert_eq!(memory.profile.as_deref(), Some("pr"));
}
