use hyperx_switchd::sink::RememberedSink;
use hyperx_switchd::state_file::{decode, encode, state_file_path, StateFile};

fn memory(name: &str, serial: Option<&str>) -> RememberedSink {
    RememberedSink {
        name: name.to_owned(),
        serial: serial.map(|serial| serial.to_owned()),
        vendor_id: None,
        product_id: Some("0x1".to_owned()),
        product_name: None,
        description: "Line \"Out\"".to_owned(),
        card: Some(String::new()),
        profile: None,
    }
}

#[test]
fn path_is_configured_or_found_below_the_home() {
    let path = |configured, state, home| state_file_path(configured, state, home);
    assert_eq!(path(Some("x.json"), Some("/s"), Some("/h")).as_deref(), Some("x.json"));
    assert_eq!(
        path(None, Some("/s"), Some("/h")).as_deref(),
        Some("/s/hyperx-cloud-3-switchd/speaker.json")
    );
    assert_eq!(
        path(None, Some(""), Some("/h")).as_deref(),
        Some("/h/.local/state/hyperx-cloud-3-switchd/speaker.json")
    );
    assert_eq!(
        path(None, None, Some("/h")).as_deref(),
        Some("/h/.local/state/hyperx-cloud-3-switchd/speaker.json")
    );
    assert_eq!(path(None, None, None), None);
    assert_eq!(path(None, None, Some("")), None);
}

#[test]
fn choice_is_written_as_json() {
    assert_eq!(
        encode(&memory("a\\b\n\u{1f}\u{e9}", Some("s"))),
        "{\"name\":\"a\\\\b\\u000a\\u001f\u{e9}\",\"serial\":\"s\",\"vendor_id\":null,\
         \"product_id\":\"0x1\",\"product_name\":null,\"description\":\"Line \\\"Out\\\"\",\
         \"card\":\"\",\"profile\":null}"
    );
}

#[test]
fn written_choice_is_read_back() {
    let names = ["", "plain", "q\"q", "back\\slash", "\u{0}\u{1}\t\r\n\u{1f} \u{7f}", "\u{1f3a7}"];
    for name in names {
        for serial in [None, Some(""), Some("null"), Some(name)] {
            let written = memory(name, serial);
            let read = decode(&encode(&written)).unwrap();
            assert_eq!(read.name, written.name);
            assert_eq!(read.serial, written.serial);
            assert_eq!(read.vendor_id, written.vendor_id);
            assert_eq!(read.product_id, written.product_id);
            assert_eq!(read.product_name, written.product_name);
            assert_eq!(read.description, written.description);
            assert_eq!(read.card, written.card);
            assert_eq!(read.profile, written.profile);
        }
    }
}

#[test]
fn damaged_files_are_rejected() {
    let text = encode(&memory("name", Some("serial")));
    for end in 0..text.len() {
        assert!(decode(&text[..end]).is_none(), "{end}");
    }
    assert!(decode(&format!("{text} ")).is_none());
    assert!(decode(&text.replace("\"name\":\"name\"", "\"name\":null")).is_none());
    assert!(decode(&text.replace("serial\"", "serial\n\"")).is_none());
    assert!(decode(&text.replace("0x1", "\\x")).is_none());
    assert!(decode("").is_none());
    assert_eq!(decode(&text.replace("0x1", "\\u004A")).unwrap().product_id.as_deref(), Some("J"));
}

#[test]
fn changes_are_written_once() {
    let first = memory("first", None);
    let second = memory("second", None);
    let (mut file, loaded) = StateFile::load(None);
    assert!(loaded.is_none());
    assert!(file.unsaved(None).is_none());
    let text = file.unsaved(Some(&first)).unwrap();
    assert_eq!(text, encode(&first));
    file.written(text.clone());
    assert!(file.unsaved(Some(&first)).is_none());
    assert!(file.unsaved(None).is_none());
    assert_eq!(file.unsaved(Some(&second)).unwrap(), encode(&second));

    let (file, loaded) = StateFile::load(Some(text));
    assert_eq!(loaded.unwrap().name, "first");
    assert!(file.unsaved(Some(&first)).is_none());

    let (file, loaded) = StateFile::load(Some("broken".to_owned()));
    assert!(loaded.is_none());
    assert!(file.unsaved(Some(&first)).is_some());
}
