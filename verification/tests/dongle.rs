use hyperx_switchd::hid::{
    connected_request, parse_connected_state, HeadsetState, Query, QueryAction, QueryError,
    QueryEvent,
};
use hyperx_switchd::probe::{
    dongle_candidates, DeviceEntry, HeadsetProbe, ProbeAction, ProbeEvent, Scan, ScanAction,
    ScanError, ScanEvent,
};

#[test]
fn parses_connected_query_response() {
    let response = [0x0c, 0, 0, 0, 0, 0x02, 0x02];
    assert_eq!(
        parse_connected_state(&response),
        Some(HeadsetState::Connected)
    );
}

#[test]
fn parses_disconnected_query_response() {
    let response = [0x0c, 0, 0, 0, 0, 0x02, 0x00];
    assert_eq!(
        parse_connected_state(&response),
        Some(HeadsetState::Disconnected)
    );
}

#[test]
fn ignores_unknown_query_response() {
    let response = [0x0c, 0, 0, 0, 0, 0x02, 0xff];
    assert_eq!(parse_connected_state(&response), None);
}

#[test]
fn parses_connected_notification() {
    let response = [0x0d, 0, 0, 0, 12, 1];
    assert_eq!(
        parse_connected_state(&response),
        Some(HeadsetState::Connected)
    );
}

#[test]
fn parses_disconnected_notification() {
    let response = [0x0d, 0, 0, 0, 12, 0];
    assert_eq!(
        parse_connected_state(&response),
        Some(HeadsetState::Disconnected)
    );
}

#[test]
fn ignores_unknown_notification_response() {
    let response = [0x0d, 0, 0, 0, 12, 2];
    assert_eq!(parse_connected_state(&response), None);
}

#[test]
fn ignores_unrelated_reports() {
    let response = [0x0d, 0, 0, 0, 3, 1];
    assert_eq!(parse_connected_state(&response), None);
}

#[test]
fn ignores_short_reports() {
    assert_eq!(parse_connected_state(&[]), None);
    assert_eq!(parse_connected_state(&[0x0c, 0, 0, 0, 0, 0x02]), None);
    assert_eq!(parse_connected_state(&[0x0d, 0, 0, 0, 12]), None);
}

#[test]
fn states_have_labels() {
    assert_eq!(HeadsetState::Connected.label(), "connected");
    assert_eq!(HeadsetState::Disconnected.label(), "disconnected");
    assert!(HeadsetState::Connected.is_connected());
    assert!(!HeadsetState::Disconnected.is_connected());
}

#[test]
fn request_is_six_bytes_and_zeros() {
    let mut expected = [0u8; 64];
    expected[..6].copy_from_slice(&[0x0c, 0x02, 0x03, 0x01, 0x00, 0x02]);
    assert_eq!(connected_request(), expected);
}

fn answer() -> Vec<u8> {
    vec![0x0c, 0, 0, 0, 0, 0x02, 0x02]
}

fn failure(action: QueryAction) -> String {
    match action {
        QueryAction::Finish(Err(error)) => error.message(),
        other => panic!("{other:?}"),
    }
}

fn step(query: &mut Query, event: QueryEvent) -> QueryAction {
    assert!(query.expects(&event));
    query.step(event)
}

fn written_query(now: u128) -> Query {
    let (mut query, first) = Query::begin();
    assert!(matches!(first, QueryAction::Read { timeout_ms: 0 }));
    let action = step(&mut query, QueryEvent::Report(vec![1]));
    assert!(matches!(action, QueryAction::Read { timeout_ms: 0 }));
    let action = step(&mut query, QueryEvent::Report(vec![]));
    assert!(matches!(action, QueryAction::Write(bytes) if bytes == connected_request()));
    let action = step(&mut query, QueryEvent::Wrote { written: 64, now });
    assert!(matches!(action, QueryAction::ReadClock));
    query
}

#[test]
fn query_reads_until_a_report_tells_the_state() {
    let mut query = written_query(5_000_000_000);
    let action = step(&mut query, QueryEvent::Clock { now: 5_000_000_001 });
    assert!(matches!(action, QueryAction::Read { timeout_ms: 999 }));
    let action = step(&mut query, QueryEvent::Report(vec![0x0d, 0, 0, 0, 3, 1]));
    assert!(matches!(action, QueryAction::ReadClock));
    let action = step(&mut query, QueryEvent::Clock { now: 5_999_999_999 });
    assert!(matches!(action, QueryAction::Read { timeout_ms: 1 }));
    let action = step(&mut query, QueryEvent::Report(answer()));
    assert!(matches!(action, QueryAction::Finish(Ok(HeadsetState::Connected))));
    assert!(!query.expects(&QueryEvent::Report(answer())));
    assert!(!query.expects(&QueryEvent::Clock { now: 0 }));
}

#[test]
fn query_gives_up_at_the_deadline() {
    let mut query = written_query(5_000_000_000);
    let action = step(&mut query, QueryEvent::Clock { now: 6_000_000_000 });
    assert_eq!(failure(action), "timed out waiting for connected-state HID response");

    let mut query = written_query(5_000_000_000);
    step(&mut query, QueryEvent::Clock { now: 5_000_000_000 });
    let action = step(&mut query, QueryEvent::Report(vec![]));
    assert_eq!(failure(action), "timed out waiting for connected-state HID response");
}

#[test]
fn query_drops_a_bounded_number_of_stale_reports() {
    let (mut query, _) = Query::begin();
    for _ in 0..63 {
        let action = step(&mut query, QueryEvent::Report(answer()));
        assert!(matches!(action, QueryAction::Read { timeout_ms: 0 }));
    }
    let action = step(&mut query, QueryEvent::Report(answer()));
    assert!(matches!(&action, QueryAction::Finish(Err(QueryError::NotDrained))));
    assert_eq!(failure(action), "HID report queue did not drain after 64 reports");
}

#[test]
fn query_failures_are_explained() {
    let (mut query, _) = Query::begin();
    assert!(!query.expects(&QueryEvent::Wrote { written: 64, now: 0 }));
    let action = step(&mut query, QueryEvent::ReadFailed("gone".to_owned()));
    assert_eq!(failure(action), "failed while draining stale HID reports: gone");

    let (mut query, _) = Query::begin();
    step(&mut query, QueryEvent::Report(vec![]));
    let action = step(&mut query, QueryEvent::WriteFailed("gone".to_owned()));
    assert_eq!(failure(action), "failed to write connected-state HID request: gone");

    let (mut query, _) = Query::begin();
    step(&mut query, QueryEvent::Report(vec![]));
    let action = step(&mut query, QueryEvent::Wrote { written: 63, now: 0 });
    assert_eq!(failure(action), "short connected-state HID write: wrote 63 of 64 bytes");

    let mut query = written_query(0);
    step(&mut query, QueryEvent::Clock { now: 0 });
    let action = step(&mut query, QueryEvent::ReadFailed("gone".to_owned()));
    assert_eq!(failure(action), "failed to read HID response: gone");
}

fn device(vendor_id: u16, product_id: u16, path: &str) -> DeviceEntry {
    DeviceEntry {
        vendor_id,
        product_id,
        path: path.as_bytes().to_vec(),
        path_text: path.to_owned(),
    }
}

#[test]
fn each_dongle_path_is_a_candidate_once() {
    let devices = vec![
        device(0x03f0, 0x1234, "a"),
        device(0x03f0, 0x06be, "a"),
        device(0x03f0, 0x02cc, "a"),
        device(0x1111, 0x06be, "b"),
        device(0x03f0, 0x02cc, "b"),
        device(0x03f0, 0x06be, "c"),
        device(0x03f0, 0x06be, "b"),
    ];
    assert_eq!(dongle_candidates(&devices), [1, 4, 5]);
}

#[test]
fn search_stops_at_the_first_answer() {
    let devices = vec![device(0x03f0, 0x06be, "a"), device(0x03f0, 0x02cc, "b")];
    let (scan, action) = Scan::begin(devices);
    assert!(matches!(action, ScanAction::Try(0)));
    assert!(scan.is_trying());
    let (scan, action) = scan.step(ScanEvent::OpenFailed("denied".to_owned()));
    assert!(matches!(action, ScanAction::Try(1)));
    assert!(scan.is_trying());
    let (scan, action) = scan.step(ScanEvent::Answered(HeadsetState::Connected));
    assert!(matches!(action, ScanAction::Finish(Ok(HeadsetState::Connected))));
    assert!(!scan.is_trying());
}

#[test]
fn failed_search_tells_what_was_tried() {
    let devices = vec![device(0x03f0, 0x06be, "/dev/hidraw1"), device(0x03f0, 0x02cc, "b")];
    let (scan, _) = Scan::begin(devices);
    let (scan, _) = scan.step(ScanEvent::OpenFailed("denied".to_owned()));
    let (scan, action) = scan.step(ScanEvent::QueryFailed("silence".to_owned()));
    assert!(!scan.is_trying());
    match action {
        ScanAction::Finish(Err(error)) => assert_eq!(
            error.message(),
            "found 2 matching HID path(s), but none responded: \
             03f0:06be /dev/hidraw1: open failed: denied; 03f0:02cc b: no valid response: silence"
        ),
        other => panic!("{other:?}"),
    }
}

#[test]
fn search_without_a_dongle_fails_at_once() {
    let (scan, action) = Scan::begin(vec![device(1, 2, "a")]);
    assert!(!scan.is_trying());
    match action {
        ScanAction::Finish(Err(error)) => assert_eq!(
            error.message(),
            "HyperX Cloud III S dongle not found (expected 03f0:06be or 03f0:02cc)"
        ),
        other => panic!("{other:?}"),
    }
    assert_eq!(
        ScanError::Init("no udev".to_owned()).message(),
        "failed to initialize hidapi: no udev"
    );
}

fn probe(probe: &mut HeadsetProbe, event: ProbeEvent) -> ProbeAction {
    assert!(probe.expects(&event));
    probe.step(event)
}

#[test]
fn answering_device_is_asked_again() {
    let mut headset = HeadsetProbe::default();
    assert!(matches!(probe(&mut headset, ProbeEvent::Begin), ProbeAction::Open));
    assert!(!headset.expects(&ProbeEvent::Begin));
    let action = probe(&mut headset, ProbeEvent::Opened(Ok(HeadsetState::Connected)));
    assert!(matches!(action, ProbeAction::Finish(Ok(HeadsetState::Connected))));
    assert!(matches!(probe(&mut headset, ProbeEvent::Begin), ProbeAction::Query));
    let action = probe(&mut headset, ProbeEvent::Queried(Ok(HeadsetState::Disconnected)));
    assert!(matches!(action, ProbeAction::Finish(Ok(HeadsetState::Disconnected))));
    assert!(matches!(probe(&mut headset, ProbeEvent::Begin), ProbeAction::Query));
}

#[test]
fn lost_device_is_searched_for_again() {
    let mut headset = HeadsetProbe::default();
    probe(&mut headset, ProbeEvent::Begin);
    let action = probe(&mut headset, ProbeEvent::Opened(Err("none".to_owned())));
    assert!(matches!(action, ProbeAction::Finish(Err(message)) if message == "none"));
    probe(&mut headset, ProbeEvent::Begin);
    probe(&mut headset, ProbeEvent::Opened(Ok(HeadsetState::Connected)));
    probe(&mut headset, ProbeEvent::Begin);
    let action = probe(&mut headset, ProbeEvent::Queried(Err("silence".to_owned())));
    assert!(matches!(action, ProbeAction::Open));
    let action = probe(&mut headset, ProbeEvent::Opened(Err("none".to_owned())));
    assert!(matches!(action, ProbeAction::Finish(Err(message))
        if message == "lost HyperX HID connection: silence; reconnect failed: none"));
    assert!(matches!(probe(&mut headset, ProbeEvent::Begin), ProbeAction::Open));
}
