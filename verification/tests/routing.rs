use hyperx_switchd::hid::HeadsetState;
use hyperx_switchd::reconcile::{Pass, PassAction, PassEvent, ReconcileResult};
use hyperx_switchd::router::{pending_moves, PulseRouter, RouteError};
use hyperx_switchd::sink::{RememberedSink, Sink, SinkInput, SinkPort};
use hyperx_switchd::state_file::{decode, encode, StateFile};

fn sink(name: &str, index: u32) -> Sink {
    Sink {
        name: name.to_owned(),
        index,
        description: String::new(),
        driver: String::new(),
        vendor_id: None,
        product_id: None,
        serial: None,
        product_name: None,
        bus: None,
        card: None,
        profile: None,
        port: None,
    }
}

fn headset() -> Sink {
    let mut device = sink("headset", 10);
    device.vendor_id = Some("03f0".to_owned());
    device.product_id = Some("06be".to_owned());
    device
}

/// A sound server that does as it is told.
struct Server {
    sinks: Vec<Sink>,
    default: Option<String>,
    inputs: Vec<SinkInput>,
    unmovable: Vec<u32>,
    refuses: bool,
}

impl Server {
    fn new(sinks: Vec<Sink>, default: &str) -> Self {
        Server {
            sinks,
            default: Some(default.to_owned()),
            inputs: Vec::new(),
            unmovable: Vec::new(),
            refuses: false,
        }
    }

    fn route(
        &mut self,
        router: &mut PulseRouter,
        state: HeadsetState,
        speaker: Option<&str>,
    ) -> Result<ReconcileResult, RouteError> {
        let (mut pass, mut action) = Pass::begin(state, speaker.map(|name| name.to_owned()));
        loop {
            let event = match action {
                PassAction::ListSinks => PassEvent::Sinks(self.sinks.clone()),
                PassAction::ReadDefault => PassEvent::Default(self.default.clone()),
                PassAction::SetDefault(name) => {
                    if !self.refuses {
                        self.default = Some(name);
                    }
                    PassEvent::DefaultSet(!self.refuses)
                }
                PassAction::ListInputs => PassEvent::Inputs(self.inputs.clone()),
                PassAction::Move { input, sink } => {
                    if self.unmovable.contains(&input) {
                        PassEvent::Moved(false)
                    } else {
                        for known in self.inputs.iter_mut() {
                            if known.index == input {
                                known.sink_index = sink;
                            }
                        }
                        PassEvent::Moved(true)
                    }
                }
                PassAction::Finish(result) => return result,
            };
            assert!(pass.expects(&event));
            (pass, action) = pass.step(router, event);
        }
    }

    fn target(&mut self, router: &mut PulseRouter, state: HeadsetState) -> String {
        self.route(router, state, None).unwrap().target_name
    }
}

const ON: HeadsetState = HeadsetState::Connected;
const OFF: HeadsetState = HeadsetState::Disconnected;

fn remembered(router: &PulseRouter) -> Option<&str> {
    router.remembered_speaker().map(|memory| memory.name.as_str())
}

#[test]
fn sound_follows_the_headset_and_returns() {
    let mut server = Server::new(vec![sink("desk", 1), sink("hall", 2), headset()], "hall");
    server.inputs = vec![
        SinkInput { index: 100, sink_index: 2 },
        SinkInput { index: 101, sink_index: 10 },
        SinkInput { index: 102, sink_index: 1 },
    ];
    let mut router = PulseRouter::connect(None);
    let result = server.route(&mut router, ON, None).unwrap();
    assert_eq!(result.target_name, "headset");
    assert!(result.default_changed);
    assert_eq!(result.moved_streams, 2);
    assert_eq!(result.failed_stream_moves, 0);
    assert_eq!(remembered(&router), Some("hall"));
    assert!(server.inputs.iter().all(|input| input.sink_index == 10));

    let result = server.route(&mut router, OFF, None).unwrap();
    assert_eq!(result.target_name, "hall");
    assert_eq!(result.moved_streams, 3);
    assert_eq!(server.default.as_deref(), Some("hall"));

    let result = server.route(&mut router, OFF, None).unwrap();
    assert_eq!(result.target_name, "hall");
    assert!(!result.default_changed);
    assert_eq!(result.moved_streams, 0);
}

#[test]
fn selected_output_is_respected_while_the_headset_is_off() {
    let mut server = Server::new(vec![sink("desk", 1), sink("hall", 2), headset()], "desk");
    let mut router = PulseRouter::connect(None);
    assert_eq!(server.target(&mut router, OFF), "desk");
    server.default = Some("hall".to_owned());
    assert_eq!(server.target(&mut router, OFF), "hall");
    assert_eq!(remembered(&router), Some("hall"));
    assert_eq!(server.target(&mut router, ON), "headset");
    assert_eq!(server.target(&mut router, OFF), "hall");
}

#[test]
fn saved_choice_is_restored_on_a_new_connection() {
    let saved = RememberedSink::from_sink(&sink("hall", 2));
    let saved = decode(&encode(&saved));
    let mut server = Server::new(vec![sink("desk", 1), sink("hall", 2), headset()], "desk");
    let mut router = PulseRouter::connect(saved.clone());
    assert_eq!(server.target(&mut router, OFF), "hall");
    assert_eq!(server.default.as_deref(), Some("hall"));

    server.default = Some("desk".to_owned());
    router.reconnect();
    assert_eq!(server.target(&mut router, OFF), "hall");

    server.default = Some("desk".to_owned());
    let mut router = PulseRouter::connect(saved);
    assert_eq!(server.target(&mut router, ON), "headset");
    assert_eq!(remembered(&router), Some("hall"));
    assert_eq!(server.target(&mut router, OFF), "hall");
}

#[test]
fn missing_output_is_kept_and_restored() {
    let saved = RememberedSink::from_sink(&sink("hall", 2));
    let (file, loaded) = StateFile::load(Some(encode(&saved)));
    let mut server = Server::new(vec![sink("desk", 1), headset()], "desk");
    let mut router = PulseRouter::connect(loaded);
    assert_eq!(server.target(&mut router, OFF), "desk");
    assert_eq!(remembered(&router), Some("hall"));
    assert!(file.unsaved(router.remembered_speaker()).is_none());
    assert_eq!(server.target(&mut router, ON), "headset");
    assert_eq!(server.target(&mut router, OFF), "desk");
    assert_eq!(remembered(&router), Some("hall"));
    server.sinks.push(sink("hall", 5));
    assert_eq!(server.target(&mut router, OFF), "hall");
}

#[test]
fn stand_in_is_returned_to_while_the_saved_output_is_missing() {
    let saved = RememberedSink::from_sink(&sink("hall", 2));
    let mut likelier = sink("alsa_output.usb.speakers", 3);
    likelier.bus = Some("usb".to_owned());
    let outputs = vec![sink("desk", 1), likelier, headset()];
    let mut server = Server::new(outputs, "desk");

    let mut router = PulseRouter::connect(Some(saved.clone()));
    assert_eq!(server.target(&mut router, ON), "headset");
    assert_eq!(server.target(&mut router, OFF), "desk");
    assert_eq!(server.target(&mut router, ON), "headset");
    router.reconnect();
    assert_eq!(server.target(&mut router, OFF), "desk");
    assert_eq!(server.target(&mut router, OFF), "desk");
    assert_eq!(remembered(&router), Some("hall"));
    server.sinks.push(sink("hall", 9));
    assert_eq!(server.target(&mut router, ON), "headset");
    assert_eq!(server.target(&mut router, OFF), "hall");

    let mut server = Server::new(vec![sink("hdmi", 1), headset()], "hdmi");
    let mut router = PulseRouter::connect(Some(saved));
    assert_eq!(server.target(&mut router, OFF), "hdmi");
    assert_eq!(server.target(&mut router, ON), "headset");
    assert_eq!(server.target(&mut router, OFF), "hdmi");
}

#[test]
fn sound_returns_after_every_cycle() {
    let mut likelier = sink("alsa_output.usb.speakers", 3);
    likelier.bus = Some("usb".to_owned());
    let mut server = Server::new(vec![sink("desk", 1), likelier, headset()], "desk");
    let mut router = PulseRouter::connect(None);
    for _ in 0..3 {
        assert_eq!(server.target(&mut router, ON), "headset");
        assert_eq!(server.target(&mut router, OFF), "desk");
    }
}

#[test]
fn memory_is_renewed_from_the_same_output() {
    let mut server = Server::new(vec![sink("desk", 1), headset()], "desk");
    let mut router = PulseRouter::connect(None);
    assert_eq!(server.target(&mut router, OFF), "desk");
    server.sinks[0].serial = Some("new".to_owned());
    assert_eq!(server.target(&mut router, ON), "headset");
    let serial = router.remembered_speaker().and_then(|memory| memory.serial.clone());
    assert_eq!(serial.as_deref(), Some("new"));
}

#[test]
fn output_that_vanishes_is_not_forgotten() {
    let mut server = Server::new(vec![sink("desk", 1), sink("hall", 2), headset()], "hall");
    let mut router = PulseRouter::connect(None);
    assert_eq!(server.target(&mut router, OFF), "hall");
    server.sinks.remove(1);
    server.default = Some("desk".to_owned());
    assert_eq!(server.target(&mut router, OFF), "desk");
    assert_eq!(remembered(&router), Some("hall"));
    server.sinks.push(sink("hall", 7));
    assert_eq!(server.target(&mut router, OFF), "hall");
}

#[test]
fn headset_that_vanishes_leaves_the_previous_output() {
    let mut server = Server::new(vec![sink("desk", 1), sink("hall", 2), headset()], "hall");
    let mut router = PulseRouter::connect(None);
    assert_eq!(server.target(&mut router, ON), "headset");
    server.sinks.pop();
    server.default = Some("desk".to_owned());
    assert_eq!(server.target(&mut router, OFF), "hall");
}

#[test]
fn remembered_output_is_used_where_there_is_no_default() {
    let mut server = Server::new(vec![sink("desk", 1), sink("hall", 2), headset()], "hall");
    let mut router = PulseRouter::connect(None);
    assert_eq!(server.target(&mut router, ON), "headset");
    server.default = None;
    assert_eq!(server.target(&mut router, OFF), "hall");
}

fn plug(output: &mut Sink, available: bool) {
    output.port = Some(SinkPort { name: "analog-output".to_owned(), available });
}

#[test]
fn unplugged_default_is_left_for_a_fallback() {
    let mut server = Server::new(vec![sink("desk", 1), sink("usb", 2), headset()], "desk");
    let mut router = PulseRouter::connect(None);
    plug(&mut server.sinks[0], true);
    assert_eq!(server.target(&mut router, OFF), "desk");
    plug(&mut server.sinks[0], false);
    assert_eq!(server.target(&mut router, OFF), "usb");
    assert_eq!(remembered(&router), Some("desk"));
    plug(&mut server.sinks[0], true);
    assert_eq!(server.target(&mut router, OFF), "desk");

    plug(&mut server.sinks[0], false);
    server.default = Some("desk".to_owned());
    let missing = RememberedSink::from_sink(&sink("hall", 9));
    let mut router = PulseRouter::connect(Some(missing));
    assert_eq!(server.target(&mut router, OFF), "usb");
    assert_eq!(remembered(&router), Some("hall"));
}

#[test]
fn unplugged_output_is_used_if_it_is_selected() {
    let mut server = Server::new(vec![sink("desk", 1), sink("usb", 2), headset()], "usb");
    plug(&mut server.sinks[0], false);
    let mut router = PulseRouter::connect(None);
    assert_eq!(server.target(&mut router, OFF), "usb");
    server.default = Some("desk".to_owned());
    for _ in 0..3 {
        assert_eq!(server.target(&mut router, OFF), "desk");
    }
    assert_eq!(remembered(&router), Some("desk"));
}

#[test]
fn unplugged_default_stays_for_want_of_another() {
    let mut server = Server::new(vec![sink("desk", 1), headset()], "desk");
    plug(&mut server.sinks[0], false);
    let missing = RememberedSink::from_sink(&sink("hall", 9));
    let mut router = PulseRouter::connect(Some(missing));
    assert_eq!(server.target(&mut router, OFF), "desk");
    server.sinks.push(sink("usb", 2));
    assert_eq!(server.target(&mut router, OFF), "usb");
    assert_eq!(remembered(&router), Some("hall"));
}

#[test]
fn configured_headset_is_not_remembered() {
    let mut server = Server::new(vec![sink("desk", 1), headset()], "desk");
    let mut router = PulseRouter::connect(None);
    let result = server.route(&mut router, OFF, Some("headset")).unwrap();
    assert_eq!(result.target_name, "headset");
    assert_eq!(remembered(&router), None);
}

#[test]
fn first_output_is_remembered_whatever_was_there_before() {
    let mut server = Server::new(vec![sink("desk", 1), headset()], "headset");
    let mut router = PulseRouter::connect(None);
    assert_eq!(server.target(&mut router, ON), "headset");
    server.sinks = vec![sink("hall", 2)];
    server.default = Some("hall".to_owned());
    assert!(server.route(&mut router, ON, None).is_err());
    assert_eq!(remembered(&router), Some("hall"));
}

#[test]
fn configured_output_is_used_or_missed() {
    let mut server = Server::new(vec![sink("desk", 1), sink("hall", 2)], "desk");
    let mut router = PulseRouter::connect(None);
    let result = server.route(&mut router, OFF, Some("hall")).unwrap();
    assert_eq!(result.target_name, "hall");
    let error = server.route(&mut router, OFF, Some("gone")).unwrap_err();
    assert_eq!(error.message(), "configured speaker sink is unavailable: gone");
    assert_eq!(remembered(&router), Some("hall"));
}

#[test]
fn routing_errors_are_explained() {
    let mut server = Server::new(vec![sink("desk", 1)], "desk");
    let mut router = PulseRouter::connect(None);
    let error = server.route(&mut router, ON, None).unwrap_err();
    assert!(matches!(error, RouteError::HeadsetMissing));
    assert_eq!(
        error.message(),
        "headset is connected, but the HyperX playback sink is unavailable"
    );
    assert_eq!(remembered(&router), Some("desk"));

    server.sinks = vec![headset()];
    let mut router = PulseRouter::connect(None);
    let error = server.route(&mut router, OFF, None).unwrap_err();
    assert!(matches!(error, RouteError::Speaker(_)));

    server.sinks.push(sink("desk", 1));
    server.default = Some("headset".to_owned());
    server.refuses = true;
    let error = server.route(&mut router, OFF, None).unwrap_err();
    assert!(matches!(&error, RouteError::Refused(name) if name == "desk"));
    assert_eq!(error.message(), "PulseAudio refused to set default sink to desk");
    assert_eq!(RouteError::Operation("timed out".to_owned()).message(), "timed out");
}

#[test]
fn stream_that_cannot_be_moved_is_passed_over() {
    let mut server = Server::new(vec![sink("desk", 1), headset()], "headset");
    server.inputs = vec![
        SinkInput { index: 1, sink_index: 10 },
        SinkInput { index: 2, sink_index: 10 },
        SinkInput { index: 3, sink_index: 10 },
    ];
    server.unmovable = vec![2];
    let mut router = PulseRouter::connect(None);
    let result = server.route(&mut router, OFF, None).unwrap();
    assert_eq!(result.moved_streams, 2);
    assert_eq!(result.failed_stream_moves, 1);
    assert_eq!(server.inputs[2].sink_index, 1);
}

fn moving_pass(router: &mut PulseRouter) -> Pass {
    let (pass, action) = Pass::begin(OFF, None);
    assert!(matches!(action, PassAction::ListSinks));
    assert!(!pass.expects(&PassEvent::Moved(true)));
    let (pass, action) = pass.step(router, PassEvent::Sinks(vec![sink("desk", 1)]));
    assert!(matches!(action, PassAction::ReadDefault));
    let (pass, action) = pass.step(router, PassEvent::Default(Some("desk".to_owned())));
    assert!(matches!(action, PassAction::ListInputs));
    let inputs = vec![SinkInput { index: 4, sink_index: 9 }, SinkInput { index: 5, sink_index: 9 }];
    let (pass, action) = pass.step(router, PassEvent::Inputs(inputs));
    assert!(matches!(action, PassAction::Move { input: 4, sink: 1 }));
    pass
}

fn failed(usable: bool) -> PassEvent {
    PassEvent::Failed { message: "timed out".to_owned(), usable }
}

#[test]
fn failed_move_ends_the_pass_only_with_the_connection() {
    let mut router = PulseRouter::connect(None);
    let pass = moving_pass(&mut router);
    let (pass, action) = pass.step(&mut router, failed(true));
    assert!(matches!(action, PassAction::Move { input: 5, sink: 1 }));
    let (pass, action) = pass.step(&mut router, PassEvent::Moved(true));
    assert!(!pass.expects(&failed(true)));
    match action {
        PassAction::Finish(Ok(result)) => {
            assert_eq!((result.moved_streams, result.failed_stream_moves), (1, 1));
        }
        other => panic!("{other:?}"),
    }

    let pass = moving_pass(&mut router);
    let (_, action) = pass.step(&mut router, failed(false));
    assert!(matches!(
        action,
        PassAction::Finish(Err(RouteError::Operation(message))) if message == "timed out"
    ));
}

#[test]
fn every_other_failure_ends_the_pass() {
    let mut router = PulseRouter::connect(None);
    let (pass, _) = Pass::begin(ON, None);
    let (_, action) = pass.step(&mut router, failed(true));
    assert!(matches!(action, PassAction::Finish(Err(RouteError::Operation(_)))));
}

#[test]
fn streams_elsewhere_are_pending_in_order() {
    let inputs = vec![
        SinkInput { index: 9, sink_index: 1 },
        SinkInput { index: 3, sink_index: 2 },
        SinkInput { index: 7, sink_index: 0 },
    ];
    assert_eq!(pending_moves(&inputs, 2), [9, 7]);
    assert_eq!(pending_moves(&inputs, 5), [9, 3, 7]);
}
