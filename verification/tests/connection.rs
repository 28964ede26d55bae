use hyperx_switchd::connection::{
    deadline_after, iterate_nonblocking, shared_result, wait_for, wait_until_ready, ChangeWatch,
    ConnectionError, ConnectionHealth, ConnectionState, Iteration, ListEntry, Listed, Listing,
    Operation, ReadyStep, SharedResult, WaitStep, CONNECT_TIMEOUT, OPERATION_TIMEOUT,
};
use hyperx_switchd::sink::{Sink, SinkInput, SinkReport};

#[test]
fn waiting_for_a_connection_ends() {
    let deadline = deadline_after(10, CONNECT_TIMEOUT);
    assert_eq!(deadline, 5_000_000_010);
    let pending = ConnectionState::Pending;
    assert!(matches!(wait_until_ready(pending, deadline - 1, deadline), ReadyStep::Iterate));
    assert!(matches!(
        wait_until_ready(pending, deadline, deadline),
        ReadyStep::GiveUp(ConnectionError::TimedOut)
    ));
    assert!(matches!(
        wait_until_ready(ConnectionState::Ready, deadline, deadline),
        ReadyStep::Ready
    ));
    assert!(matches!(
        wait_until_ready(ConnectionState::Failed, 0, deadline),
        ReadyStep::GiveUp(ConnectionError::Failed)
    ));
    assert!(matches!(
        wait_until_ready(ConnectionState::Terminated, 0, deadline),
        ReadyStep::GiveUp(ConnectionError::Terminated)
    ));
}

#[test]
fn broken_iterations_are_noticed() {
    let ready = ConnectionState::Ready;
    assert!(iterate_nonblocking(Iteration::Success, ready).is_ok());
    assert!(iterate_nonblocking(Iteration::Success, ConnectionState::Pending).is_ok());
    let error = iterate_nonblocking(Iteration::Success, ConnectionState::Failed).unwrap_err();
    assert!(matches!(error, ConnectionError::Failed));
    let error = iterate_nonblocking(Iteration::Success, ConnectionState::Terminated).unwrap_err();
    assert!(matches!(error, ConnectionError::Terminated));
    let quit = Iteration::Quit("Retval(3)".to_owned());
    let error = iterate_nonblocking(quit, ConnectionState::Failed).unwrap_err();
    assert_eq!(error.message(), "PulseAudio mainloop quit unexpectedly with Retval(3)");
    let failed = Iteration::Failed("bad".to_owned());
    let error = iterate_nonblocking(failed, ready).unwrap_err();
    assert_eq!(error.message(), "PulseAudio mainloop error: bad");
}

#[test]
fn connection_errors_are_explained() {
    let messages = [
        (ConnectionError::NoMainloop, "failed to create PulseAudio mainloop"),
        (ConnectionError::NoContext, "failed to create PulseAudio context"),
        (
            ConnectionError::Start("refused".to_owned()),
            "failed to start PulseAudio/PipeWire connection: refused",
        ),
        (ConnectionError::Failed, "PulseAudio/PipeWire connection failed"),
        (ConnectionError::Terminated, "PulseAudio/PipeWire connection terminated"),
        (ConnectionError::TimedOut, "timed out connecting to PulseAudio/PipeWire"),
    ];
    for (error, message) in messages {
        assert_eq!(error.message(), message);
    }
}

#[test]
fn answer_is_taken_once_and_in_time() {
    let deadline = deadline_after(0, OPERATION_TIMEOUT);
    let mut slot: SharedResult<u32> = shared_result();
    let operation = "listing playback sinks";
    assert!(matches!(
        wait_for(&mut slot, operation, 2_999_999_999, deadline),
        WaitStep::Iterate
    ));
    assert!(matches!(
        wait_for(&mut slot, operation, 3_000_000_000, deadline),
        WaitStep::TimedOut(text) if text == "timed out while listing playback sinks"
    ));
    slot.set(Ok(7));
    assert!(matches!(
        wait_for(&mut slot, operation, 9_000_000_000, deadline),
        WaitStep::Done(7)
    ));
    assert!(matches!(wait_for(&mut slot, operation, 0, deadline), WaitStep::Iterate));
    slot.set(Ok(8));
    slot.set(Err("broken".to_owned()));
    assert!(matches!(
        wait_for(&mut slot, operation, 0, deadline),
        WaitStep::Failed(text) if text == "broken"
    ));
    slot.set(Ok(9));
    assert_eq!(slot.take(), Some(Ok(9)));
    assert_eq!(slot.take(), None);
}

#[test]
fn operations_time_out_by_their_names() {
    let names = [
        (Operation::ListSinks, "timed out while listing playback sinks"),
        (Operation::ReadDefault, "timed out while reading the default sink"),
        (Operation::SetDefault, "timed out while setting the default sink"),
        (Operation::ListInputs, "timed out while listing playback streams"),
        (Operation::MoveInput, "timed out while moving a playback stream"),
        (Operation::WatchChanges, "timed out while subscribing to audio changes"),
    ];
    for (operation, message) in names {
        let mut health = ConnectionHealth::new();
        let mut slot: SharedResult<bool> = shared_result();
        assert!(matches!(
            health.wait_for(&mut slot, operation, 5, 5),
            WaitStep::TimedOut(text) if text == message
        ));
    }
}

#[test]
fn lists_arrive_item_by_item() {
    let mut slot = shared_result();
    let mut inputs: Listing<SinkInput> = Listing::new(Listed::Inputs);
    inputs.receive(ListEntry::Item(SinkInput { index: 4, sink_index: 1 }), &mut slot);
    inputs.receive(ListEntry::Item(SinkInput { index: 2, sink_index: 1 }), &mut slot);
    assert!(slot.take().is_none());
    inputs.receive(ListEntry::End, &mut slot);
    let items = slot.take().unwrap().unwrap();
    assert_eq!(items.iter().map(|input| input.index).collect::<Vec<u32>>(), [4, 2]);
    inputs.receive(ListEntry::End, &mut slot);
    assert!(slot.take().unwrap().unwrap().is_empty());

    let mut slot = shared_result();
    let mut sinks: Listing<Sink> = Listing::new(Listed::Sinks);
    for (index, name) in [(1, Some("a")), (2, None), (3, Some("c"))] {
        sinks.receive_report(ListEntry::Item(report(index, name)), &mut slot);
    }
    assert!(slot.take().is_none());
    sinks.receive_report(ListEntry::End, &mut slot);
    let names: Vec<String> =
        slot.take().unwrap().unwrap().into_iter().map(|sink| sink.name).collect();
    assert_eq!(names, ["a", "c"]);
}

fn report(index: u32, name: Option<&str>) -> SinkReport {
    SinkReport {
        name: name.map(|name| name.to_owned()),
        index,
        description: None,
        driver: None,
        properties: Vec::new(),
        port: None,
    }
}

#[test]
fn lists_that_are_broken_off_are_explained() {
    let mut slot = shared_result();
    let mut inputs: Listing<SinkInput> = Listing::new(Listed::Inputs);
    inputs.receive(ListEntry::Item(SinkInput { index: 4, sink_index: 1 }), &mut slot);
    inputs.receive(ListEntry::Error, &mut slot);
    assert_eq!(
        slot.take().unwrap().unwrap_err(),
        "PulseAudio failed while listing playback streams"
    );

    let mut slot = shared_result();
    let mut sinks: Listing<Sink> = Listing::new(Listed::Sinks);
    sinks.receive_report(ListEntry::Item(report(1, Some("a"))), &mut slot);
    sinks.receive_report(ListEntry::Error, &mut slot);
    assert_eq!(slot.take().unwrap().unwrap_err(), "PulseAudio failed while listing sinks");
}

#[test]
fn unresponsive_connection_is_not_ready() {
    let mut health = ConnectionHealth::new();
    assert!(health.is_ready(ConnectionState::Ready));
    assert!(!health.is_ready(ConnectionState::Pending));
    assert!(!health.is_ready(ConnectionState::Failed));
    assert!(!health.is_ready(ConnectionState::Terminated));

    let mut slot: SharedResult<u8> = shared_result();
    let operation = Operation::ReadDefault;
    assert!(matches!(health.wait_for(&mut slot, operation, 0, 9), WaitStep::Iterate));
    slot.set(Err("broken".to_owned()));
    assert!(matches!(health.wait_for(&mut slot, operation, 0, 9), WaitStep::Failed(_)));
    assert!(health.is_ready(ConnectionState::Ready));
    assert!(matches!(health.wait_for(&mut slot, operation, 9, 9), WaitStep::TimedOut(_)));
    assert!(!health.is_ready(ConnectionState::Ready));
    slot.set(Ok(1));
    assert!(matches!(health.wait_for(&mut slot, operation, 0, 9), WaitStep::Done(1)));
    assert!(!health.is_ready(ConnectionState::Ready));

    let mut health = ConnectionHealth::new();
    health.observe(&WaitStep::Done(1));
    assert!(health.is_ready(ConnectionState::Ready));
    health.observe(&WaitStep::<u8>::TimedOut("late".to_owned()));
    assert!(!health.is_ready(ConnectionState::Ready));
}

#[test]
fn changes_are_seen_once() {
    let mut watch = ChangeWatch::new();
    assert!(watch.look(true));
    watch.subscribe(true);
    assert!(!watch.look(true));
    assert!(watch.look(false));
    watch.note();
    assert!(watch.look(true));
    assert!(!watch.look(true));
    watch.subscribe(false);
    assert!(watch.look(true));
}
