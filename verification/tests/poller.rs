use ne4_konfig::command::TokioCommand;
use ne4_konfig::connection::TokioState;
use ne4_konfig::dispatcher::{Task, TokioThread};
use ne4_konfig::error::{CommError, ErrorKind};
use ne4_konfig::event::UiCommand;
use ne4_konfig::poller::{Phase, PollerRequest, RegisterPoller, READ_TIMEOUT_MS, REGISTER_COUNT};
use ne4_konfig::session::{SerialConfig, SessionRequest};

fn read(offset: u16) -> PollerRequest {
    PollerRequest::Read { offset, count: 1, timeout_ms: 3000 }
}

/// Runs one cycle against a device that answers the read at `offset` with `offset * 3 + 1`.
fn successful_cycle(poller: &mut RegisterPoller, length: u16) -> PollerRequest {
    let mut request = poller.begin_cycle(&TokioState::Connected);
    for offset in 0..length {
        assert_eq!(request, read(offset));
        assert_eq!(poller.phase(), Phase::Reading);
        request = poller.on_read(Ok(vec![offset * 3 + 1]));
    }
    request
}

#[test]
fn configured_constants() {
    assert_eq!(REGISTER_COUNT, 50);
    assert_eq!(READ_TIMEOUT_MS, 3000);
}

#[test]
fn new_poller_is_idle() {
    assert_eq!(RegisterPoller::new(REGISTER_COUNT).phase(), Phase::Idle);
}

#[test]
fn successful_cycle_publishes_one_frame_in_offset_order() {
    let mut poller = RegisterPoller::new(REGISTER_COUNT);
    let last = successful_cycle(&mut poller, REGISTER_COUNT);
    let expected: Vec<u16> = (0..50u16).map(|offset| offset * 3 + 1).collect();
    assert_eq!(expected.len(), 50);
    assert_eq!(last, PollerRequest::Publish(UiCommand::UpdateSensorValues(expected)));
    assert_eq!(poller.phase(), Phase::Idle);
}

#[test]
fn successful_cycle_for_several_frame_lengths() {
    for length in [1u16, 2, 3, 49, 50, 51, 300] {
        let mut poller = RegisterPoller::new(length);
        let last = successful_cycle(&mut poller, length);
        let expected: Vec<u16> = (0..length).map(|offset| offset * 3 + 1).collect();
        assert_eq!(last, PollerRequest::Publish(UiCommand::UpdateSensorValues(expected)));
    }
}

#[test]
fn frame_without_registers_is_published_at_once() {
    let mut poller = RegisterPoller::new(0);
    assert_eq!(
        poller.begin_cycle(&TokioState::Connected),
        PollerRequest::Publish(UiCommand::UpdateSensorValues(Vec::new()))
    );
    assert_eq!(poller.phase(), Phase::Idle);
}

#[test]
fn only_the_first_value_of_a_response_is_taken() {
    let mut poller = RegisterPoller::new(2);
    assert_eq!(poller.begin_cycle(&TokioState::Connected), read(0));
    assert_eq!(poller.on_read(Ok(vec![11, 12, 13])), read(1));
    assert_eq!(
        poller.on_read(Ok(vec![21, 22])),
        PollerRequest::Publish(UiCommand::UpdateSensorValues(vec![11, 21]))
    );
}

#[test]
fn cycles_follow_each_other_with_fresh_frames() {
    let mut poller = RegisterPoller::new(2);
    assert_eq!(poller.begin_cycle(&TokioState::Connected), read(0));
    assert_eq!(poller.on_read(Ok(vec![5])), read(1));
    assert_eq!(
        poller.on_read(Ok(vec![6])),
        PollerRequest::Publish(UiCommand::UpdateSensorValues(vec![5, 6]))
    );
    assert_eq!(poller.begin_cycle(&TokioState::Connected), read(0));
    assert_eq!(poller.on_read(Ok(vec![7])), read(1));
    assert_eq!(
        poller.on_read(Ok(vec![8])),
        PollerRequest::Publish(UiCommand::UpdateSensorValues(vec![7, 8]))
    );
}

#[test]
fn failed_read_names_the_offset_and_stops() {
    for k in [0u16, 1, 17, 49] {
        let mut poller = RegisterPoller::new(REGISTER_COUNT);
        let mut request = poller.begin_cycle(&TokioState::Connected);
        for offset in 0..k {
            assert_eq!(request, read(offset));
            request = poller.on_read(Ok(vec![offset]));
        }
        assert_eq!(request, read(k));
        let failed = poller.on_read(Err(CommError::new(
            ErrorKind::ProtocolError,
            "Illegal data address".to_string(),
        )));
        assert_eq!(
            failed,
            PollerRequest::Fail {
                event: UiCommand::Error(format!(
                    "Register {} konnte nicht gelesen werden: Illegal data address",
                    k
                )),
                command: TokioCommand::Disconnect,
            }
        );
        assert_eq!(poller.phase(), Phase::Stopped);
        // stopped for good: no read, no frame, whatever the connection state
        assert_eq!(poller.begin_cycle(&TokioState::Connected), PollerRequest::Stop);
        assert_eq!(poller.on_read(Ok(vec![1])), PollerRequest::Stop);
        assert_eq!(poller.phase(), Phase::Stopped);
    }
}

#[test]
fn failed_read_takes_the_connection_down_through_the_dispatcher() {
    let mut dispatcher = TokioThread::new();
    let _ = dispatcher.handle(TokioCommand::Connect);
    assert_eq!(dispatcher.state(), TokioState::Connected);

    let mut poller = RegisterPoller::new(3);
    assert_eq!(poller.begin_cycle(&dispatcher.state()), read(0));
    assert_eq!(poller.on_read(Ok(vec![1])), read(1));
    match poller.on_read(Err(CommError::timeout())) {
        PollerRequest::Fail { event, command } => {
            assert_eq!(
                event,
                UiCommand::Error(
                    "Register 1 konnte nicht gelesen werden: Timeout beim lesen aller Register"
                        .to_string()
                )
            );
            let tasks = dispatcher.handle(command);
            assert_eq!(
                tasks,
                vec![Task::Emit(UiCommand::EnableConnectUiElements), Task::ScanPorts]
            );
        }
        other => panic!("expected a failure, got {:?}", other),
    }
    assert_eq!(dispatcher.state(), TokioState::Disconnected);
}

#[test]
fn timeout_is_a_failure_of_its_own_kind() {
    let timeout = CommError::timeout();
    assert_eq!(timeout.kind, ErrorKind::ProtocolTimeout);
    assert_eq!(timeout.detail, "Timeout beim lesen aller Register");
}

#[test]
fn response_without_a_value_is_a_protocol_error() {
    let mut poller = RegisterPoller::new(4);
    assert_eq!(poller.begin_cycle(&TokioState::Connected), read(0));
    assert_eq!(poller.on_read(Ok(vec![9])), read(1));
    assert_eq!(
        poller.on_read(Ok(Vec::new())),
        PollerRequest::Fail {
            event: UiCommand::Error(
                "Register 1 konnte nicht gelesen werden: Antwort ohne Registerwert".to_string()
            ),
            command: TokioCommand::Disconnect,
        }
    );
    assert_eq!(poller.phase(), Phase::Stopped);
    let empty = CommError::empty_response();
    assert_eq!(empty.kind, ErrorKind::ProtocolError);
}

#[test]
fn poller_stops_at_the_boundary_when_disconnected() {
    let mut poller = RegisterPoller::new(REGISTER_COUNT);
    assert_eq!(poller.begin_cycle(&TokioState::Disconnected), PollerRequest::Stop);
    assert_eq!(poller.phase(), Phase::Stopped);
}

#[test]
fn result_that_nothing_asked_for_stops_the_poller() {
    let mut poller = RegisterPoller::new(REGISTER_COUNT);
    assert_eq!(poller.on_read(Ok(vec![1])), PollerRequest::Stop);
    assert_eq!(poller.phase(), Phase::Stopped);
}

#[test]
fn connect_then_poll_until_disconnect() {
    let mut dispatcher = TokioThread::new();
    let tasks = dispatcher.handle(TokioCommand::UpdateSensor(Some("COM3".to_string()), 247));
    assert_eq!(
        tasks,
        vec![
            Task::Emit(UiCommand::DisableConnectUiElements),
            Task::StartPoller(SessionRequest {
                line: SerialConfig { path: "COM3".to_string(), baud_rate: 9600 },
                slave: 247,
            }),
        ]
    );
    assert_eq!(dispatcher.state(), TokioState::Connected);

    let mut events: Vec<UiCommand> = vec![UiCommand::DisableConnectUiElements];
    let mut poller = RegisterPoller::new(REGISTER_COUNT);
    for _ in 0..3 {
        match successful_cycle(&mut poller, REGISTER_COUNT) {
            PollerRequest::Publish(event) => events.push(event),
            other => panic!("expected a frame, got {:?}", other),
        }
    }

    // The disconnect arrives while a cycle is under way: that cycle is finished.
    assert_eq!(poller.begin_cycle(&dispatcher.state()), read(0));
    let tasks = dispatcher.handle(TokioCommand::Disconnect);
    assert_eq!(
        tasks,
        vec![Task::Emit(UiCommand::EnableConnectUiElements), Task::ScanPorts]
    );
    let mut request = poller.on_read(Ok(vec![1]));
    for offset in 1..REGISTER_COUNT {
        assert_eq!(request, read(offset));
        request = poller.on_read(Ok(vec![offset * 3 + 1]));
    }
    match request {
        PollerRequest::Publish(event) => events.push(event),
        other => panic!("expected a frame, got {:?}", other),
    }

    // At the next boundary the poller sees the state and ends, with no further frame.
    assert_eq!(poller.begin_cycle(&dispatcher.state()), PollerRequest::Stop);
    assert_eq!(poller.phase(), Phase::Stopped);

    let frame: Vec<u16> = (0..50u16).map(|offset| offset * 3 + 1).collect();
    assert_eq!(events.len(), 5);
    assert_eq!(events[0], UiCommand::DisableConnectUiElements);
    for event in &events[1..] {
        assert_eq!(event, &UiCommand::UpdateSensorValues(frame.clone()));
    }
}
