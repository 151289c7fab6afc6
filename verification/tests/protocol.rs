use hypergcode::firmware::state::{SystemState, ThermalState};
use hypergcode::protocol::{
    check_message_size, create_error_event, create_status_update, create_thermal_update,
    status_update_of, thermal_update_of, validate_message, CommandResponse, ErrorSeverity,
    MessageBroker, ProtocolError, ProtocolMessage, Published, StartPrintCommand, StatusUpdate,
    ThermalReading, ThermalZone, MAX_MESSAGE_SIZE,
};

#[test]
fn test_message_type_identification() {
    let status = ProtocolMessage::StatusUpdate(StatusUpdate {
        state: "Printing".to_string(),
        current_layer: 10,
        total_layers: 100,
        z_position: 2_000,
        progress_percent: 10_000,
        elapsed_time: 100,
        estimated_remaining: 900,
    });

    assert!(status.is_status());
    assert!(!status.is_command());
    assert_eq!(status.message_type(), "StatusUpdate");

    let start = ProtocolMessage::StartPrint(StartPrintCommand {
        file_path: "/path/to/file.hg4d".to_string(),
        start_layer: None,
    });

    assert!(start.is_command());
    assert!(!start.is_status());
}

#[test]
fn test_command_response() {
    let success = CommandResponse::success("Print started");
    assert!(success.success);
    assert!(success.error.is_none());

    let error = CommandResponse::error("File not found");
    assert!(!error.success);
    assert!(error.error.is_some());
}

#[test]
fn test_message_validation() {
    let valid = ProtocolMessage::StartPrint(StartPrintCommand {
        file_path: "/path/to/file.hg4d".to_string(),
        start_layer: None,
    });
    assert!(validate_message(&valid).is_ok());

    let invalid = ProtocolMessage::StartPrint(StartPrintCommand {
        file_path: String::new(),
        start_layer: None,
    });
    assert!(validate_message(&invalid).is_err());
}

#[test]
fn test_error_severity_levels() {
    let levels = vec![
        ErrorSeverity::Info,
        ErrorSeverity::Warning,
        ErrorSeverity::Error,
        ErrorSeverity::Critical,
    ];
    for level in levels {
        let event = create_error_event(level, "TEST", "Test error");
        if let ProtocolMessage::ErrorEvent(e) = event {
            assert_eq!(e.severity, level);
        }
    }
}

#[test]
fn command_response_keeps_its_text() {
    let ok = CommandResponse::success("Print started");
    assert_eq!(ok.message, "Print started");
    let failed = CommandResponse::error("File not found");
    assert_eq!(failed.message, "");
    assert_eq!(failed.error, Some("File not found".to_string()));
}

#[test]
fn validation_names_the_reason() {
    let invalid = ProtocolMessage::StartPrint(StartPrintCommand {
        file_path: String::new(),
        start_layer: Some(3),
    });
    assert_eq!(
        validate_message(&invalid),
        Err(ProtocolError::ValidationError("file_path cannot be empty".to_string()))
    );
    assert!(validate_message(&ProtocolMessage::EmergencyStop).is_ok());
    assert_eq!(check_message_size(MAX_MESSAGE_SIZE), Ok(()));
    assert_eq!(
        check_message_size(MAX_MESSAGE_SIZE + 1),
        Err(ProtocolError::MessageTooLarge(MAX_MESSAGE_SIZE + 1, MAX_MESSAGE_SIZE))
    );
}

#[test]
fn status_update_computes_progress() {
    match create_status_update("Printing", 50, 100, 10_000, 300, 300) {
        ProtocolMessage::StatusUpdate(u) => {
            assert_eq!(u.state, "Printing");
            assert_eq!(u.current_layer, 50);
            assert_eq!(u.progress_percent, 50_000);
            assert_eq!(u.z_position, 10_000);
            assert_eq!(u.elapsed_time, 300);
        }
        _ => panic!("Message type mismatch"),
    }
    match create_status_update("Idle", 1, 0, 0, 0, 0) {
        ProtocolMessage::StatusUpdate(u) => assert_eq!(u.progress_percent, 0),
        _ => panic!("Message type mismatch"),
    }
}

#[test]
fn thermal_update_keeps_the_order_of_its_zones() {
    match create_thermal_update(vec![(2, 1, 2), (0, 3, 4)]) {
        ProtocolMessage::ThermalUpdate(u) => {
            assert_eq!(
                u.zones,
                vec![
                    ThermalZone { id: 2, current: 1, target: 2 },
                    ThermalZone { id: 0, current: 3, target: 4 }
                ]
            );
            assert!(u.manifold.is_none() && u.bed.is_none() && u.chamber.is_none());
        }
        _ => panic!("Message type mismatch"),
    }
}

#[test]
fn every_message_has_its_name() {
    assert_eq!(ProtocolMessage::ResumePrint.message_type(), "ResumePrint");
    assert_eq!(ProtocolMessage::CancelPrint.message_type(), "CancelPrint");
    assert_eq!(ProtocolMessage::EmergencyStop.message_type(), "EmergencyStop");
    assert_eq!(ProtocolMessage::GetConfig.message_type(), "GetConfig");
    assert!(ProtocolMessage::EmergencyStop.is_command());
    assert!(!ProtocolMessage::GetConfig.is_command());
    assert!(!ProtocolMessage::GetConfig.is_status());
    let stamped = ProtocolMessage::GetConfig.with_timestamp(1_700_000_000);
    assert_eq!(stamped.timestamp, 1_700_000_000);
    assert_eq!(stamped.message.message_type(), "GetConfig");
}

#[test]
fn snapshots_become_status_messages() {
    let mut state = SystemState::new();
    assert!(status_update_of(&state).is_none());
    let mut status = hypergcode::firmware::state::PrintStatus::new("a.hg4d".to_string(), 3);
    status.update_progress(2, 400);
    status.elapsed_time = 61_999;
    status.estimated_remaining = 30_000;
    state.print_status = Some(status);
    state.firmware_state = hypergcode::firmware::state::FirmwareState::Printing;
    match status_update_of(&state) {
        Some(ProtocolMessage::StatusUpdate(u)) => {
            assert_eq!(u.state, "Printing");
            assert_eq!(u.current_layer, 2);
            assert_eq!(u.total_layers, 3);
            assert_eq!(u.progress_percent, 66_666);
            assert_eq!(u.z_position, 400);
            assert_eq!(u.elapsed_time, 61);
            assert_eq!(u.estimated_remaining, 30);
        }
        _ => panic!("no status update"),
    }
    let mut thermal = ThermalState::new();
    thermal.zones.insert(9, (1, 2));
    thermal.zones.insert(3, (5, 6));
    thermal.bed = Some((60_000, 61_000));
    state.thermal = thermal;
    match thermal_update_of(&state) {
        ProtocolMessage::ThermalUpdate(u) => {
            assert_eq!(
                u.zones,
                vec![
                    ThermalZone { id: 3, current: 5, target: 6 },
                    ThermalZone { id: 9, current: 1, target: 2 }
                ]
            );
            assert_eq!(u.bed, Some(ThermalReading { current: 60_000, target: 61_000 }));
            assert_eq!(u.manifold, None);
        }
        _ => panic!("no thermal update"),
    }
}

fn status(layer: u32) -> ProtocolMessage {
    create_status_update("Printing", layer, 10, 0, 0, 0)
}

fn layer_of(m: &ProtocolMessage) -> u32 {
    match m {
        ProtocolMessage::StatusUpdate(u) => u.current_layer,
        _ => panic!("not a status update"),
    }
}

#[test]
fn broker_never_blocks_and_keeps_the_latest_snapshot() {
    let mut broker = MessageBroker::with_capacity(3);
    assert_eq!(broker.publish(status(1)), Published::Queued);
    assert_eq!(broker.publish(create_error_event(ErrorSeverity::Error, "E", "m")), Published::Queued);
    assert_eq!(broker.publish(ProtocolMessage::GetConfig), Published::Queued);
    assert_eq!(broker.len(), 3);
    // Full: a status message takes the place of the latest one that waits.
    assert_eq!(broker.publish(status(2)), Published::Coalesced);
    assert_eq!(broker.publish(status(3)), Published::Coalesced);
    // Full: any other message is dropped.
    assert_eq!(
        broker.publish(create_error_event(ErrorSeverity::Error, "E2", "m")),
        Published::Dropped
    );
    assert_eq!(broker.len(), 3);
    let first = broker.take().unwrap();
    assert_eq!(layer_of(&first), 3);
    assert_eq!(broker.take().unwrap().message_type(), "ErrorEvent");
    assert_eq!(broker.take().unwrap().message_type(), "GetConfig");
    assert!(broker.take().is_none());
    let mut full = MessageBroker::with_capacity(1);
    assert_eq!(full.publish(ProtocolMessage::GetConfig), Published::Queued);
    assert_eq!(full.publish(status(1)), Published::Dropped);
    let mut none = MessageBroker::with_capacity(0);
    assert_eq!(none.publish(status(1)), Published::Dropped);
    assert_eq!(MessageBroker::new().len(), 0);
}

#[test]
fn faults_become_error_events() {
    let fault = hypergcode::firmware::state::SystemError {
        severity: hypergcode::firmware::state::ErrorSeverity::Critical,
        code: "SAFETY_VIOLATION".to_string(),
        message: "Safety violation: thermal runaway in zone 2".to_string(),
        affected_systems: vec!["thermal".to_string(), "valves".to_string()],
        recovery_action: Some("reset the machine".to_string()),
        timestamp: 5,
    };
    match hypergcode::protocol::error_event_of(&fault) {
        ProtocolMessage::ErrorEvent(e) => {
            assert_eq!(e.severity, ErrorSeverity::Critical);
            assert_eq!(e.code, "SAFETY_VIOLATION");
            assert_eq!(e.message, "Safety violation: thermal runaway in zone 2");
            assert_eq!(e.affected_systems, vec!["thermal".to_string(), "valves".to_string()]);
            assert_eq!(e.recommended_action, Some("reset the machine".to_string()));
        }
        _ => panic!("no error event"),
    }
}
