use hypergcode::firmware::error::FirmwareError;
use hypergcode::firmware::limits::calculate_valve_update_rate;
use hypergcode::firmware::runtime::RuntimeConfig;
use hypergcode::firmware::state::{
    ErrorSeverity, FirmwareState, MotionState, PressureState, PrintStatus, SystemError,
    SystemState, ThermalState, ValveArrayState,
};
use hypergcode::firmware::state_machine::{StateMachine, Transition};

fn fault(severity: ErrorSeverity, code: &str) -> SystemError {
    SystemError {
        severity,
        code: code.to_string(),
        message: "something went wrong".to_string(),
        affected_systems: vec!["thermal".to_string()],
        recovery_action: None,
        timestamp: 1_700_000_000_000,
    }
}

#[test]
fn test_firmware_state_checks() {
    assert!(FirmwareState::Error.is_error());
    assert!(FirmwareState::EmergencyStopped.is_error());
    assert!(!FirmwareState::Idle.is_error());

    assert!(FirmwareState::Idle.is_ready());
    assert!(!FirmwareState::Printing.is_ready());

    assert!(FirmwareState::Printing.is_printing());
    assert!(!FirmwareState::Idle.is_printing());
}

#[test]
fn test_calculate_valve_update_rate() {
    let rate = calculate_valve_update_rate(1000, 1000);
    assert_eq!(rate, 1_000_000); // 1000 valves / 1 second

    let rate = calculate_valve_update_rate(100, 500);
    assert!((rate - 5_000_000).abs() < 10); // 500 valves / 0.1 seconds
}

#[test]
fn test_thermal_state_at_target() {
    let mut state = ThermalState::new();
    state.zones.insert(0, (235_000, 235_000));
    state.zones.insert(1, (234_500, 235_000));

    assert!(state.check_at_target(1_000)); // Within 1°C tolerance
    assert!(!state.check_at_target(100)); // Not within 0.1°C tolerance
}

#[test]
fn test_port_conflict_detection() {
    let printer_config = hypergcode::config_types::PrinterConfig {
        model: hypergcode::config_types::PrinterModel::Custom,
        build_volume: hypergcode::config_types::BuildVolume::new(100_000, 100_000, 150_000),
        valve_array: hypergcode::config_types::ValveArrayConfig {
            grid_spacing: 500,
            total_nodes: 40000,
            valves_per_node: 4,
            valve_type: hypergcode::config_types::ValveType::PneumaticSolenoid,
            response_time_ms: 10_000,
            dead_volume: 500,
            max_switching_freq: 10_000,
            injection_points: vec![],
        },
        thermal: hypergcode::config_types::ThermalConfig {
            zones: vec![],
            manifold: None,
            chamber: None,
        },
        materials: hypergcode::config_types::MaterialSystemConfig {
            channel_count: 1,
            isolated_channels: false,
            extruders: vec![],
            pressure: hypergcode::config_types::PressureConfig {
                min_pressure: 20_000,
                max_pressure: 100_000,
                regulation_type: hypergcode::config_types::PressureRegulationType::Pneumatic,
                sensors: vec![],
            },
        },
        motion: hypergcode::config_types::MotionConfig {
            z_axis: hypergcode::config_types::ZAxisConfig {
                lead_screw_pitch: 2_000,
                screw_count: 1,
                steps_per_mm: 400_000,
                max_speed: 10_000,
                max_acceleration: 100_000,
            },
            homing: hypergcode::config_types::HomingConfig {
                homing_speed: 5_000,
                home_to_max: false,
                home_at_startup: true,
            },
        },
        safety: hypergcode::config_types::SafetyLimits {
            max_temperature: 300_000,
            max_pressure: 120_000,
            max_valve_rate: 20_000,
            max_z_speed: 15_000,
            thermal_runaway_rate: 10_000,
            pressure_fault_threshold: 10_000,
        },
        metadata: hypergcode::config_types::PrinterMetadata {
            serial_number: None,
            firmware_version: None,
            last_calibration: None,
            notes: None,
        },
    };
    let mut config = RuntimeConfig {
        printer_config,
        websocket_port: 8080,
        api_port: 8081,
        network_enabled: true,
        simulation_mode: true,
        print_directory: "/var/hypergcode/prints".to_string(),
    };
    assert!(config.validate().is_ok());
    config.api_port = 8080;
    assert_eq!(
        config.validate(),
        Err(FirmwareError::Other("WebSocket and API ports cannot be the same".to_string()))
    );
}

#[test]
fn update_rate_is_zero_without_time_or_valves() {
    assert_eq!(calculate_valve_update_rate(0, 1000), 0);
    assert_eq!(calculate_valve_update_rate(1000, 0), 0);
    assert_eq!(calculate_valve_update_rate(1, usize::MAX), i64::MAX);
}

#[test]
fn thermal_check_counts_optional_readings() {
    let mut state = ThermalState::new();
    assert!(state.check_at_target(1));
    assert!(state.all_at_target);
    state.bed = Some((59_000, 60_000));
    assert!(!state.check_at_target(1_000));
    assert!(!state.all_at_target);
    assert!(state.check_at_target(1_001));
    state.manifold = Some((200_000, 200_000));
    state.chamber = Some((40_000, 45_000));
    assert!(!state.check_at_target(5_000));
    assert!(state.check_at_target(5_001));
    // A tolerance of zero admits nothing, not even an exact reading.
    state.chamber = None;
    state.bed = None;
    assert!(!state.check_at_target(0));
    assert!(!state.check_at_target(-5));
}

#[test]
fn thermal_check_survives_extreme_readings() {
    let mut state = ThermalState::new();
    state.zones.insert(7, (i64::MIN, i64::MAX));
    assert!(!state.check_at_target(i64::MAX));
    state.zones.insert(7, (i64::MAX, i64::MAX));
    assert!(state.check_at_target(1));
}

#[test]
fn cool_down_zeroes_every_target() {
    let mut state = ThermalState::new();
    state.zones.insert(0, (235_000, 235_000));
    state.zones.insert(200, (100_000, 240_000));
    state.bed = Some((60_000, 60_000));
    state.all_at_target = true;
    state.cool_down();
    assert_eq!(state.zones.get(&0), Some(&(235_000, 0)));
    assert_eq!(state.zones.get(&200), Some(&(100_000, 0)));
    assert_eq!(state.zones.len(), 2);
    assert_eq!(state.bed, Some((60_000, 0)));
    assert_eq!(state.manifold, None);
    assert!(!state.all_at_target);
}

#[test]
fn pressure_check_and_vent() {
    let mut state = PressureState::new();
    state.channels.insert(0, (50_000, 50_500));
    state.channels.insert(1, (48_100, 50_000));
    assert!(!state.check_stable(1_900));
    assert!(state.check_stable(1_901));
    assert!(state.all_stable);
    state.vent();
    assert!(!state.all_stable);
    assert_eq!(state.channels.get(&0), Some(&(50_000, 0)));
    assert_eq!(state.channels.get(&1), Some(&(48_100, 0)));
}

#[test]
fn print_status_progress_formula() {
    let mut status = PrintStatus::new("/prints/model.hg4d".to_string(), 3);
    assert_eq!(status.current_layer, 0);
    assert_eq!(status.progress_percent, 0);
    assert_eq!(status.z_position, 0);
    status.update_progress(2, 400);
    assert_eq!(status.current_layer, 2);
    assert_eq!(status.z_position, 400);
    assert_eq!(status.progress_percent, 66_666);
    status.update_progress(3, 600);
    assert_eq!(status.progress_percent, 100_000);
    let mut empty = PrintStatus::new("x".to_string(), 0);
    empty.update_progress(5, 1);
    assert_eq!(empty.progress_percent, 0);
}

#[test]
fn new_snapshot_is_initializing_and_clean() {
    let state = SystemState::new();
    assert_eq!(state.firmware_state, FirmwareState::Initializing);
    assert!(state.print_status.is_none());
    assert!(state.errors.is_empty());
    assert!(state.warnings.is_empty());
    assert_eq!(state.valves, ValveArrayState::new());
    assert_eq!(state.motion, MotionState::new());
    assert_eq!(ValveArrayState::default().open_valves, 0);
    assert!(!MotionState::default().z_homed);
}

#[test]
fn errors_are_empty_exactly_outside_the_fault_modes() {
    let mut state = SystemState::new();
    let check = |s: &SystemState| assert_eq!(s.errors.is_empty(), !s.firmware_state.is_error());
    check(&state);
    assert!(state.transition(Transition::InitComplete));
    check(&state);
    state.add_error(fault(ErrorSeverity::Info, "E1"));
    assert_eq!(state.firmware_state, FirmwareState::Error);
    check(&state);
    state.add_error(fault(ErrorSeverity::Critical, "E2"));
    assert_eq!(state.errors.len(), 2);
    check(&state);
    state.clear_errors();
    assert_eq!(state.firmware_state, FirmwareState::Idle);
    check(&state);
    state.emergency_stop(fault(ErrorSeverity::Warning, "TRIP"));
    assert_eq!(state.firmware_state, FirmwareState::EmergencyStopped);
    assert_eq!(state.errors.len(), 1);
    assert_eq!(state.errors[0].severity, ErrorSeverity::Critical);
    assert_eq!(state.errors[0].code, "TRIP");
    check(&state);
    // A normal error-clear does not leave an emergency stop.
    state.clear_errors();
    assert_eq!(state.firmware_state, FirmwareState::EmergencyStopped);
    assert_eq!(state.errors.len(), 1);
    check(&state);
    // A further fault is recorded, and the stronger mode stays.
    state.add_error(fault(ErrorSeverity::Error, "E3"));
    assert_eq!(state.firmware_state, FirmwareState::EmergencyStopped);
    assert_eq!(state.errors.len(), 2);
    check(&state);
    assert!(state.reset());
    assert_eq!(state.firmware_state, FirmwareState::Initializing);
    check(&state);
    assert!(!state.reset());
}

#[test]
fn emergency_stop_is_idempotent_and_makes_safe() {
    let mut state = SystemState::new();
    state.transition(Transition::InitComplete);
    state.thermal.zones.insert(0, (230_000, 235_000));
    state.pressure.channels.insert(2, (40_000, 45_000));
    state.valves.open_valves = 12;
    state.valves.active_nodes = 5;
    state.motion.z_moving = true;
    state.motion.z_position = 1_200;
    state.motion.z_target = 1_400;
    state.emergency_stop(fault(ErrorSeverity::Critical, "SAFETY_VIOLATION"));
    assert_eq!(state.firmware_state, FirmwareState::EmergencyStopped);
    assert_eq!(state.valves.open_valves, 0);
    assert_eq!(state.valves.active_nodes, 0);
    assert_eq!(state.thermal.zones.get(&0), Some(&(230_000, 0)));
    assert_eq!(state.pressure.channels.get(&2), Some(&(40_000, 0)));
    assert!(!state.motion.z_moving);
    assert_eq!(state.motion.z_target, 1_200);
    assert_eq!(state.errors.len(), 1);
    // The same cause again changes nothing.
    state.emergency_stop(fault(ErrorSeverity::Critical, "SAFETY_VIOLATION"));
    state.emergency_stop(fault(ErrorSeverity::Warning, "SAFETY_VIOLATION"));
    assert_eq!(state.errors.len(), 1);
    assert_eq!(state.valves.open_valves, 0);
    // Another cause is recorded beside the first, as a critical fault.
    state.emergency_stop(fault(ErrorSeverity::Warning, "AGAIN"));
    assert_eq!(state.firmware_state, FirmwareState::EmergencyStopped);
    assert_eq!(state.errors.len(), 2);
    assert_eq!(state.errors[0].code, "SAFETY_VIOLATION");
    assert_eq!(state.errors[1].code, "AGAIN");
    assert_eq!(state.errors[1].severity, ErrorSeverity::Critical);
    assert!(state.has_recorded(&fault(ErrorSeverity::Info, "AGAIN")));
    assert!(!state.has_recorded(&fault(ErrorSeverity::Critical, "OTHER")));
    state.emergency_stop(fault(ErrorSeverity::Critical, "AGAIN"));
    assert_eq!(state.errors.len(), 2);
}

#[test]
fn transition_table() {
    let (initializing, idle, homing, heating) = (
        FirmwareState::Initializing,
        FirmwareState::Idle,
        FirmwareState::Homing,
        FirmwareState::Heating,
    );
    let (printing, paused, error, stopped, shutting_down) = (
        FirmwareState::Printing,
        FirmwareState::Paused,
        FirmwareState::Error,
        FirmwareState::EmergencyStopped,
        FirmwareState::ShuttingDown,
    );
    assert_eq!(StateMachine::next(initializing, Transition::InitComplete), Some(idle));
    assert_eq!(StateMachine::next(idle, Transition::HomeRequested), Some(homing));
    assert_eq!(StateMachine::next(homing, Transition::HomeComplete), Some(idle));
    assert_eq!(StateMachine::next(idle, Transition::StartPrint), Some(heating));
    assert_eq!(StateMachine::next(heating, Transition::TargetsReached), Some(printing));
    assert_eq!(StateMachine::next(printing, Transition::Pause), Some(paused));
    assert_eq!(StateMachine::next(paused, Transition::Resume), Some(printing));
    assert_eq!(StateMachine::next(printing, Transition::Cancel), Some(idle));
    assert_eq!(StateMachine::next(printing, Transition::JobComplete), Some(idle));
    assert_eq!(StateMachine::next(error, Transition::ErrorsCleared), Some(idle));
    assert_eq!(StateMachine::next(stopped, Transition::Reset), Some(initializing));
    assert_eq!(StateMachine::next(idle, Transition::Shutdown), Some(shutting_down));
    let all = [
        initializing,
        idle,
        homing,
        heating,
        printing,
        paused,
        error,
        stopped,
        shutting_down,
    ];
    for from in all {
        assert_eq!(StateMachine::next(from, Transition::SafetyTrip), Some(stopped));
        if from == stopped {
            assert_eq!(StateMachine::next(from, Transition::Fault), None);
        } else {
            assert_eq!(StateMachine::next(from, Transition::Fault), Some(error));
        }
        if from != idle {
            assert_eq!(StateMachine::next(from, Transition::StartPrint), None);
        }
        if from != printing {
            assert_eq!(StateMachine::next(from, Transition::Pause), None);
            assert_eq!(StateMachine::next(from, Transition::Cancel), None);
        }
        if from != paused {
            assert_eq!(StateMachine::next(from, Transition::Resume), None);
        }
    }
}

#[test]
fn homing_sets_the_axis() {
    let mut state = SystemState::new();
    assert!(!state.homed());
    state.transition(Transition::InitComplete);
    assert!(state.transition(Transition::HomeRequested));
    assert_eq!(state.firmware_state, FirmwareState::Homing);
    assert!(!state.transition(Transition::HomeComplete));
    state.motion.z_position = 77;
    assert!(state.homed());
    assert_eq!(state.firmware_state, FirmwareState::Idle);
    assert!(state.motion.z_homed);
    assert_eq!(state.motion.z_position, 0);
}

#[test]
fn reported_faults_follow_the_policy() {
    let mut state = SystemState::new();
    state.transition(Transition::InitComplete);
    state.report(&FirmwareError::Communication("socket closed".to_string()), 5);
    assert_eq!(state.firmware_state, FirmwareState::Idle);
    assert_eq!(state.warnings, vec!["Communication error: socket closed".to_string()]);
    assert!(state.errors.is_empty());
    state.report(&FirmwareError::Timeout("wait".to_string()), 6);
    assert_eq!(state.firmware_state, FirmwareState::Error);
    assert_eq!(state.errors[0].code, "TIMEOUT");
    assert_eq!(state.errors[0].message, "Timeout: wait");
    assert_eq!(state.errors[0].severity, ErrorSeverity::Error);
    assert_eq!(state.errors[0].timestamp, 6);
    state.report(&FirmwareError::SafetyViolation("thermal runaway".to_string()), 7);
    assert_eq!(state.firmware_state, FirmwareState::EmergencyStopped);
    assert_eq!(state.errors[1].severity, ErrorSeverity::Critical);
    assert_eq!(state.errors[1].message, "Safety violation: thermal runaway");
}

#[test]
fn every_fault_kind_has_its_text() {
    let cases = vec![
        (FirmwareError::HardwareInit("a".to_string()), "Hardware initialization failed: a"),
        (FirmwareError::HardwareOperation("b".to_string()), "Hardware operation failed: b"),
        (FirmwareError::SafetyViolation("c".to_string()), "Safety violation: c"),
        (FirmwareError::InvalidCommand("d".to_string()), "Invalid command: d"),
        (FirmwareError::PrintExecution("e".to_string()), "Print execution error: e"),
        (FirmwareError::File("f".to_string()), "File error: f"),
        (FirmwareError::Communication("g".to_string()), "Communication error: g"),
        (FirmwareError::Timeout("h".to_string()), "Timeout: h"),
        (FirmwareError::Io("i".to_string()), "I/O error: i"),
        (FirmwareError::Other("j".to_string()), "Other error: j"),
    ];
    for (fault, text) in cases {
        assert_eq!(fault.message(), text);
    }
    assert_eq!(FirmwareState::EmergencyStopped.name(), "EmergencyStopped");
    assert_eq!(FirmwareState::Printing.name(), "Printing");
}
