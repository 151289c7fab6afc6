use hypergcode::config_types::{SafetyLimits, ValveArrayConfig, ValveType};
use hypergcode::firmware::commands::{dispatch, CommandQueue, FirmwareCommand};
use hypergcode::firmware::error::FirmwareError;
use hypergcode::firmware::executor::{Directive, EngineConfig, Executor, Outcome, Phase};
use hypergcode::firmware::scheduler::{Action, CommandScheduler, StreamLayer};
use hypergcode::firmware::state::{ErrorSeverity, FirmwareState, SystemError, SystemState};
use hypergcode::firmware::state_machine::Transition;
use hypergcode::gcode_types::{
    G4WCommand, GridCoordinate, Layer, NodeValveState, ValveState, WaitType,
};
use hypergcode::slicer::job_file::HG4DWriter;

fn valve_array() -> ValveArrayConfig {
    ValveArrayConfig {
        grid_spacing: 500,
        total_nodes: 40000,
        valves_per_node: 4,
        valve_type: ValveType::PneumaticSolenoid,
        response_time_ms: 10_000,
        dead_volume: 500,
        max_switching_freq: 10_000,
        injection_points: vec![],
    }
}

fn limits() -> SafetyLimits {
    SafetyLimits {
        max_temperature: 300_000,
        max_pressure: 120_000,
        max_valve_rate: 20_000,
        max_z_speed: 15_000,
        thermal_runaway_rate: 10_000,
        pressure_fault_threshold: 10_000,
    }
}

fn engine() -> (Executor, SystemState) {
    let scheduler = CommandScheduler::new(&valve_array(), 5_000);
    let executor = Executor::new(scheduler, EngineConfig::standard());
    let mut state = SystemState::new();
    assert!(state.transition(Transition::InitComplete));
    assert!(state.transition(Transition::HomeRequested));
    assert!(state.homed());
    (executor, state)
}

fn layer(number: u32, z: i64, nodes: u32) -> StreamLayer {
    let mut l = Layer::new(z, number);
    for i in 0..nodes {
        l.add_node(NodeValveState::new(
            GridCoordinate::new(i, number),
            vec![ValveState::open(0), ValveState::closed(1)],
        ));
    }
    StreamLayer { layer: l, barriers: vec![] }
}

fn cause() -> SystemError {
    SystemError {
        severity: ErrorSeverity::Critical,
        code: "SAFETY_VIOLATION".to_string(),
        message: "thermal runaway in zone 0".to_string(),
        affected_systems: vec![],
        recovery_action: None,
        timestamp: 9,
    }
}

/// Performs every operation that is handed out, with success, until the
/// executor asks for something else, and lists what was performed.
fn drive(executor: &mut Executor, state: &mut SystemState, now: u64) -> (Vec<Action>, Directive) {
    let mut performed = Vec::new();
    loop {
        match executor.poll(state, now) {
            Directive::Perform => {
                performed.push(executor.current_action().unwrap().clone());
                assert_eq!(executor.complete(state, Outcome::Done, now), Directive::Idle);
            }
            other => return (performed, other),
        }
    }
}

fn start_printing(executor: &mut Executor, state: &mut SystemState, layers: u32) {
    executor.start(state, "/prints/model.hg4d".to_string(), layers, 1_000).unwrap();
    assert_eq!(state.firmware_state, FirmwareState::Heating);
    let (performed, directive) = drive(executor, state, 1_500);
    assert_eq!(performed.len(), 1);
    assert_eq!(directive, Directive::NeedLayer { index: 0 });
    assert_eq!(state.firmware_state, FirmwareState::Printing);
}

fn kinds(actions: &[Action]) -> Vec<&'static str> {
    actions
        .iter()
        .map(|a| match a {
            Action::SetValves { .. } => "valves",
            Action::Wait { .. } => "wait",
            Action::AdvanceLayer { .. } => "advance",
            Action::HeatersOff => "heaters off",
            Action::VentPressure => "vent",
            Action::CloseAllValves => "close",
            Action::StopMotion => "stop",
        })
        .collect()
}

#[test]
fn three_layer_job_end_to_end() {
    let (mut executor, mut state) = engine();
    state.thermal.zones.insert(0, (235_000, 235_000));
    assert!(executor
        .start(&mut state, "/prints/model.hg4d".to_string(), 3, 1_000)
        .is_ok());
    // Starting reaches Heating, with fresh progress.
    assert_eq!(state.firmware_state, FirmwareState::Heating);
    assert_eq!(executor.phase(), Phase::Heating);
    let status = state.print_status.as_ref().unwrap();
    assert_eq!((status.current_layer, status.total_layers, status.progress_percent), (0, 3, 0));
    assert_eq!(status.file_path, "/prints/model.hg4d");
    // The first operation is the wait for the thermal targets.
    assert_eq!(executor.poll(&mut state, 1_000), Directive::Perform);
    match executor.current_action() {
        Some(Action::Wait { condition: WaitType::Temperature, timeout_ms }) => {
            assert_eq!(*timeout_ms, 600_000)
        }
        _ => panic!("the job does not start with the thermal wait"),
    }
    assert_eq!(state.firmware_state, FirmwareState::Heating);
    // Printing once the thermal targets are met.
    assert!(state.thermal.check_at_target(5_000));
    assert_eq!(executor.complete(&mut state, Outcome::Done, 2_000), Directive::Idle);
    assert_eq!(executor.poll(&mut state, 2_000), Directive::NeedLayer { index: 0 });
    assert_eq!(state.firmware_state, FirmwareState::Printing);

    // Layer 1: five active nodes.
    executor.feed_layer(&state, layer(0, 200, 5)).unwrap();
    let (performed, directive) = drive(&mut executor, &mut state, 3_000);
    assert_eq!(kinds(&performed), vec!["valves", "wait", "advance"]);
    assert_eq!(directive, Directive::Progress { current_layer: 1, progress_percent: 33_333 });
    assert_eq!(state.valves.active_nodes, 5);
    assert_eq!(state.valves.open_valves, 5);
    assert_eq!(state.valves.current_layer, 0);
    assert_eq!(state.motion.z_position, 200);
    assert_eq!(executor.poll(&mut state, 3_000), Directive::NeedLayer { index: 1 });

    // Layer 2: no active node, yet Z advances and the progress is published.
    executor.feed_layer(&state, layer(1, 400, 0)).unwrap();
    let (performed, directive) = drive(&mut executor, &mut state, 5_000);
    assert_eq!(kinds(&performed), vec!["advance"]);
    assert_eq!(directive, Directive::Progress { current_layer: 2, progress_percent: 66_666 });
    assert_eq!(state.motion.z_position, 400);
    let status = state.print_status.as_ref().unwrap();
    assert_eq!(status.current_layer, 2);
    assert_eq!(status.z_position, 400);
    assert_eq!(status.progress_percent, 66_666);
    assert_eq!(status.elapsed_time, 4_000);
    assert_eq!(status.estimated_remaining, 2_000);
    assert_eq!(executor.poll(&mut state, 5_000), Directive::NeedLayer { index: 2 });

    // Layer 3: five active nodes.
    executor.feed_layer(&state, layer(2, 600, 5)).unwrap();
    let (performed, directive) = drive(&mut executor, &mut state, 7_000);
    assert_eq!(kinds(&performed), vec!["valves", "wait", "advance"]);
    assert_eq!(directive, Directive::Progress { current_layer: 3, progress_percent: 100_000 });

    // Completion returns Idle, with the progress cleared.
    assert_eq!(executor.poll(&mut state, 7_000), Directive::Finished);
    assert_eq!(state.firmware_state, FirmwareState::Idle);
    assert!(state.print_status.is_none());
    assert_eq!(executor.phase(), Phase::Idle);
    assert_eq!(executor.poll(&mut state, 7_000), Directive::Idle);
    assert!(state.errors.is_empty());
}

#[test]
fn start_is_refused_unless_idle() {
    for mode in [
        FirmwareState::Initializing,
        FirmwareState::Homing,
        FirmwareState::Heating,
        FirmwareState::Printing,
        FirmwareState::Paused,
        FirmwareState::Error,
        FirmwareState::EmergencyStopped,
        FirmwareState::ShuttingDown,
    ] {
        let (mut executor, mut state) = engine();
        state.firmware_state = mode;
        state.valves.open_valves = 3;
        let before = format!("{:?} {:?}", state, executor);
        assert_eq!(
            executor.start(&mut state, "a.hg4d".to_string(), 3, 1),
            Err(FirmwareError::InvalidCommand("printer is not idle".to_string()))
        );
        assert_eq!(format!("{:?} {:?}", state, executor), before);
    }
}

#[test]
fn start_needs_a_homed_axis_and_layers() {
    let (mut executor, mut state) = engine();
    let before = format!("{:?} {:?}", state, executor);
    assert_eq!(
        executor.start(&mut state, "a.hg4d".to_string(), 0, 1),
        Err(FirmwareError::InvalidCommand("job has no layers".to_string()))
    );
    assert_eq!(format!("{:?} {:?}", state, executor), before);
    state.motion.z_homed = false;
    assert_eq!(
        executor.start(&mut state, "a.hg4d".to_string(), 2, 1),
        Err(FirmwareError::InvalidCommand("Z axis is not homed".to_string()))
    );
    assert_eq!(state.firmware_state, FirmwareState::Idle);
    assert!(state.print_status.is_none());
}

#[test]
fn pause_then_resume_holds_the_job() {
    let (mut executor, mut state) = engine();
    start_printing(&mut executor, &mut state, 3);
    executor.feed_layer(&state, layer(0, 200, 2)).unwrap();
    drive(&mut executor, &mut state, 2_000);
    assert_eq!(executor.poll(&mut state, 2_000), Directive::NeedLayer { index: 1 });
    executor.feed_layer(&state, layer(1, 400, 2)).unwrap();
    // The valve call of the second layer is applied, then the job is paused.
    assert_eq!(executor.poll(&mut state, 2_100), Directive::Perform);
    assert!(matches!(executor.current_action(), Some(Action::SetValves { .. })));
    assert_eq!(executor.complete(&mut state, Outcome::Done, 2_200), Directive::Idle);
    let pair = |s: &SystemState| {
        let p = s.print_status.as_ref().unwrap();
        (p.current_layer, p.z_position)
    };
    let before = pair(&state);
    let targets = format!("{:?} {:?}", state.thermal, state.pressure);
    let left = executor.steps_left();
    assert_eq!(before, (1, 200));
    executor.pause(&mut state).unwrap();
    assert_eq!(state.firmware_state, FirmwareState::Paused);
    // Nothing is handed out while paused, and nothing moves.
    assert_eq!(executor.poll(&mut state, 9_000), Directive::Idle);
    assert_eq!(executor.poll(&mut state, 9_500), Directive::Idle);
    assert_eq!(pair(&state), before);
    assert_eq!(format!("{:?} {:?}", state.thermal, state.pressure), targets);
    executor.resume(&mut state).unwrap();
    assert_eq!(state.firmware_state, FirmwareState::Printing);
    assert_eq!(pair(&state), before);
    assert_eq!(executor.steps_left(), left);
    // The rest of the layer follows, without a second valve call.
    let (performed, directive) = drive(&mut executor, &mut state, 10_000);
    assert_eq!(kinds(&performed), vec!["wait", "advance"]);
    assert_eq!(directive, Directive::Progress { current_layer: 2, progress_percent: 66_666 });
}

#[test]
fn pause_during_an_operation_keeps_the_progress() {
    let (mut executor, mut state) = engine();
    start_printing(&mut executor, &mut state, 2);
    executor.feed_layer(&state, layer(0, 200, 0)).unwrap();
    assert_eq!(executor.poll(&mut state, 2_000), Directive::Perform);
    assert!(matches!(executor.current_action(), Some(Action::AdvanceLayer { .. })));
    assert!(state.motion.z_moving);
    executor.pause(&mut state).unwrap();
    // The operation that was under way is completed; the progress waits.
    assert_eq!(executor.complete(&mut state, Outcome::Done, 2_500), Directive::Idle);
    assert!(!state.motion.z_moving);
    assert_eq!(state.motion.z_position, 200);
    assert_eq!(state.print_status.as_ref().unwrap().current_layer, 0);
    assert_eq!(executor.poll(&mut state, 3_000), Directive::Idle);
    executor.resume(&mut state).unwrap();
    assert_eq!(
        executor.poll(&mut state, 3_000),
        Directive::Progress { current_layer: 1, progress_percent: 50_000 }
    );
}

#[test]
fn lifecycle_requests_are_refused_out_of_turn() {
    let (mut executor, mut state) = engine();
    let refused = |m: &str| Err(FirmwareError::InvalidCommand(m.to_string()));
    assert_eq!(executor.pause(&mut state), refused("nothing to pause"));
    assert_eq!(executor.resume(&mut state), refused("nothing to resume"));
    assert_eq!(executor.cancel(&state), refused("nothing to cancel"));
    assert_eq!(state.firmware_state, FirmwareState::Idle);
    executor.start(&mut state, "a.hg4d".to_string(), 1, 0).unwrap();
    // Heating: nothing to pause or to cancel yet.
    assert_eq!(executor.pause(&mut state), refused("nothing to pause"));
    assert_eq!(executor.cancel(&state), refused("nothing to cancel"));
    assert_eq!(
        executor.feed_layer(&state, layer(0, 200, 1)),
        refused("no layer is expected")
    );
    drive(&mut executor, &mut state, 1);
    executor.pause(&mut state).unwrap();
    assert_eq!(executor.pause(&mut state), refused("nothing to pause"));
    assert_eq!(executor.cancel(&state), refused("nothing to cancel"));
    executor.resume(&mut state).unwrap();
    assert_eq!(executor.resume(&mut state), refused("nothing to resume"));
    // While the machine prints a cancellation is accepted, also a second
    // one, and so is a pause.
    executor.cancel(&state).unwrap();
    executor.cancel(&state).unwrap();
    assert_eq!(state.firmware_state, FirmwareState::Printing);
    executor.pause(&mut state).unwrap();
    assert_eq!(state.firmware_state, FirmwareState::Paused);
    assert_eq!(executor.cancel(&state), refused("nothing to cancel"));
}

fn ends_cooled_down(executor: &Executor, state: &SystemState) {
    assert_eq!(state.firmware_state, FirmwareState::Idle);
    assert!(state.print_status.is_none());
    assert!(state.thermal.zones.values().all(|r| r.1 == 0));
    assert!(state.pressure.channels.values().all(|r| r.1 == 0));
    assert_eq!(state.valves.open_valves, 0);
    assert_eq!(state.valves.active_nodes, 0);
    assert_eq!(executor.phase(), Phase::Idle);
}

#[test]
fn the_thermal_targets_are_reached_only_through_the_executor() {
    let (mut executor, mut state) = engine();
    state.thermal.zones.insert(0, (20_000, 235_000));
    executor.start(&mut state, "a.hg4d".to_string(), 2, 0).unwrap();
    // The snapshot does not take the request from anyone else.
    assert!(!state.transition(Transition::TargetsReached));
    assert_eq!(state.firmware_state, FirmwareState::Heating);
    // A wait that reports success while a zone is off its target is
    // handed out again.
    assert_eq!(executor.poll(&mut state, 1), Directive::Perform);
    assert_eq!(executor.complete(&mut state, Outcome::Done, 2), Directive::Idle);
    assert_eq!(state.firmware_state, FirmwareState::Heating);
    assert_eq!(executor.cancel(&state), Err(FirmwareError::InvalidCommand("nothing to cancel".to_string())));
    assert_eq!(executor.poll(&mut state, 3), Directive::Perform);
    assert!(matches!(
        executor.current_action(),
        Some(Action::Wait { condition: WaitType::Temperature, .. })
    ));
    state.thermal.zones.insert(0, (231_000, 235_000));
    assert_eq!(executor.complete(&mut state, Outcome::Done, 4), Directive::Idle);
    assert_eq!(state.firmware_state, FirmwareState::Printing);
    assert_eq!(executor.phase(), Phase::AwaitLayer);
    assert_eq!(executor.poll(&mut state, 5), Directive::NeedLayer { index: 0 });
    // From here a cancellation is accepted and ends idle.
    executor.cancel(&state).unwrap();
    let (performed, end) = drive(&mut executor, &mut state, 6);
    assert_eq!(kinds(&performed), vec!["heaters off", "vent", "close", "wait"]);
    assert_eq!(end, Directive::Finished);
    ends_cooled_down(&executor, &state);
    assert_eq!(state.thermal.zones.get(&0), Some(&(231_000, 0)));
}

#[test]
fn cancel_is_served_whatever_the_executor_holds() {
    // The machine prints, and the executor holds no job.
    let (mut executor, mut state) = engine();
    state.thermal.zones.insert(0, (235_000, 235_000));
    state.pressure.channels.insert(0, (45_000, 45_000));
    state.valves.open_valves = 3;
    state.valves.active_nodes = 2;
    state.firmware_state = FirmwareState::Printing;
    assert_eq!(executor.phase(), Phase::Idle);
    assert_eq!(executor.poll(&mut state, 1), Directive::Idle);
    executor.cancel(&state).unwrap();
    let (performed, end) = drive(&mut executor, &mut state, 2);
    assert_eq!(kinds(&performed), vec!["heaters off", "vent", "close", "wait"]);
    assert_eq!(end, Directive::Finished);
    ends_cooled_down(&executor, &state);
    assert_eq!(executor.poll(&mut state, 3), Directive::Idle);
}

#[test]
fn cancel_during_the_cooldown_runs_it_again() {
    let (mut executor, mut state) = engine();
    state.thermal.zones.insert(0, (235_000, 235_000));
    start_printing(&mut executor, &mut state, 2);
    executor.cancel(&state).unwrap();
    assert_eq!(executor.poll(&mut state, 1), Directive::Perform);
    assert_eq!(executor.phase(), Phase::Cooldown);
    assert_eq!(executor.complete(&mut state, Outcome::Done, 2), Directive::Idle);
    assert_eq!(executor.poll(&mut state, 3), Directive::Perform);
    // A second cancellation, with the venting under way.
    executor.cancel(&state).unwrap();
    assert_eq!(executor.poll(&mut state, 4), Directive::Idle);
    assert_eq!(executor.complete(&mut state, Outcome::Done, 5), Directive::Idle);
    let (performed, end) = drive(&mut executor, &mut state, 6);
    assert_eq!(kinds(&performed), vec!["heaters off", "vent", "close", "wait"]);
    assert_eq!(end, Directive::Finished);
    ends_cooled_down(&executor, &state);
}

#[test]
fn a_pause_holds_the_cooldown_too() {
    let (mut executor, mut state) = engine();
    state.thermal.zones.insert(0, (235_000, 235_000));
    start_printing(&mut executor, &mut state, 2);
    executor.cancel(&state).unwrap();
    assert_eq!(executor.poll(&mut state, 1), Directive::Perform);
    executor.pause(&mut state).unwrap();
    assert_eq!(state.firmware_state, FirmwareState::Paused);
    assert_eq!(executor.complete(&mut state, Outcome::Done, 2), Directive::Idle);
    assert_eq!(executor.poll(&mut state, 3), Directive::Idle);
    assert_eq!(executor.steps_left(), 3);
    executor.resume(&mut state).unwrap();
    let (performed, end) = drive(&mut executor, &mut state, 4);
    assert_eq!(kinds(&performed), vec!["vent", "close", "wait"]);
    assert_eq!(end, Directive::Finished);
    ends_cooled_down(&executor, &state);
}

fn cancel_and_check(nodes: u32, steps_before_cancel: usize, in_flight: bool) {
    let (mut executor, mut state) = engine();
    state.thermal.zones.insert(0, (235_000, 235_000));
    state.thermal.zones.insert(1, (236_000, 240_000));
    state.thermal.bed = Some((60_000, 60_000));
    state.pressure.channels.insert(0, (45_000, 45_000));
    start_printing(&mut executor, &mut state, 5);
    executor.feed_layer(&state, layer(0, 200, nodes)).unwrap();
    for _ in 0..steps_before_cancel {
        assert_eq!(executor.poll(&mut state, 2_000), Directive::Perform);
        executor.complete(&mut state, Outcome::Done, 2_000);
    }
    if in_flight {
        assert_eq!(executor.poll(&mut state, 2_000), Directive::Perform);
    }
    executor.cancel(&state).unwrap();
    assert_eq!(state.firmware_state, FirmwareState::Printing);
    if in_flight {
        // The operation that is under way is completed, never cut short.
        assert_eq!(executor.poll(&mut state, 2_100), Directive::Idle);
        assert_eq!(executor.complete(&mut state, Outcome::Done, 2_100), Directive::Idle);
    }
    let mut performed = Vec::new();
    let end = loop {
        let (p, d) = drive(&mut executor, &mut state, 3_000);
        performed.extend(p);
        match d {
            Directive::Progress { .. } => continue,
            other => break other,
        }
    };
    assert_eq!(kinds(&performed), vec!["heaters off", "vent", "close", "wait"]);
    assert_eq!(end, Directive::Finished);
    assert_eq!(state.firmware_state, FirmwareState::Idle);
    assert!(state.print_status.is_none());
    assert!(state.thermal.zones.values().all(|r| r.1 == 0));
    assert_eq!(state.thermal.bed, Some((60_000, 0)));
    assert!(state.pressure.channels.values().all(|r| r.1 == 0));
    assert_eq!(state.valves.open_valves, 0);
    assert_eq!(state.valves.active_nodes, 0);
    assert_eq!(executor.phase(), Phase::Idle);
    assert!(state.errors.is_empty());
}

#[test]
fn cancel_ends_idle_wherever_the_job_stands() {
    for nodes in [0u32, 4] {
        let steps = if nodes == 0 { 1 } else { 3 };
        for before in 0..steps {
            cancel_and_check(nodes, before, false);
            cancel_and_check(nodes, before, true);
        }
    }
}

#[test]
fn cancel_between_two_layers() {
    let (mut executor, mut state) = engine();
    start_printing(&mut executor, &mut state, 2);
    executor.cancel(&state).unwrap();
    let (performed, end) = drive(&mut executor, &mut state, 3_000);
    assert_eq!(kinds(&performed), vec!["heaters off", "vent", "close", "wait"]);
    match &performed[3] {
        Action::Wait { condition: WaitType::Duration(ms), timeout_ms } => {
            assert_eq!((*ms, *timeout_ms), (5_000, 5_000))
        }
        _ => panic!("the cooldown does not end with its settle time"),
    }
    assert_eq!(end, Directive::Finished);
    assert_eq!(state.firmware_state, FirmwareState::Idle);
}

#[test]
fn emergency_stop_wins_against_a_valve_call_under_way() {
    let (mut executor, mut state) = engine();
    start_printing(&mut executor, &mut state, 2);
    executor.feed_layer(&state, layer(0, 200, 3)).unwrap();
    assert_eq!(executor.poll(&mut state, 2_000), Directive::Perform);
    assert!(matches!(executor.current_action(), Some(Action::SetValves { .. })));
    // The safety supervisor trips while the valve call is under way.
    state.emergency_stop(cause());
    assert_eq!(state.firmware_state, FirmwareState::EmergencyStopped);
    assert_eq!(state.valves.open_valves, 0);
    // Nothing new is handed out, and the outcome of the call is answered
    // with the order to make the machine safe once more.
    assert_eq!(executor.poll(&mut state, 2_001), Directive::Idle);
    assert_eq!(executor.complete(&mut state, Outcome::Done, 2_002), Directive::MakeSafe);
    assert_eq!(state.firmware_state, FirmwareState::EmergencyStopped);
    assert_eq!(state.valves.open_valves, 0);
    assert!(state.print_status.is_none());
    assert_eq!(executor.phase(), Phase::Idle);
    assert_eq!(executor.poll(&mut state, 2_003), Directive::Idle);
    assert_eq!(state.errors.len(), 1);
    assert_eq!(state.errors[0].severity, ErrorSeverity::Critical);
}

#[test]
fn emergency_stop_between_two_operations_abandons_the_job() {
    for outcome in [Outcome::Done, Outcome::Failed, Outcome::TimedOut] {
        let (mut executor, mut state) = engine();
        start_printing(&mut executor, &mut state, 2);
        executor.feed_layer(&state, layer(0, 200, 3)).unwrap();
        assert_eq!(executor.poll(&mut state, 2_000), Directive::Perform);
        executor.complete(&mut state, Outcome::Done, 2_000);
        assert_eq!(state.valves.open_valves, 3);
        state.emergency_stop(cause());
        assert_eq!(state.valves.open_valves, 0);
        assert_eq!(executor.poll(&mut state, 2_001), Directive::Abandoned);
        assert_eq!(executor.complete(&mut state, outcome, 2_002), Directive::Idle);
        assert_eq!(executor.poll(&mut state, 2_003), Directive::Idle);
        assert_eq!(state.firmware_state, FirmwareState::EmergencyStopped);
        assert_eq!(state.valves.open_valves, 0);
    }
}

#[test]
fn emergency_stop_during_a_pause() {
    let (mut executor, mut state) = engine();
    start_printing(&mut executor, &mut state, 2);
    executor.pause(&mut state).unwrap();
    state.emergency_stop(cause());
    assert_eq!(state.firmware_state, FirmwareState::EmergencyStopped);
    assert_eq!(
        executor.resume(&mut state),
        Err(FirmwareError::InvalidCommand("nothing to resume".to_string()))
    );
    assert_eq!(executor.poll(&mut state, 1), Directive::Abandoned);
}

#[test]
fn failed_calls_are_retried_then_become_a_fault() {
    let (mut executor, mut state) = engine();
    start_printing(&mut executor, &mut state, 2);
    executor.feed_layer(&state, layer(0, 200, 1)).unwrap();
    for _ in 0..3 {
        assert_eq!(executor.poll(&mut state, 2_000), Directive::Perform);
        assert!(matches!(executor.current_action(), Some(Action::SetValves { .. })));
        assert_eq!(executor.complete(&mut state, Outcome::Failed, 2_000), Directive::Idle);
        assert_eq!(state.firmware_state, FirmwareState::Printing);
    }
    assert_eq!(executor.poll(&mut state, 2_000), Directive::Perform);
    assert_eq!(executor.complete(&mut state, Outcome::Failed, 2_500), Directive::Abandoned);
    assert_eq!(state.firmware_state, FirmwareState::Error);
    assert!(state.print_status.is_none());
    assert_eq!(state.errors.len(), 1);
    assert_eq!(state.errors[0].code, "HARDWARE_OPERATION");
    assert_eq!(state.errors[0].message, "Hardware operation failed: set valves");
    assert_eq!(state.errors[0].timestamp, 2_500);
    assert_eq!(executor.phase(), Phase::Idle);
    state.clear_errors();
    assert_eq!(state.firmware_state, FirmwareState::Idle);
}

#[test]
fn a_retry_that_succeeds_resets_the_count() {
    let (mut executor, mut state) = engine();
    start_printing(&mut executor, &mut state, 1);
    executor.feed_layer(&state, layer(0, 200, 1)).unwrap();
    for _ in 0..3 {
        executor.poll(&mut state, 2_000);
        executor.complete(&mut state, Outcome::Failed, 2_000);
    }
    executor.poll(&mut state, 2_000);
    assert_eq!(executor.complete(&mut state, Outcome::Done, 2_000), Directive::Idle);
    for _ in 0..3 {
        executor.poll(&mut state, 2_000);
        assert_eq!(executor.complete(&mut state, Outcome::Failed, 2_000), Directive::Idle);
    }
    assert_eq!(state.firmware_state, FirmwareState::Printing);
}

#[test]
fn a_wait_that_times_out_is_a_fault() {
    let (mut executor, mut state) = engine();
    executor.start(&mut state, "a.hg4d".to_string(), 1, 0).unwrap();
    assert_eq!(executor.poll(&mut state, 0), Directive::Perform);
    assert_eq!(executor.complete(&mut state, Outcome::TimedOut, 600_000), Directive::Abandoned);
    assert_eq!(state.firmware_state, FirmwareState::Error);
    assert_eq!(state.errors[0].code, "TIMEOUT");
    assert_eq!(state.errors[0].message, "Timeout: wait");
    assert!(state.print_status.is_none());
}

#[test]
fn barriers_of_the_stream_are_consumed_in_order() {
    let (mut executor, mut state) = engine();
    start_printing(&mut executor, &mut state, 1);
    let mut l = layer(0, 200, 0);
    l.barriers = vec![
        G4WCommand { wait_type: WaitType::Pressure, timeout_ms: Some(700) },
        G4WCommand { wait_type: WaitType::Duration(30), timeout_ms: None },
    ];
    executor.feed_layer(&state, l).unwrap();
    let (performed, directive) = drive(&mut executor, &mut state, 2_000);
    assert_eq!(kinds(&performed), vec!["wait", "wait", "advance"]);
    // A layer without nodes still advances the axis and the progress.
    assert_eq!(directive, Directive::Progress { current_layer: 1, progress_percent: 100_000 });
    assert_eq!(state.motion.z_position, 200);
    assert_eq!(state.valves.active_nodes, 0);
    match (&performed[0], &performed[1]) {
        (
            Action::Wait { condition: WaitType::Pressure, timeout_ms: a },
            Action::Wait { condition: WaitType::Duration(30), timeout_ms: b },
        ) => assert_eq!((*a, *b), (700, 5_000)),
        _ => panic!("the barriers were not planned as they came"),
    }
}

#[test]
fn layers_must_come_in_order() {
    let (mut executor, mut state) = engine();
    start_printing(&mut executor, &mut state, 3);
    executor.feed_layer(&state, layer(4, 200, 1)).unwrap();
    drive(&mut executor, &mut state, 2_000);
    executor.poll(&mut state, 2_000);
    assert_eq!(
        executor.feed_layer(&state, layer(4, 400, 1)),
        Err(FirmwareError::InvalidCommand("layer numbers must increase".to_string()))
    );
    // The job is aborted: the cooldown runs and the machine becomes idle.
    let (performed, end) = drive(&mut executor, &mut state, 3_000);
    assert_eq!(kinds(&performed), vec!["heaters off", "vent", "close", "wait"]);
    assert_eq!(end, Directive::Finished);
    assert_eq!(state.firmware_state, FirmwareState::Idle);
}

#[test]
fn plan_of_a_layer() {
    let scheduler = CommandScheduler::new(&valve_array(), 5_000);
    // The settle time: the larger of 10 ms and one period of 10 Hz.
    assert_eq!(scheduler.settle_time_ms(), 100);
    let plan = scheduler.plan_layer(layer(7, 1_400, 2));
    assert_eq!(kinds(&plan), vec!["valves", "wait", "advance"]);
    match &plan[0] {
        Action::SetValves { layer_number, nodes } => {
            assert_eq!(*layer_number, 7);
            assert_eq!(nodes.len(), 2);
            assert_eq!(nodes[1].position, GridCoordinate::new(1, 7));
        }
        _ => panic!("no valve call"),
    }
    match &plan[1] {
        Action::Wait { condition: WaitType::Duration(ms), timeout_ms } => {
            assert_eq!((*ms, *timeout_ms), (100, 100))
        }
        _ => panic!("no settle wait"),
    }
    match &plan[2] {
        Action::AdvanceLayer { layer_number, z_height } => {
            assert_eq!((*layer_number, *z_height), (7, 1_400))
        }
        _ => panic!("no layer advance"),
    }
}

#[test]
fn settle_time_formula() {
    let mut array = valve_array();
    array.response_time_ms = 250_000;
    assert_eq!(CommandScheduler::new(&array, 1).settle_time_ms(), 250);
    array.response_time_ms = 250_001;
    assert_eq!(CommandScheduler::new(&array, 1).settle_time_ms(), 251);
    array.response_time_ms = -5;
    array.max_switching_freq = 3_000;
    // One period of 3 Hz is 333.334 ms, rounded up.
    assert_eq!(CommandScheduler::new(&array, 1).settle_time_ms(), 334);
    array.max_switching_freq = 0;
    assert_eq!(CommandScheduler::new(&array, 1).settle_time_ms(), 0);
    array.response_time_ms = i64::MAX;
    assert_eq!(CommandScheduler::new(&array, 1).settle_time_ms(), u32::MAX);
}

#[test]
fn pattern_checksum_tells_patterns_apart() {
    let (mut executor, mut state) = engine();
    start_printing(&mut executor, &mut state, 3);
    let mut hashes = Vec::new();
    for (i, nodes) in [2u32, 3, 2].iter().enumerate() {
        let mut l = layer(0, 200 * (i as i64 + 1), *nodes);
        l.layer.layer_number = i as u32;
        executor.feed_layer(&state, l).unwrap();
        executor.poll(&mut state, 2_000);
        executor.complete(&mut state, Outcome::Done, 2_000 + i as u64);
        hashes.push(state.valves.pattern_hash);
        assert_eq!(state.valves.last_update, 2_000 + i as u64);
        drive(&mut executor, &mut state, 2_000);
        executor.poll(&mut state, 2_000);
    }
    assert_eq!(hashes[0], hashes[2]);
    assert_ne!(hashes[0], hashes[1]);
    assert_ne!(hashes[0], 0);
    assert!(hashes[0] <= u32::MAX as u64);
}

#[test]
fn commands_are_applied_one_at_a_time_in_order() {
    let (mut executor, mut state) = engine();
    let mut queue = CommandQueue::new();
    queue.push(FirmwareCommand::SetTemperature { zone_id: 0, target: 235_000 });
    queue.push(FirmwareCommand::SetTemperature { zone_id: 1, target: 300_001 });
    queue.push(FirmwareCommand::SetPressure { channel_id: 0, target: 45_000 });
    queue.push(FirmwareCommand::StartPrint { file_path: "a.hg4d".to_string(), total_layers: 2 });
    queue.push(FirmwareCommand::PausePrint);
    queue.push(FirmwareCommand::EmergencyStop);
    queue.push(FirmwareCommand::SetPressure { channel_id: 0, target: 1 });
    queue.push(FirmwareCommand::HomeAxes);
    assert_eq!(queue.len(), 8);
    let mut results = Vec::new();
    while let Some(c) = queue.next() {
        results.push(dispatch(c, &mut executor, &mut state, &limits(), 10));
    }
    assert_eq!(results[0], Ok(vec![]));
    assert_eq!(
        results[1],
        Err(FirmwareError::InvalidCommand(
            "Temperature 300.001 exceeds maximum 300.000".to_string()
        ))
    );
    assert_eq!(results[2], Ok(vec![]));
    assert_eq!(results[3], Ok(vec![]));
    assert_eq!(
        results[4],
        Err(FirmwareError::InvalidCommand("nothing to pause".to_string()))
    );
    assert_eq!(kinds(results[5].as_ref().unwrap()), vec!["close", "stop", "heaters off", "vent"]);
    assert_eq!(
        results[6],
        Err(FirmwareError::InvalidCommand("machine is emergency-stopped".to_string()))
    );
    assert_eq!(
        results[7],
        Err(FirmwareError::InvalidCommand("printer is not idle".to_string()))
    );
    assert_eq!(state.firmware_state, FirmwareState::EmergencyStopped);
    assert_eq!(state.thermal.zones.get(&0), Some(&(0, 0)));
    assert_eq!(state.thermal.zones.get(&1), None);
    assert_eq!(state.pressure.channels.get(&0), Some(&(0, 0)));
    assert_eq!(state.errors[0].message, "Safety violation: emergency stop requested");
}

#[test]
fn targets_are_set_below_the_limits() {
    let mut state = SystemState::new();
    state.thermal.zones.insert(0, (20_000, 0));
    state.thermal.all_at_target = true;
    state.set_temperature(0, 300_000, &limits()).unwrap();
    state.set_temperature(4, 100_000, &limits()).unwrap();
    assert_eq!(state.thermal.zones.get(&0), Some(&(20_000, 300_000)));
    assert_eq!(state.thermal.zones.get(&4), Some(&(0, 100_000)));
    assert!(!state.thermal.all_at_target);
    assert_eq!(
        state.set_pressure(0, 120_001, &limits()),
        Err(FirmwareError::InvalidCommand("Pressure 120.001 exceeds maximum 120.000".to_string()))
    );
    assert!(state.pressure.channels.is_empty());
    state.set_pressure(0, 120_000, &limits()).unwrap();
    assert_eq!(state.pressure.channels.get(&0), Some(&(0, 120_000)));
}

#[test]
fn a_job_read_from_its_file_is_printed() {
    let mut writer = HG4DWriter::create(b"model: cube").unwrap();
    for (i, nodes) in [5u32, 0, 5].iter().enumerate() {
        writer.write_layer(&layer(i as u32, 200 * (i as i64 + 1), *nodes).layer).unwrap();
    }
    let file = writer.finalize();
    let reader = hypergcode::slicer::job_file::HG4DReader::open(&file).unwrap();
    let (mut executor, mut state) = engine();
    start_printing(&mut executor, &mut state, reader.layer_count() as u32);
    let mut directive = Directive::NeedLayer { index: 0 };
    let mut advanced = Vec::new();
    while let Directive::NeedLayer { index } = directive {
        let entry = reader.entry(index as usize).unwrap();
        let l = reader.read_layer(entry.layer_number).unwrap();
        executor.feed_layer(&state, l).unwrap();
        let (performed, d) = drive(&mut executor, &mut state, 1);
        advanced.push((performed.len(), state.motion.z_position));
        assert!(matches!(d, Directive::Progress { .. }));
        directive = executor.poll(&mut state, 1);
    }
    assert_eq!(directive, Directive::Finished);
    assert_eq!(advanced, vec![(3, 200), (1, 400), (3, 600)]);
}

#[test]
fn a_wait_counts_only_if_the_snapshot_agrees() {
    let (mut executor, mut state) = engine();
    state.thermal.zones.insert(0, (200_000, 235_000));
    executor.start(&mut state, "a.hg4d".to_string(), 1, 0).unwrap();
    // The caller reports the thermal wait as satisfied, but the snapshot
    // shows a zone 35 degrees below its target: the wait is handed out again.
    assert_eq!(executor.poll(&mut state, 1), Directive::Perform);
    assert_eq!(executor.complete(&mut state, Outcome::Done, 2), Directive::Idle);
    assert_eq!(state.firmware_state, FirmwareState::Heating);
    assert_eq!(executor.poll(&mut state, 3), Directive::Perform);
    assert!(matches!(
        executor.current_action(),
        Some(Action::Wait { condition: WaitType::Temperature, .. })
    ));
    // Exactly the tolerance away is not within it.
    state.thermal.zones.insert(0, (230_000, 235_000));
    assert_eq!(executor.complete(&mut state, Outcome::Done, 4), Directive::Idle);
    assert_eq!(executor.poll(&mut state, 5), Directive::Perform);
    state.thermal.zones.insert(0, (230_001, 235_000));
    assert_eq!(executor.complete(&mut state, Outcome::Done, 6), Directive::Idle);
    assert_eq!(executor.poll(&mut state, 7), Directive::NeedLayer { index: 0 });
    assert_eq!(state.firmware_state, FirmwareState::Printing);
    // The same holds of a barrier that waits for the pressure.
    let mut l = layer(0, 200, 0);
    l.barriers = vec![G4WCommand { wait_type: WaitType::Pressure, timeout_ms: Some(700) }];
    executor.feed_layer(&state, l).unwrap();
    state.pressure.channels.insert(0, (40_000, 45_000));
    assert_eq!(executor.poll(&mut state, 8), Directive::Perform);
    assert_eq!(executor.complete(&mut state, Outcome::Done, 9), Directive::Idle);
    assert_eq!(executor.steps_left(), 2);
    state.pressure.channels.insert(0, (44_000, 45_000));
    assert_eq!(executor.poll(&mut state, 10), Directive::Perform);
    assert_eq!(executor.complete(&mut state, Outcome::Done, 11), Directive::Idle);
    assert_eq!(executor.steps_left(), 1);
}
