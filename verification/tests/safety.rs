use hypergcode::config_types::{PidParameters, SafetyLimits, ThermalConfig, ThermalZone};
use hypergcode::firmware::control::{
    pid_step, regulate, PidState, PressureLoop, Regulator, ThermalLoop,
};
use hypergcode::firmware::error::FirmwareError;
use hypergcode::firmware::limits::validate_command_safety;
use hypergcode::firmware::safety::{
    EmergencyStopHandler, SafetyMonitor, SafetyViolation, Sample, SensorReadings, ValveHealth,
};
use hypergcode::firmware::scheduler::Action;
use hypergcode::firmware::state::{ErrorSeverity, FirmwareState, SystemError, SystemState};
use hypergcode::firmware::state_machine::Transition;
use hypergcode::gcode_types::{
    Command, G4HCommand, G4LCommand, G4PCommand, G4SCommand, GridCoordinate,
};
use std::collections::HashMap;

fn limits() -> SafetyLimits {
    SafetyLimits {
        max_temperature: 300_000,
        max_pressure: 120_000,
        max_valve_rate: 20_000,
        max_z_speed: 15_000,
        thermal_runaway_rate: 10_000,
        pressure_fault_threshold: 10_000,
    }
}

fn healthy(x: u32, valve_id: u8) -> ValveHealth {
    ValveHealth {
        position: GridCoordinate::new(x, 0),
        valve_id,
        cycle_count: 1_000,
        avg_response_time_ms: 9_000,
        health_score: 950,
    }
}

fn check(
    state: &SystemState,
    now: &SensorReadings,
    before: &SensorReadings,
    elapsed_ms: u64,
    health: &Vec<ValveHealth>,
    motion_complete: bool,
) -> Option<SafetyViolation> {
    check_reached(&[], state, now, before, elapsed_ms, health, motion_complete)
}

/// Checks with a monitor that has seen the given channels at the given
/// targets.
fn check_reached(
    reached: &[(u8, i64)],
    state: &SystemState,
    now: &SensorReadings,
    before: &SensorReadings,
    elapsed_ms: u64,
    health: &Vec<ValveHealth>,
    motion_complete: bool,
) -> Option<SafetyViolation> {
    let sample = Sample { now, before, elapsed_ms, valve_health: health, motion_complete };
    let mut monitor = SafetyMonitor::new(limits());
    for (channel, target) in reached {
        monitor.reached.insert(*channel, *target);
    }
    monitor.check(state, &sample)
}

#[test]
fn a_quiet_machine_passes_every_check() {
    let state = SystemState::new();
    let mut now = SensorReadings::new();
    let mut before = SensorReadings::default();
    before.temperatures.insert(0, 200_000);
    now.temperatures.insert(0, 200_010);
    now.temperatures.insert(1, 300_000);
    now.pressures.insert(0, 120_000);
    let health = vec![healthy(0, 0), healthy(1, 1)];
    assert_eq!(check(&state, &now, &before, 1, &health, true), None);
}

#[test]
fn each_violation_is_found() {
    let mut state = SystemState::new();
    let quiet = SensorReadings::new();
    let none: Vec<ValveHealth> = vec![];

    let mut hot = SensorReadings::new();
    hot.temperatures.insert(3, 300_001);
    hot.temperatures.insert(9, 400_000);
    assert_eq!(
        check(&state, &hot, &quiet, 1, &none, true),
        Some(SafetyViolation::OverTemperature { zone: 3 })
    );

    // 11 millidegrees in one millisecond are 11 degrees per second.
    let mut before = SensorReadings::new();
    before.temperatures.insert(2, 200_000);
    let mut now = SensorReadings::new();
    now.temperatures.insert(2, 200_011);
    assert_eq!(
        check(&state, &now, &before, 1, &none, true),
        Some(SafetyViolation::ThermalRunaway { zone: 2 })
    );
    // The same change over two milliseconds is within the rate.
    assert_eq!(check(&state, &now, &before, 2, &none, true), None);
    // A fall is a change too.
    assert_eq!(
        check(&state, &before, &now, 1, &none, true),
        Some(SafetyViolation::ThermalRunaway { zone: 2 })
    );
    // No time elapsed means no rate.
    assert_eq!(check(&state, &now, &before, 0, &none, true), None);
    // Exactly the rate is no violation.
    now.temperatures.insert(2, 200_010);
    assert_eq!(check(&state, &now, &before, 1, &none, true), None);

    let mut high = SensorReadings::new();
    high.pressures.insert(1, 120_001);
    assert_eq!(
        check(&state, &high, &quiet, 1, &none, true),
        Some(SafetyViolation::OverPressure { channel: 1 })
    );

    let mut off = SensorReadings::new();
    off.pressures.insert(4, 34_999);
    state.pressure.channels.insert(4, (45_000, 45_000));
    // On the way to its target a channel is not at fault, whatever the
    // snapshot says of the stability of the pressures.
    assert_eq!(check(&state, &off, &quiet, 1, &none, true), None);
    state.pressure.all_stable = true;
    assert_eq!(check(&state, &off, &quiet, 1, &none, true), None);
    state.pressure.all_stable = false;
    // Once it has reached the target, a deviation beyond the threshold is.
    assert_eq!(
        check_reached(&[(4, 45_000)], &state, &off, &quiet, 1, &none, true),
        Some(SafetyViolation::PressureFault { channel: 4 })
    );
    // A target that was reached before the target changed does not count.
    assert_eq!(check_reached(&[(4, 40_000)], &state, &off, &quiet, 1, &none, true), None);
    assert_eq!(check_reached(&[(3, 45_000)], &state, &off, &quiet, 1, &none, true), None);
    off.pressures.insert(4, 35_000);
    assert_eq!(check_reached(&[(4, 45_000)], &state, &off, &quiet, 1, &none, true), None);

    let mut failed = healthy(7, 2);
    failed.health_score = 0;
    let health = vec![healthy(0, 0), failed, healthy(9, 1)];
    assert_eq!(
        check(&state, &quiet, &quiet, 1, &health, true),
        Some(SafetyViolation::ValveFailure { position: GridCoordinate::new(7, 0), valve_id: 2 })
    );

    assert_eq!(
        check(&state, &quiet, &quiet, 1, &none, false),
        Some(SafetyViolation::MotionFault)
    );
    state.motion.z_moving = true;
    assert_eq!(check(&state, &quiet, &quiet, 1, &none, false), None);
}

#[test]
fn violations_are_named_in_their_order() {
    let mut state = SystemState::new();
    state.pressure.channels.insert(0, (0, 0));
    let mut before = SensorReadings::new();
    before.temperatures.insert(5, 0);
    let mut now = SensorReadings::new();
    now.temperatures.insert(5, 1_000_000);
    now.pressures.insert(0, 500_000);
    let mut failed = healthy(1, 1);
    failed.health_score = -3;
    let health = vec![failed];
    assert_eq!(
        check_reached(&[(0, 0)], &state, &now, &before, 1, &health, false),
        Some(SafetyViolation::OverTemperature { zone: 5 })
    );
    now.temperatures.insert(5, 250_000);
    assert_eq!(
        check_reached(&[(0, 0)], &state, &now, &before, 1, &health, false),
        Some(SafetyViolation::ThermalRunaway { zone: 5 })
    );
    now.temperatures.clear();
    assert_eq!(
        check_reached(&[(0, 0)], &state, &now, &before, 1, &health, false),
        Some(SafetyViolation::OverPressure { channel: 0 })
    );
    now.pressures.insert(0, 100_000);
    assert_eq!(
        check_reached(&[(0, 0)], &state, &now, &before, 1, &health, false),
        Some(SafetyViolation::PressureFault { channel: 0 })
    );
}

#[test]
fn a_tick_with_a_violation_stops_the_machine() {
    let mut state = SystemState::new();
    state.transition(Transition::InitComplete);
    state.valves.open_valves = 4;
    state.thermal.zones.insert(0, (250_000, 235_000));
    let mut monitor = SafetyMonitor::new(limits());
    let quiet = SensorReadings::new();
    let none: Vec<ValveHealth> = vec![];
    let sample =
        Sample { now: &quiet, before: &quiet, elapsed_ms: 1, valve_health: &none, motion_complete: true };
    assert_eq!(monitor.tick(&mut state, &sample, 10), None);
    assert_eq!(state.firmware_state, FirmwareState::Idle);
    assert_eq!(state.valves.open_valves, 4);
    let mut hot = SensorReadings::new();
    hot.temperatures.insert(0, 300_500);
    let sample =
        Sample { now: &hot, before: &quiet, elapsed_ms: 1, valve_health: &none, motion_complete: true };
    assert_eq!(
        monitor.tick(&mut state, &sample, 11),
        Some(SafetyViolation::OverTemperature { zone: 0 })
    );
    assert_eq!(state.firmware_state, FirmwareState::EmergencyStopped);
    assert_eq!(state.valves.open_valves, 0);
    assert_eq!(state.thermal.zones.get(&0), Some(&(250_000, 0)));
    assert_eq!(state.errors.len(), 1);
    assert_eq!(state.errors[0].severity, ErrorSeverity::Critical);
    assert_eq!(state.errors[0].code, "SAFETY_VIOLATION");
    assert_eq!(
        state.errors[0].message,
        "Safety violation: temperature above maximum in zone 0"
    );
    assert_eq!(state.errors[0].timestamp, 11);
    // The next tick finds the violation again and records nothing new.
    assert!(monitor.tick(&mut state, &sample, 12).is_some());
    assert_eq!(state.errors.len(), 1);
}

fn pressure_sample(monitor: &mut SafetyMonitor, state: &mut SystemState, pressure: i64) -> Option<SafetyViolation> {
    let mut now = SensorReadings::new();
    now.pressures.insert(2, pressure);
    let quiet = SensorReadings::new();
    let none: Vec<ValveHealth> = vec![];
    let sample =
        Sample { now: &now, before: &quiet, elapsed_ms: 1, valve_health: &none, motion_complete: true };
    monitor.tick(state, &sample, 50)
}

#[test]
fn a_slow_drift_from_a_reached_target_is_a_pressure_fault() {
    let mut state = SystemState::new();
    state.transition(Transition::InitComplete);
    state.pressure.channels.insert(2, (0, 45_000));
    let mut monitor = SafetyMonitor::new(limits());
    // The channel climbs to its target: far from it, and no fault.
    assert_eq!(pressure_sample(&mut monitor, &mut state, 0), None);
    assert_eq!(pressure_sample(&mut monitor, &mut state, 20_000), None);
    assert!(monitor.reached.is_empty());
    assert_eq!(pressure_sample(&mut monitor, &mut state, 35_000), None);
    assert_eq!(monitor.reached.get(&2), Some(&45_000));
    assert_eq!(pressure_sample(&mut monitor, &mut state, 45_000), None);
    // It drifts away in small steps; the snapshot never called it stable.
    assert!(!state.pressure.all_stable);
    assert_eq!(pressure_sample(&mut monitor, &mut state, 49_000), None);
    assert_eq!(pressure_sample(&mut monitor, &mut state, 53_000), None);
    assert_eq!(pressure_sample(&mut monitor, &mut state, 55_000), None);
    assert_eq!(monitor.reached.get(&2), Some(&45_000));
    assert_eq!(state.firmware_state, FirmwareState::Idle);
    assert_eq!(
        pressure_sample(&mut monitor, &mut state, 55_001),
        Some(SafetyViolation::PressureFault { channel: 2 })
    );
    assert_eq!(state.firmware_state, FirmwareState::EmergencyStopped);
    assert_eq!(state.errors.len(), 1);
    assert_eq!(state.errors[0].message, "Safety violation: pressure fault in channel 2");
}

#[test]
fn a_new_pressure_target_starts_anew() {
    let mut state = SystemState::new();
    state.transition(Transition::InitComplete);
    state.pressure.channels.insert(2, (0, 45_000));
    let mut monitor = SafetyMonitor::new(limits());
    assert_eq!(pressure_sample(&mut monitor, &mut state, 45_000), None);
    assert_eq!(monitor.reached.get(&2), Some(&45_000));
    // The target moves: the channel is on its way again.
    state.pressure.channels.insert(2, (45_000, 90_000));
    assert_eq!(pressure_sample(&mut monitor, &mut state, 45_000), None);
    assert!(monitor.reached.is_empty());
    assert_eq!(pressure_sample(&mut monitor, &mut state, 82_000), None);
    assert_eq!(monitor.reached.get(&2), Some(&90_000));
    assert_eq!(
        pressure_sample(&mut monitor, &mut state, 79_000),
        Some(SafetyViolation::PressureFault { channel: 2 })
    );
}

#[test]
fn violations_describe_themselves() {
    let text = |v: SafetyViolation| v.fault().message();
    assert_eq!(
        text(SafetyViolation::ThermalRunaway { zone: 12 }),
        "Safety violation: thermal runaway in zone 12"
    );
    assert_eq!(
        text(SafetyViolation::OverPressure { channel: 3 }),
        "Safety violation: pressure above maximum in channel 3"
    );
    assert_eq!(
        text(SafetyViolation::PressureFault { channel: 0 }),
        "Safety violation: pressure fault in channel 0"
    );
    assert_eq!(
        text(SafetyViolation::ValveFailure { position: GridCoordinate::new(10, 255), valve_id: 2 }),
        "Safety violation: valve 2 failed at node 10,255"
    );
    assert_eq!(
        text(SafetyViolation::MotionFault),
        "Safety violation: Z axis moves without a move under way"
    );
}

#[test]
fn emergency_actions_are_attempted_independently() {
    let mut state = SystemState::new();
    state.firmware_state = FirmwareState::Printing;
    let mut handler = EmergencyStopHandler::new();
    let cause = SystemError {
        severity: ErrorSeverity::Info,
        code: "SAFETY_VIOLATION".to_string(),
        message: "operator".to_string(),
        affected_systems: vec![],
        recovery_action: Some("reset the machine".to_string()),
        timestamp: 1,
    };
    let actions = handler.trigger(&mut state, cause.clone());
    assert_eq!(
        actions,
        vec![Action::CloseAllValves, Action::StopMotion, Action::HeatersOff, Action::VentPressure]
    );
    assert_eq!(state.firmware_state, FirmwareState::EmergencyStopped);
    assert_eq!(state.errors[0].severity, ErrorSeverity::Critical);
    assert_eq!(state.errors[0].recovery_action, Some("reset the machine".to_string()));
    // The second action fails; the others are attempted all the same.
    handler.record(&mut state, "close all valves", true, 2);
    handler.record(&mut state, "stop motion", false, 3);
    handler.record(&mut state, "heaters off", true, 4);
    handler.record(&mut state, "vent pressure", true, 5);
    assert_eq!(handler.failed_actions, 1);
    assert_eq!(state.firmware_state, FirmwareState::EmergencyStopped);
    assert_eq!(state.errors.len(), 2);
    assert_eq!(state.errors[1].message, "Hardware operation failed: stop motion");
    // Triggering again hands out the actions again and records nothing new.
    assert_eq!(handler.trigger(&mut state, cause).len(), 4);
    assert_eq!(state.errors.len(), 2);
}

#[test]
fn commands_are_held_to_the_limits() {
    let refused = |m: &str| Err(FirmwareError::InvalidCommand(m.to_string()));
    let l = limits();
    let heat = |t| Command::G4H(G4HCommand { temperature: t, zone: None, wait: false });
    assert_eq!(validate_command_safety(&heat(300_000), &l), Ok(()));
    assert_eq!(
        validate_command_safety(&heat(300_500), &l),
        refused("Temperature 300.500 exceeds maximum 300.000")
    );
    let press = |p| Command::G4P(G4PCommand { pressure: p, material_channel: Some(1) });
    assert_eq!(validate_command_safety(&press(120_000), &l), Ok(()));
    assert_eq!(
        validate_command_safety(&press(150_000), &l),
        refused("Pressure 150.000 exceeds maximum 120.000")
    );
    let advance = |f| Command::G4L(G4LCommand { z_height: 1, feed_rate: f });
    assert_eq!(validate_command_safety(&advance(None), &l), Ok(()));
    assert_eq!(validate_command_safety(&advance(Some(15_000)), &l), Ok(()));
    assert_eq!(
        validate_command_safety(&advance(Some(15_001)), &l),
        refused("Z speed 15.001 exceeds maximum 15.000")
    );
    let speed = Command::G4S(G4SCommand { speed_percentage: i64::MAX, material_channel: None });
    assert_eq!(validate_command_safety(&speed, &l), Ok(()));
}

#[test]
fn pid_step_formula() {
    let params = PidParameters { kp: 2_000, ki: 500, kd: 100 };
    let mut state = PidState { integral: 0, last_error: 0 };
    // Error 10 000; integral 10 000 × 100 ms = 1 000; derivative 100 000.
    let raw = pid_step(&params, &mut state, 225_000, 235_000, 100);
    assert_eq!(state, PidState { integral: 1_000, last_error: 10_000 });
    assert_eq!(raw, 20_000 + 500 + 10_000);
    // The error falls: the derivative is negative.
    let raw = pid_step(&params, &mut state, 230_000, 235_000, 100);
    assert_eq!(state, PidState { integral: 1_500, last_error: 5_000 });
    assert_eq!(raw, 10_000 + 750 - 5_000);
    // No time elapsed: no derivative, no growth of the integral.
    let raw = pid_step(&params, &mut state, 236_000, 235_000, 0);
    assert_eq!(state, PidState { integral: 1_500, last_error: -1_000 });
    assert_eq!(raw, -2_000 + 750);
    // Quotients are rounded towards zero.
    let mut state = PidState { integral: 0, last_error: 0 };
    let raw = pid_step(&PidParameters { kp: 1, ki: 0, kd: 0 }, &mut state, 1_999, 0, 1);
    assert_eq!(raw, -1);
    assert_eq!(state, PidState { integral: -1, last_error: -1_999 });
}

#[test]
fn pid_step_survives_extreme_values() {
    let params = PidParameters { kp: i64::MAX, ki: i64::MIN, kd: i64::MAX };
    let mut state = PidState { integral: i64::MIN, last_error: i64::MAX };
    pid_step(&params, &mut state, i64::MAX, i64::MIN, u64::MAX);
    assert_eq!(state, PidState { integral: i64::MIN, last_error: i64::MIN });
    let mut state = PidState { integral: i64::MAX, last_error: i64::MIN };
    pid_step(&params, &mut state, i64::MIN, i64::MAX, 1);
    assert_eq!(state.last_error, i64::MAX);
    assert_eq!(state.integral, i64::MAX);
}

fn regulator(id: u8, max_output: i64) -> Regulator {
    Regulator {
        id,
        pid: PidParameters { kp: 2_000, ki: 0, kd: 0 },
        min_output: 0,
        max_output,
        state: PidState { integral: 0, last_error: 0 },
    }
}

#[test]
fn regulators_step_where_there_is_a_reading() {
    let mut regulators = vec![regulator(0, 40_000), regulator(1, 40_000), regulator(2, 5_000)];
    let mut values: HashMap<u8, (i64, i64)> = HashMap::new();
    values.insert(2, (225_000, 235_000));
    values.insert(0, (240_000, 235_000));
    let out = regulate(&mut regulators, &values, 100);
    // Too hot: no power. Too cold: the output is held at the power limit.
    assert_eq!(out, vec![(0, 0), (2, 5_000)]);
    assert_eq!(regulators[0].state.last_error, -5_000);
    assert_eq!(regulators[1].state, PidState { integral: 0, last_error: 0 });
    assert_eq!(regulators[2].state.last_error, 10_000);
}

#[test]
fn thermal_loop_reads_always_and_acts_unless_stopped() {
    let config = ThermalConfig {
        zones: vec![ThermalZone {
            id: 0,
            name: "manifold".to_string(),
            min_temp: 0,
            max_temp: 300_000,
            power_watts: 40_000,
            pid: PidParameters { kp: 1_000, ki: 0, kd: 0 },
        }],
        manifold: None,
        chamber: None,
    };
    let mut thermal = ThermalLoop::new(&config);
    assert_eq!(thermal.regulators.len(), 1);
    assert_eq!(thermal.regulators[0].max_output, 40_000);
    let mut state = SystemState::new();
    state.thermal.zones.insert(0, (20_000, 30_000));
    let mut fresh: HashMap<u8, i64> = HashMap::new();
    fresh.insert(0, 25_000);
    fresh.insert(6, 21_000);
    let out = thermal.tick(&mut state, &fresh, 100, 5_000);
    assert_eq!(out, vec![(0, 5_000)]);
    assert_eq!(state.thermal.zones.get(&0), Some(&(25_000, 30_000)));
    assert_eq!(state.thermal.zones.get(&6), Some(&(21_000, 0)));
    assert!(!state.thermal.all_at_target);
    fresh.insert(0, 29_000);
    fresh.insert(6, 1_000);
    assert_eq!(thermal.tick(&mut state, &fresh, 100, 5_000), vec![(0, 1_000)]);
    assert!(state.thermal.all_at_target);
    // Once emergency-stopped the loop goes on reading and stops acting.
    state.firmware_state = FirmwareState::EmergencyStopped;
    let before = thermal.regulators.clone();
    fresh.insert(0, 10_000);
    assert_eq!(thermal.tick(&mut state, &fresh, 100, 5_000), vec![]);
    assert_eq!(state.thermal.zones.get(&0), Some(&(10_000, 30_000)));
    assert_eq!(thermal.regulators, before);
}

#[test]
fn pressure_loop_stores_pressures_and_flows() {
    let mut regulator = regulator(1, 10_000);
    regulator.min_output = -10_000;
    let mut pressure = PressureLoop::new(vec![regulator]);
    let mut state = SystemState::new();
    state.pressure.channels.insert(1, (0, 45_000));
    state.pressure.flow_rates.insert(3, 7);
    let mut fresh: HashMap<u8, i64> = HashMap::new();
    fresh.insert(1, 46_000);
    let mut flows: HashMap<u8, i64> = HashMap::new();
    flows.insert(1, 1_250);
    let out = pressure.tick(&mut state, &fresh, &flows, 10, 2_000);
    assert_eq!(out, vec![(1, -2_000)]);
    assert_eq!(state.pressure.channels.get(&1), Some(&(46_000, 45_000)));
    assert_eq!(state.pressure.flow_rates.get(&1), Some(&1_250));
    assert_eq!(state.pressure.flow_rates.get(&3), Some(&7));
    assert!(state.pressure.all_stable);
    state.firmware_state = FirmwareState::EmergencyStopped;
    fresh.insert(1, 90_000);
    assert_eq!(pressure.tick(&mut state, &fresh, &flows, 10, 2_000), vec![]);
    assert_eq!(state.pressure.channels.get(&1), Some(&(90_000, 45_000)));
    assert!(!state.pressure.all_stable);
}

#[test]
fn pressure_commands_correct_the_targets() {
    let mut state = SystemState::new();
    state.pressure.channels.insert(0, (44_000, 45_000));
    state.pressure.channels.insert(1, (0, i64::MAX));
    let commands = PressureLoop::commands(&state, &vec![(0, -250), (1, 7), (9, 3)]);
    assert_eq!(commands, vec![(0, 44_750), (1, i64::MAX), (9, 3)]);
    let regulation = PressureLoop::for_channels(2, 120_000);
    assert_eq!(regulation.regulators.len(), 2);
    assert_eq!(regulation.regulators[1].id, 1);
    assert_eq!(regulation.regulators[1].min_output, -120_000);
    assert_eq!(regulation.regulators[1].max_output, 120_000);
    assert_eq!(regulation.regulators[0].pid, PidParameters::default());
    assert_eq!(PressureLoop::for_channels(1, -5).regulators[0].max_output, 0);
}
