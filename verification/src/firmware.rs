//! The execution engine: operating modes, the system snapshot, scheduling of
//! one layer at a time, the print life cycle and the safety supervisor.

pub mod commands;
pub mod control;
pub mod error;
pub mod executor;
pub mod job;
pub mod laws;
pub mod limits;
pub mod runtime;
pub mod safety;
pub mod scheduler;
pub mod state;
pub mod state_machine;

pub use commands::{CommandQueue, FirmwareCommand, dispatch};
pub use control::{PidState, PressureLoop, Regulator, ThermalLoop};
pub use error::{FaultKind, FirmwareError};
pub use executor::{
    Directive, EngineConfig, Executor, Outcome, Phase, PRESSURE_CONTROL_INTERVAL_MS,
    PRESSURE_TOLERANCE, SAFETY_MONITOR_INTERVAL_MS, STATUS_BROADCAST_INTERVAL_MS,
    TEMP_TOLERANCE, THERMAL_CONTROL_INTERVAL_MS,
};
pub use limits::{calculate_valve_update_rate, validate_command_safety};
pub use runtime::RuntimeConfig;
pub use safety::{
    EmergencyStopHandler, SafetyMonitor, SafetyViolation, Sample, SensorReadings, ValveHealth,
};
pub use scheduler::{Action, CommandScheduler, StreamLayer};
pub use state::{
    ErrorSeverity, FirmwareState, MotionState, PressureState, PrintStatus, SystemError,
    SystemState, ThermalState, ValveArrayState,
};
pub use state_machine::{StateMachine, Transition};
