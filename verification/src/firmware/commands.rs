//! The commands of the print life cycle and how they are applied, one at
//! a time.

use vstd::prelude::*;
use crate::config_types::SafetyLimits;
use crate::firmware::error::{FaultKind, FirmwareError, FirmwareErrorView};
use crate::firmware::executor::{Executor, ExecutorView};
use crate::firmware::limits::{limit_message, spec_limit_message};
use crate::firmware::safety::{EmergencyStopHandler, spec_emergency_actions};
use crate::firmware::scheduler::{Action, plan_view};
use crate::firmware::state::{
    FirmwareState, PressureStateView, Reading, SystemState, SystemStateView, ThermalStateView,
};
use crate::firmware::laws::{Step, state_step};
use crate::firmware::state_machine::Transition;

verus! {

/// A command to the engine.
#[derive(Debug, Clone, PartialEq, Eq)]
pub enum FirmwareCommand {
    /// Start the job of the given file, which holds `total_layers` layers.
    StartPrint { file_path: String, total_layers: u32 },
    /// Pause the job.
    PausePrint,
    /// Resume the paused job.
    ResumePrint,
    /// Cancel the job.
    CancelPrint,
    /// Stop everything and make the machine safe.
    EmergencyStop,
    /// Set the target temperature of a zone, in millidegrees Celsius.
    SetTemperature { zone_id: u8, target: i64 },
    /// Set the target pressure of a channel, in milli-PSI.
    SetPressure { channel_id: u8, target: i64 },
    /// Home the Z axis.
    HomeAxes,
}

/// A map of readings with the target of one entry set; an entry that is
/// new starts with a current value of zero.
pub open spec fn spec_with_target(m: Map<u8, Reading>, id: u8, target: i64) -> Map<u8, Reading> {
    m.insert(
        id,
        (
            if m.contains_key(id) {
                m[id].0
            } else {
                0
            },
            target,
        ),
    )
}

/// Why a target cannot be set, if it cannot: the machine is
/// emergency-stopped, or the target lies above the maximum.
pub open spec fn spec_target_refusal(
    s: SystemStateView,
    what: Seq<char>,
    target: i64,
    max: i64,
) -> Option<Seq<char>> {
    if s.firmware_state == FirmwareState::EmergencyStopped {
        Some("machine is emergency-stopped"@)
    } else if target > max {
        Some(spec_limit_message(what, target, max))
    } else {
        None
    }
}

fn with_target(m: &mut std::collections::HashMap<u8, Reading>, id: u8, target: i64)
    ensures
        final(m)@ == spec_with_target(old(m)@, id, target),
{
    let current: i64 = match m.get(&id) {
        Some(r) => r.0,
        None => 0,
    };
    m.insert(id, (current, target));
}

impl SystemStateView {
    /// The snapshot after the target temperature of a zone was set.
    pub open spec fn with_temperature(self, zone_id: u8, target: i64) -> SystemStateView {
        SystemStateView {
            thermal: ThermalStateView {
                zones: spec_with_target(self.thermal.zones, zone_id, target),
                all_at_target: false,
                ..self.thermal
            },
            ..self
        }
    }

    /// The snapshot after the target pressure of a channel was set.
    pub open spec fn with_pressure(self, channel_id: u8, target: i64) -> SystemStateView {
        SystemStateView {
            pressure: PressureStateView {
                channels: spec_with_target(self.pressure.channels, channel_id, target),
                all_stable: false,
                ..self.pressure
            },
            ..self
        }
    }
}

impl SystemState {
    /// Sets the target temperature of a zone. The request is refused, and
    /// nothing changes, while the machine is emergency-stopped and for a
    /// target above the maximum temperature.
    pub fn set_temperature(&mut self, zone_id: u8, target: i64, limits: &SafetyLimits) -> (r:
        Result<(), FirmwareError>)
        ensures
            match spec_target_refusal(
                old(self)@,
                "Temperature"@,
                target,
                limits.max_temperature,
            ) {
                Some(reason) => r is Err && r->Err_0@ == (FirmwareErrorView {
                    kind: FaultKind::InvalidCommand,
                    detail: reason,
                }) && final(self)@ == old(self)@,
                None => r is Ok && final(self)@ == old(self)@.with_temperature(zone_id, target),
            },
            final(self)@ == state_step(
                old(self)@,
                Step::SetTemperature { zone_id, target, max: limits.max_temperature },
            ),
            old(self)@.wf() ==> final(self)@.wf(),
    {
        if matches!(self.firmware_state, FirmwareState::EmergencyStopped) {
            return Err(
                FirmwareError::InvalidCommand(String::from_str("machine is emergency-stopped")),
            );
        }
        if target > limits.max_temperature {
            return Err(
                FirmwareError::InvalidCommand(
                    limit_message("Temperature", target, limits.max_temperature),
                ),
            );
        }
        with_target(&mut self.thermal.zones, zone_id, target);
        self.thermal.all_at_target = false;
        Ok(())
    }

    /// Sets the target pressure of a channel. The request is refused, and
    /// nothing changes, while the machine is emergency-stopped and for a
    /// target above the maximum pressure.
    pub fn set_pressure(&mut self, channel_id: u8, target: i64, limits: &SafetyLimits) -> (r:
        Result<(), FirmwareError>)
        ensures
            match spec_target_refusal(old(self)@, "Pressure"@, target, limits.max_pressure) {
                Some(reason) => r is Err && r->Err_0@ == (FirmwareErrorView {
                    kind: FaultKind::InvalidCommand,
                    detail: reason,
                }) && final(self)@ == old(self)@,
                None => r is Ok && final(self)@ == old(self)@.with_pressure(channel_id, target),
            },
            final(self)@ == state_step(
                old(self)@,
                Step::SetPressure { channel_id, target, max: limits.max_pressure },
            ),
            old(self)@.wf() ==> final(self)@.wf(),
    {
        if matches!(self.firmware_state, FirmwareState::EmergencyStopped) {
            return Err(
                FirmwareError::InvalidCommand(String::from_str("machine is emergency-stopped")),
            );
        }
        if target > limits.max_pressure {
            return Err(
                FirmwareError::InvalidCommand(
                    limit_message("Pressure", target, limits.max_pressure),
                ),
            );
        }
        with_target(&mut self.pressure.channels, channel_id, target);
        self.pressure.all_stable = false;
        Ok(())
    }
}

/// The fault with which a command is refused for the given reason.
pub open spec fn refused(reason: Seq<char>) -> FirmwareErrorView {
    FirmwareErrorView { kind: FaultKind::InvalidCommand, detail: reason }
}

/// The commands that wait to be applied, oldest first. Commands are
/// applied in the order in which they came, one at a time.
#[derive(Debug, Clone)]
pub struct CommandQueue {
    commands: Vec<FirmwareCommand>,
}

impl CommandQueue {
    /// The commands that wait, oldest first.
    pub closed spec fn pending(&self) -> Seq<FirmwareCommand> {
        self.commands@
    }

    /// An empty queue.
    pub fn new() -> (q: Self)
        ensures
            q.pending().len() == 0,
    {
        Self { commands: Vec::new() }
    }

    /// Adds a command after those that wait.
    pub fn push(&mut self, command: FirmwareCommand)
        ensures
            final(self).pending() == old(self).pending().push(command),
    {
        self.commands.push(command);
    }

    /// Takes the oldest command that waits.
    pub fn next(&mut self) -> (c: Option<FirmwareCommand>)
        ensures
            old(self).pending().len() == 0 ==> c.is_none() && final(self).pending().len() == 0,
            old(self).pending().len() > 0 ==> c == Some(old(self).pending()[0]) && final(
                self).pending() == old(self).pending().skip(1),
    {
        if self.commands.len() == 0 {
            None
        } else {
            let c = self.commands.remove(0);
            assert(self.commands@ =~= old(self).commands@.skip(1));
            Some(c)
        }
    }

    /// Number of commands that wait.
    pub fn len(&self) -> (n: usize)
        ensures
            n == self.pending().len(),
    {
        self.commands.len()
    }
}

/// Applies one command to the engine and gives the hardware operations
/// that the caller is to carry out at once: the four emergency actions for
/// an emergency stop, none for any other command. A command that is
/// refused changes nothing.
pub fn dispatch(
    command: FirmwareCommand,
    executor: &mut Executor,
    state: &mut SystemState,
    limits: &SafetyLimits,
    now_ms: u64,
) -> (r: Result<Vec<Action>, FirmwareError>)
    ensures
        old(state)@.wf() ==> final(state)@.wf(),
        match command {
            FirmwareCommand::StartPrint { file_path, total_layers } => match ExecutorView::start_refusal(
                old(state)@,
                total_layers,
            ) {
                Some(reason) => r is Err && r->Err_0@ == refused(reason) && final(state)@ == old(
                    state)@ && final(executor)@ == old(executor)@,
                None => r is Ok && r->Ok_0@.len() == 0 && final(state)@ == old(
                    state)@.job_started(file_path@, total_layers) && final(executor)@ == old(
                    executor)@.started(total_layers, now_ms),
            },
            FirmwareCommand::PausePrint => final(executor)@ == old(executor)@ && if old(
                state)@.firmware_state == FirmwareState::Printing {
                r is Ok && r->Ok_0@.len() == 0 && final(state)@ == old(state)@.in_mode(
                    FirmwareState::Paused,
                )
            } else {
                r is Err && r->Err_0@ == refused("nothing to pause"@) && final(state)@ == old(
                    state)@
            },
            FirmwareCommand::ResumePrint => final(executor)@ == old(executor)@ && if old(
                state)@.firmware_state == FirmwareState::Paused {
                r is Ok && r->Ok_0@.len() == 0 && final(state)@ == old(state)@.in_mode(
                    FirmwareState::Printing,
                )
            } else {
                r is Err && r->Err_0@ == refused("nothing to resume"@) && final(state)@ == old(
                    state)@
            },
            FirmwareCommand::CancelPrint => final(state)@ == old(state)@ && if old(
                state)@.firmware_state == FirmwareState::Printing {
                r is Ok && r->Ok_0@.len() == 0 && final(executor)@ == (ExecutorView {
                    cancel_requested: true,
                    ..old(executor)@
                })
            } else {
                r is Err && r->Err_0@ == refused("nothing to cancel"@) && final(executor)@ == old(
                    executor)@
            },
            FirmwareCommand::EmergencyStop => {
                &&& r is Ok
                &&& plan_view(r->Ok_0@) == spec_emergency_actions()
                &&& final(state)@ == old(state)@.tripped(
                    (FirmwareErrorView {
                        kind: FaultKind::SafetyViolation,
                        detail: "emergency stop requested"@,
                    }).promoted(now_ms),
                )
                &&& final(state)@.firmware_state == FirmwareState::EmergencyStopped
                &&& final(executor)@ == old(executor)@
            },
            FirmwareCommand::SetTemperature { zone_id, target } => final(executor)@ == old(
                executor)@ && match spec_target_refusal(
                old(state)@,
                "Temperature"@,
                target,
                limits.max_temperature,
            ) {
                Some(reason) => r is Err && r->Err_0@ == refused(reason) && final(state)@ == old(
                    state)@,
                None => r is Ok && r->Ok_0@.len() == 0 && final(state)@ == old(
                    state)@.with_temperature(zone_id, target),
            },
            FirmwareCommand::SetPressure { channel_id, target } => final(executor)@ == old(
                executor)@ && match spec_target_refusal(
                old(state)@,
                "Pressure"@,
                target,
                limits.max_pressure,
            ) {
                Some(reason) => r is Err && r->Err_0@ == refused(reason) && final(state)@ == old(
                    state)@,
                None => r is Ok && r->Ok_0@.len() == 0 && final(state)@ == old(
                    state)@.with_pressure(channel_id, target),
            },
            FirmwareCommand::HomeAxes => final(executor)@ == old(executor)@ && if old(
                state)@.firmware_state == FirmwareState::Idle {
                r is Ok && r->Ok_0@.len() == 0 && final(state)@ == old(state)@.in_mode(
                    FirmwareState::Homing,
                )
            } else {
                r is Err && r->Err_0@ == refused("printer is not idle"@) && final(state)@ == old(
                    state)@
            },
        },
{
    match command {
        FirmwareCommand::StartPrint { file_path, total_layers } => {
            match executor.start(state, file_path, total_layers, now_ms) {
                Ok(_) => Ok(Vec::new()),
                Err(e) => Err(e),
            }
        },
        FirmwareCommand::PausePrint => match executor.pause(state) {
            Ok(_) => Ok(Vec::new()),
            Err(e) => Err(e),
        },
        FirmwareCommand::ResumePrint => match executor.resume(state) {
            Ok(_) => Ok(Vec::new()),
            Err(e) => Err(e),
        },
        FirmwareCommand::CancelPrint => match executor.cancel(state) {
            Ok(_) => Ok(Vec::new()),
            Err(e) => Err(e),
        },
        FirmwareCommand::EmergencyStop => {
            let cause = FirmwareError::SafetyViolation(String::from_str("emergency stop requested"));
            state.emergency_stop(cause.promote(now_ms));
            Ok(EmergencyStopHandler::actions())
        },
        FirmwareCommand::SetTemperature { zone_id, target } => match state.set_temperature(
            zone_id,
            target,
            limits,
        ) {
            Ok(_) => Ok(Vec::new()),
            Err(e) => Err(e),
        },
        FirmwareCommand::SetPressure { channel_id, target } => match state.set_pressure(
            channel_id,
            target,
            limits,
        ) {
            Ok(_) => Ok(Vec::new()),
            Err(e) => Err(e),
        },
        FirmwareCommand::HomeAxes => {
            if state.transition(Transition::HomeRequested) {
                Ok(Vec::new())
            } else {
                Err(FirmwareError::InvalidCommand(String::from_str("printer is not idle")))
            }
        },
    }
}

} // verus!
