//! Drives a job layer by layer and implements its life cycle.
//!
//! The executor decides; its caller acts. [`Executor::poll`] says what to do
//! next, the caller performs the operation that
//! [`Executor::current_action`] names, and [`Executor::complete`] takes the
//! outcome. Requests to pause, resume or cancel are served between two
//! operations, never during one.

use vstd::prelude::*;
use crate::checksum::{pattern_hash, spec_pattern_hash};
use crate::firmware::error::{FaultKind, FirmwareError, FirmwareErrorView};
use crate::firmware::laws::{Step, step};
use crate::firmware::scheduler::{
    Action, ActionView, CommandScheduler, StreamLayer, StreamLayerView, plan_view,
};
use crate::firmware::state::{
    FirmwareState, MotionState, PrintStatus, PrintStatusView, SystemState, SystemStateView,
    ValveArrayState, spec_progress,
};
use crate::gcode_types::{
    WaitType, open_valves_of, spec_saturate, total_open,
};

verus! {

/// Default temperature tolerance, in millidegrees Celsius.
pub const TEMP_TOLERANCE: i64 = 5_000;

/// Default pressure tolerance, in milli-PSI.
pub const PRESSURE_TOLERANCE: i64 = 2_000;

/// Period of the status broadcast, in milliseconds.
pub const STATUS_BROADCAST_INTERVAL_MS: u64 = 100;

/// Period of the thermal control loop, in milliseconds.
pub const THERMAL_CONTROL_INTERVAL_MS: u64 = 100;

/// Period of the pressure control loop, in milliseconds.
pub const PRESSURE_CONTROL_INTERVAL_MS: u64 = 10;

/// Period of the safety monitor, in milliseconds.
pub const SAFETY_MONITOR_INTERVAL_MS: u64 = 1;

/// Tolerances, timeouts and loop periods of the engine.
#[derive(Debug, Clone, Copy, PartialEq, Eq, Structural)]
pub struct EngineConfig {
    /// Temperature tolerance, in millidegrees Celsius.
    pub temp_tolerance: i64,
    /// Pressure tolerance, in milli-PSI.
    pub pressure_tolerance: i64,
    /// Longest time to wait for the thermal targets before a job starts, in
    /// milliseconds.
    pub heating_timeout_ms: u32,
    /// Settle time after the cooldown of a cancelled job, in milliseconds.
    pub cooldown_settle_ms: u32,
    /// Timeout of a barrier that names none, in milliseconds.
    pub barrier_timeout_ms: u32,
    /// How often a failed hardware call is tried again before the failure
    /// becomes a fault.
    pub max_retries: u8,
    /// Period of the status broadcast, in milliseconds.
    pub status_interval_ms: u64,
    /// Period of the thermal control loop, in milliseconds.
    pub thermal_interval_ms: u64,
    /// Period of the pressure control loop, in milliseconds.
    pub pressure_interval_ms: u64,
    /// Period of the safety monitor, in milliseconds.
    pub safety_interval_ms: u64,
}

impl EngineConfig {
    /// The configuration with the default tolerances and loop periods.
    pub open spec fn spec_standard() -> EngineConfig {
        EngineConfig {
            temp_tolerance: 5_000,
            pressure_tolerance: 2_000,
            heating_timeout_ms: 600_000,
            cooldown_settle_ms: 5_000,
            barrier_timeout_ms: 5_000,
            max_retries: 3,
            status_interval_ms: 100,
            thermal_interval_ms: 100,
            pressure_interval_ms: 10,
            safety_interval_ms: 1,
        }
    }

    /// The configuration with the default tolerances and loop periods.
    pub fn standard() -> (c: Self)
        ensures
            c == Self::spec_standard(),
    {
        EngineConfig {
            temp_tolerance: TEMP_TOLERANCE,
            pressure_tolerance: PRESSURE_TOLERANCE,
            heating_timeout_ms: 600_000,
            cooldown_settle_ms: 5_000,
            barrier_timeout_ms: 5_000,
            max_retries: 3,
            status_interval_ms: STATUS_BROADCAST_INTERVAL_MS,
            thermal_interval_ms: THERMAL_CONTROL_INTERVAL_MS,
            pressure_interval_ms: PRESSURE_CONTROL_INTERVAL_MS,
            safety_interval_ms: SAFETY_MONITOR_INTERVAL_MS,
        }
    }
}

/// Where the executor stands in the life of a job.
#[derive(Debug, Clone, Copy, PartialEq, Eq, Structural)]
pub enum Phase {
    /// No job.
    Idle,
    /// Waiting for the thermal targets.
    Heating,
    /// Between two layers: the next layer is wanted.
    AwaitLayer,
    /// Working through the plan of a layer.
    Layer,
    /// Working through the cooldown of a cancelled job.
    Cooldown,
}

/// How an operation ended.
#[derive(Debug, Clone, Copy, PartialEq, Eq, Structural)]
pub enum Outcome {
    /// The hardware call succeeded, or the condition of the wait holds.
    Done,
    /// The hardware call failed.
    Failed,
    /// The timeout of the wait passed first.
    TimedOut,
}

/// What the caller of the executor is to do next.
#[derive(Debug, Clone, Copy, PartialEq, Eq, Structural)]
pub enum Directive {
    /// Nothing: no job, the job is paused, or an operation is under way.
    Idle,
    /// Perform the current action and report its outcome.
    Perform,
    /// Hand over the layer with this index in the job.
    NeedLayer { index: u32 },
    /// A layer was completed: publish the progress.
    Progress { current_layer: u32, progress_percent: i64 },
    /// The job ended, by completion or by cancellation; the machine is idle.
    Finished,
    /// The job was abandoned because the machine left the modes of a job.
    Abandoned,
    /// The machine is emergency-stopped: carry out the emergency actions
    /// once more.
    MakeSafe,
}

/// Mathematical value of an [`Executor`].
pub struct ExecutorView {
    pub scheduler: CommandScheduler,
    pub config: EngineConfig,
    pub phase: Phase,
    pub plan: Seq<ActionView>,
    pub cursor: int,
    pub in_flight: bool,
    pub retries: u8,
    pub total_layers: u32,
    pub layers_done: u32,
    pub last_layer: Option<u32>,
    pub layer_z: i64,
    pub started_at: u64,
    pub cancel_requested: bool,
}

/// The plan that a job starts with: one wait for the thermal targets.
pub open spec fn spec_heating_plan(config: EngineConfig) -> Seq<ActionView> {
    seq![
        ActionView::Wait {
            condition: WaitType::Temperature,
            timeout_ms: config.heating_timeout_ms,
        },
    ]
}

/// The cooldown of a cancelled job: heaters to zero, pressures to zero,
/// valves closed, then the settle time.
pub open spec fn spec_cooldown_plan(config: EngineConfig) -> Seq<ActionView> {
    seq![
        ActionView::HeatersOff,
        ActionView::VentPressure,
        ActionView::CloseAllValves,
        ActionView::Wait {
            condition: WaitType::Duration(config.cooldown_settle_ms),
            timeout_ms: config.cooldown_settle_ms,
        },
    ]
}

/// The operating modes that a phase of the executor goes with.
pub open spec fn mode_fits(phase: Phase, mode: FirmwareState) -> bool {
    match phase {
        Phase::Idle => true,
        Phase::Heating => mode == FirmwareState::Heating,
        Phase::AwaitLayer => mode == FirmwareState::Printing || mode == FirmwareState::Paused,
        Phase::Layer => mode == FirmwareState::Printing || mode == FirmwareState::Paused,
        Phase::Cooldown => mode == FirmwareState::Printing || mode == FirmwareState::Paused,
    }
}

/// What names an operation in the text of a fault.
pub open spec fn spec_action_name(a: ActionView) -> Seq<char> {
    match a {
        ActionView::SetValves { .. } => "set valves"@,
        ActionView::Wait { .. } => "wait"@,
        ActionView::AdvanceLayer { .. } => "advance layer"@,
        ActionView::HeatersOff => "heaters off"@,
        ActionView::VentPressure => "vent pressure"@,
        ActionView::CloseAllValves => "close all valves"@,
        ActionView::StopMotion => "stop motion"@,
    }
}

/// Time since the job started, zero should the clock have gone back.
pub open spec fn spec_elapsed(started_at: u64, now_ms: u64) -> u64 {
    if now_ms >= started_at {
        (now_ms - started_at) as u64
    } else {
        0
    }
}

/// Estimate of the time that remains: the mean time of the completed layers
/// for each layer still to come, held at `u64::MAX`.
pub open spec fn spec_remaining(elapsed: u64, done: u32, total: u32) -> u64 {
    if done == 0 || done >= total {
        0
    } else {
        let estimate = (elapsed as int / done as int) * (total as int - done as int);
        if estimate > u64::MAX {
            u64::MAX
        } else {
            estimate as u64
        }
    }
}

impl SystemStateView {
    /// The snapshot agrees that the condition of a wait holds: the
    /// temperatures are at their targets for a wait for the temperature,
    /// the pressures are stable for a wait for the pressure. Every other
    /// operation has no condition to agree on.
    pub open spec fn agrees(self, config: EngineConfig, action: ActionView) -> bool {
        match action {
            ActionView::Wait { condition: WaitType::Temperature, timeout_ms } => self.thermal.at_target(
                config.temp_tolerance,
            ),
            ActionView::Wait { condition: WaitType::Pressure, timeout_ms } => self.pressure.stable(
                config.pressure_tolerance,
            ),
            _ => true,
        }
    }

    /// The snapshot once `action` has been carried out at time `now_ms`.
    pub open spec fn after_action(self, action: ActionView, now_ms: u64) -> SystemStateView {
        match action {
            ActionView::SetValves { layer_number, nodes } => SystemStateView {
                valves: ValveArrayState {
                    current_layer: layer_number,
                    active_nodes: nodes.len() as usize,
                    open_valves: spec_saturate(total_open(nodes)) as usize,
                    pattern_hash: spec_pattern_hash(nodes),
                    last_update: now_ms,
                },
                ..self
            },
            ActionView::Wait { .. } => self,
            ActionView::AdvanceLayer { layer_number, z_height } => SystemStateView {
                motion: MotionState {
                    z_position: z_height,
                    z_target: z_height,
                    z_moving: false,
                    ..self.motion
                },
                ..self
            },
            ActionView::HeatersOff => SystemStateView { thermal: self.thermal.cooled(), ..self },
            ActionView::VentPressure => SystemStateView {
                pressure: self.pressure.vented(),
                ..self
            },
            ActionView::CloseAllValves => SystemStateView {
                valves: ValveArrayState { last_update: now_ms, ..self.valves.closed() },
                ..self
            },
            ActionView::StopMotion => SystemStateView { motion: self.motion.stopped(), ..self },
        }
    }

    /// The snapshot when `action` is handed out: a layer advance marks the
    /// Z axis as moving towards its target; nothing else changes.
    pub open spec fn on_issue(self, action: ActionView) -> SystemStateView {
        match action {
            ActionView::AdvanceLayer { layer_number, z_height } => SystemStateView {
                motion: MotionState { z_moving: true, z_target: z_height, ..self.motion },
                ..self
            },
            _ => self,
        }
    }

    /// The snapshot after a failed attempt of `action`: a layer advance no
    /// longer moves; nothing else changes.
    pub open spec fn on_failure(self, action: ActionView) -> SystemStateView {
        match action {
            ActionView::AdvanceLayer { .. } => SystemStateView {
                motion: MotionState { z_moving: false, ..self.motion },
                ..self
            },
            _ => self,
        }
    }

    /// The snapshot after a layer was completed: the progress of the job is
    /// recomputed.
    pub open spec fn with_progress(self, done: u32, z: i64, elapsed: u64) -> SystemStateView {
        match self.print_status {
            Some(p) => SystemStateView {
                print_status: Some(
                    PrintStatusView {
                        current_layer: done,
                        z_position: z,
                        progress_percent: spec_progress(done, p.total_layers) as i64,
                        elapsed_time: elapsed,
                        estimated_remaining: spec_remaining(elapsed, done, p.total_layers),
                        ..p
                    },
                ),
                ..self
            },
            None => self,
        }
    }

    /// The snapshot after a job was accepted: heating, with fresh progress.
    pub open spec fn job_started(self, file_path: Seq<char>, total_layers: u32) -> SystemStateView {
        SystemStateView {
            firmware_state: FirmwareState::Heating,
            print_status: Some(
                PrintStatusView {
                    current_layer: 0,
                    total_layers,
                    z_position: 0,
                    progress_percent: 0,
                    elapsed_time: 0,
                    estimated_remaining: 0,
                    file_path,
                },
            ),
            ..self
        }
    }
}

impl ExecutorView {
    /// What holds of every executor that the engine produces.
    pub open spec fn wf(self) -> bool {
        &&& 0 <= self.cursor <= self.plan.len()
        &&& self.in_flight ==> self.cursor < self.plan.len()
        &&& self.phase == Phase::Idle ==> self.plan.len() == 0
        &&& self.phase == Phase::AwaitLayer ==> self.plan.len() == 0
        &&& self.phase == Phase::Heating ==> self.plan == spec_heating_plan(self.config)
        &&& self.phase == Phase::Cooldown ==> self.plan == spec_cooldown_plan(self.config)
        &&& self.phase == Phase::Layer ==> self.plan.len() > 0 && (forall|i: int|
            1 <= i < self.plan.len() ==> !(#[trigger] self.plan[i]).sets_valves())
    }

    /// The executor without a job.
    pub open spec fn abandoned(self) -> ExecutorView {
        ExecutorView {
            phase: Phase::Idle,
            plan: Seq::empty(),
            cursor: 0,
            in_flight: false,
            retries: 0,
            cancel_requested: false,
            ..self
        }
    }

    /// The executor at the start of the cooldown, its first step handed out.
    pub open spec fn cooling(self) -> ExecutorView {
        ExecutorView {
            phase: Phase::Cooldown,
            plan: spec_cooldown_plan(self.config),
            cursor: 0,
            in_flight: true,
            retries: 0,
            cancel_requested: false,
            ..self
        }
    }

    /// An operation was handed out and its outcome is awaited.
    pub open spec fn under_way(self) -> bool {
        self.in_flight && self.phase != Phase::Idle && 0 <= self.cursor < self.plan.len()
    }

    /// The executor after it let go of a job whose mode the machine has
    /// left. A cancellation that waits is kept while the machine prints, so
    /// that the cooldown still runs.
    pub open spec fn released(self, s: SystemStateView) -> ExecutorView {
        ExecutorView {
            cancel_requested: self.cancel_requested && s.firmware_state
                == FirmwareState::Printing,
            ..self.abandoned()
        }
    }

    /// The executor after the thermal targets of its job were reached: the
    /// first layer is wanted.
    pub open spec fn heated(self) -> ExecutorView {
        ExecutorView {
            phase: Phase::AwaitLayer,
            plan: Seq::empty(),
            cursor: 0,
            in_flight: false,
            retries: 0,
            ..self
        }
    }

    /// The outcome `Done` of the current operation is taken as it is: the
    /// snapshot agrees with the condition of a wait, and while the job is
    /// heating every temperature lies within the tolerance of its target.
    pub open spec fn accepts(self, s: SystemStateView, action: ActionView) -> bool {
        s.agrees(self.config, action) && (self.phase == Phase::Heating ==> s.thermal.at_target(
            self.config.temp_tolerance,
        ))
    }

    /// The operations that are still to be handed out, in order.
    pub open spec fn remaining(self) -> Seq<ActionView> {
        if 0 <= self.cursor <= self.plan.len() {
            self.plan.skip(self.cursor)
        } else {
            Seq::empty()
        }
    }

    /// The operation that is handed out now, or would be handed out next.
    pub open spec fn current(self) -> Option<ActionView> {
        if 0 <= self.cursor < self.plan.len() {
            Some(self.plan[self.cursor])
        } else {
            None
        }
    }

    /// The fault that a failure of the current operation becomes.
    pub open spec fn fault(self, kind: FaultKind) -> FirmwareErrorView {
        FirmwareErrorView {
            kind,
            detail: match self.current() {
                Some(a) => spec_action_name(a),
                None => Seq::empty(),
            },
        }
    }

    /// One decision of the executor: the executor and the snapshot after
    /// it, and what the caller is to do. While an operation is under way
    /// nothing is decided. A cancellation that waits is served first,
    /// whatever the executor holds: the cooldown begins. Otherwise an
    /// executor without a job does nothing, a job whose mode the machine
    /// has left is abandoned, a paused job is held, and a job that runs
    /// gets its next operation, the close of its layer, the request for
    /// its next layer, or its end.
    pub open spec fn poll(self, s: SystemStateView, now_ms: u64) -> (
        ExecutorView,
        SystemStateView,
        Directive,
    ) {
        if self.under_way() {
            (self, s, Directive::Idle)
        } else if self.cancel_requested && s.firmware_state == FirmwareState::Printing {
            (self.cooling(), s, Directive::Perform)
        } else if self.phase == Phase::Idle {
            (self, s, Directive::Idle)
        } else if !mode_fits(self.phase, s.firmware_state) {
            (self.abandoned(), s, Directive::Abandoned)
        } else if s.firmware_state == FirmwareState::Paused {
            (self, s, Directive::Idle)
        } else if self.phase == Phase::AwaitLayer {
            if self.layers_done >= self.total_layers {
                (self.abandoned(), s.job_ended(), Directive::Finished)
            } else {
                (self, s, Directive::NeedLayer { index: self.layers_done })
            }
        } else if 0 <= self.cursor < self.plan.len() {
            (
                ExecutorView { in_flight: true, ..self },
                s.on_issue(self.plan[self.cursor]),
                Directive::Perform,
            )
        } else if self.phase == Phase::Heating {
            (
                ExecutorView {
                    plan: spec_heating_plan(self.config),
                    cursor: 0,
                    in_flight: true,
                    retries: 0,
                    ..self
                },
                s,
                Directive::Perform,
            )
        } else if self.phase == Phase::Layer {
            let done: u32 = if self.layers_done < u32::MAX {
                (self.layers_done + 1) as u32
            } else {
                self.layers_done
            };
            let after = s.with_progress(done, self.layer_z, spec_elapsed(self.started_at, now_ms));
            (
                ExecutorView {
                    phase: Phase::AwaitLayer,
                    plan: Seq::empty(),
                    cursor: 0,
                    in_flight: false,
                    retries: 0,
                    layers_done: done,
                    ..self
                },
                after,
                Directive::Progress {
                    current_layer: done,
                    progress_percent: match after.print_status {
                        Some(p) => p.progress_percent,
                        None => 0,
                    },
                },
            )
        } else {
            (self.abandoned(), s.job_ended(), Directive::Finished)
        }
    }

    /// The executor and the snapshot after the outcome of the operation
    /// that was handed out, and what the caller is to do.
    pub open spec fn complete(self, s: SystemStateView, outcome: Outcome, now_ms: u64) -> (
        ExecutorView,
        SystemStateView,
        Directive,
    ) {
        if !self.under_way() {
            (self, s, Directive::Idle)
        } else if s.firmware_state == FirmwareState::EmergencyStopped {
            (self.abandoned(), s, Directive::MakeSafe)
        } else if !mode_fits(self.phase, s.firmware_state) {
            (
                self.released(s),
                if outcome == Outcome::Done {
                    s.after_action(self.plan[self.cursor], now_ms)
                } else {
                    s.on_failure(self.plan[self.cursor])
                },
                Directive::Abandoned,
            )
        } else {
            let action = self.plan[self.cursor];
            match outcome {
                Outcome::Done => if !self.accepts(s, action) {
                    (ExecutorView { in_flight: false, ..self }, s, Directive::Idle)
                } else if self.phase == Phase::Heating {
                    (
                        self.heated(),
                        s.after_action(action, now_ms).in_mode(FirmwareState::Printing),
                        Directive::Idle,
                    )
                } else {
                    (
                        ExecutorView {
                            cursor: self.cursor + 1,
                            in_flight: false,
                            retries: 0,
                            ..self
                        },
                        s.after_action(action, now_ms),
                        Directive::Idle,
                    )
                },
                Outcome::Failed => if self.retries < self.config.max_retries {
                    (
                        ExecutorView {
                            in_flight: false,
                            retries: (self.retries + 1) as u8,
                            ..self
                        },
                        s.on_failure(action),
                        Directive::Idle,
                    )
                } else {
                    (
                        self.abandoned(),
                        s.on_failure(action).with_error(
                            self.fault(FaultKind::HardwareOperation).promoted(now_ms),
                        ),
                        Directive::Abandoned,
                    )
                },
                Outcome::TimedOut => (
                    self.abandoned(),
                    s.on_failure(action).with_error(self.fault(FaultKind::Timeout).promoted(now_ms)),
                    Directive::Abandoned,
                ),
            }
        }
    }

    /// Whether a job may start now, and if not, why.
    pub open spec fn start_refusal(s: SystemStateView, total_layers: u32) -> Option<Seq<char>> {
        if s.firmware_state != FirmwareState::Idle {
            Some("printer is not idle"@)
        } else if !s.motion.z_homed {
            Some("Z axis is not homed"@)
        } else if total_layers == 0 {
            Some("job has no layers"@)
        } else {
            None
        }
    }

    /// The executor after a job was accepted.
    pub open spec fn started(self, total_layers: u32, now_ms: u64) -> ExecutorView {
        ExecutorView {
            phase: Phase::Heating,
            plan: spec_heating_plan(self.config),
            cursor: 0,
            in_flight: false,
            retries: 0,
            total_layers,
            layers_done: 0,
            last_layer: None,
            layer_z: 0,
            started_at: now_ms,
            cancel_requested: false,
            ..self
        }
    }

    /// A layer is expected and the machine is printing.
    pub open spec fn expects_layer(self, s: SystemStateView) -> bool {
        &&& self.phase == Phase::AwaitLayer
        &&& s.firmware_state == FirmwareState::Printing
        &&& !self.cancel_requested
        &&& self.layers_done < self.total_layers
    }

    /// The number of the layer follows the numbers of the layers before it.
    pub open spec fn in_order(self, layer_number: u32) -> bool {
        match self.last_layer {
            Some(last) => layer_number > last,
            None => true,
        }
    }

    /// The executor after a layer was accepted.
    pub open spec fn fed(self, layer: StreamLayerView) -> ExecutorView {
        ExecutorView {
            phase: Phase::Layer,
            plan: self.scheduler.spec_plan_layer(layer),
            cursor: 0,
            in_flight: false,
            retries: 0,
            last_layer: Some(layer.layer.layer_number),
            layer_z: layer.layer.z_height,
            ..self
        }
    }
}

/// Drives a job layer by layer.
#[derive(Debug)]
pub struct Executor {
    scheduler: CommandScheduler,
    config: EngineConfig,
    phase: Phase,
    plan: Vec<Action>,
    cursor: usize,
    in_flight: bool,
    retries: u8,
    total_layers: u32,
    layers_done: u32,
    last_layer: Option<u32>,
    layer_z: i64,
    started_at: u64,
    cancel_requested: bool,
}

impl View for Executor {
    type V = ExecutorView;

    closed spec fn view(&self) -> ExecutorView {
        ExecutorView {
            scheduler: self.scheduler,
            config: self.config,
            phase: self.phase,
            plan: plan_view(self.plan@),
            cursor: self.cursor as int,
            in_flight: self.in_flight,
            retries: self.retries,
            total_layers: self.total_layers,
            layers_done: self.layers_done,
            last_layer: self.last_layer,
            layer_z: self.layer_z,
            started_at: self.started_at,
            cancel_requested: self.cancel_requested,
        }
    }
}

fn action_name(a: &Action) -> (s: String)
    ensures
        s@ == spec_action_name(a@),
{
    match a {
        Action::SetValves { .. } => String::from_str("set valves"),
        Action::Wait { .. } => String::from_str("wait"),
        Action::AdvanceLayer { .. } => String::from_str("advance layer"),
        Action::HeatersOff => String::from_str("heaters off"),
        Action::VentPressure => String::from_str("vent pressure"),
        Action::CloseAllValves => String::from_str("close all valves"),
        Action::StopMotion => String::from_str("stop motion"),
    }
}

fn remaining_of(elapsed: u64, done: u32, total: u32) -> (r: u64)
    ensures
        r == spec_remaining(elapsed, done, total),
{
    if done == 0 || done >= total {
        0
    } else {
        let per_layer: u64 = elapsed / (done as u64);
        let left: u64 = (total - done) as u64;
        match per_layer.checked_mul(left) {
            Some(v) => v,
            None => u64::MAX,
        }
    }
}

fn apply_action(state: &mut SystemState, action: &Action, now_ms: u64)
    ensures
        final(state)@ == old(state)@.after_action(action@, now_ms),
{
    match action {
        Action::SetValves { layer_number, nodes } => {
            state.valves = ValveArrayState {
                current_layer: *layer_number,
                active_nodes: nodes.len(),
                open_valves: open_valves_of(nodes),
                pattern_hash: pattern_hash(nodes),
                last_update: now_ms,
            };
        },
        Action::Wait { .. } => {},
        Action::AdvanceLayer { layer_number, z_height } => {
            state.motion.z_position = *z_height;
            state.motion.z_target = *z_height;
            state.motion.z_moving = false;
        },
        Action::HeatersOff => {
            state.thermal.cool_down();
        },
        Action::VentPressure => {
            state.pressure.vent();
        },
        Action::CloseAllValves => {
            state.valves.active_nodes = 0;
            state.valves.open_valves = 0;
            state.valves.pattern_hash = 0;
            state.valves.last_update = now_ms;
        },
        Action::StopMotion => {
            state.motion.z_moving = false;
            state.motion.z_target = state.motion.z_position;
        },
    }
}

fn agrees(state: &SystemState, config: &EngineConfig, action: &Action) -> (ok: bool)
    ensures
        ok == state@.agrees(*config, action@),
{
    match action {
        Action::Wait { condition: WaitType::Temperature, .. } => state.thermal.is_at_target(
            config.temp_tolerance,
        ),
        Action::Wait { condition: WaitType::Pressure, .. } => state.pressure.is_stable(
            config.pressure_tolerance,
        ),
        _ => true,
    }
}

fn note_issue(state: &mut SystemState, action: &Action)
    ensures
        final(state)@ == old(state)@.on_issue(action@),
{
    match action {
        Action::AdvanceLayer { layer_number, z_height } => {
            state.motion.z_moving = true;
            state.motion.z_target = *z_height;
        },
        _ => {},
    }
}

fn note_failure(state: &mut SystemState, action: &Action)
    ensures
        final(state)@ == old(state)@.on_failure(action@),
{
    match action {
        Action::AdvanceLayer { .. } => {
            state.motion.z_moving = false;
        },
        _ => {},
    }
}

fn end_job(state: &mut SystemState)
    ensures
        final(state)@ == old(state)@.job_ended(),
{
    state.firmware_state = FirmwareState::Idle;
    state.print_status = None;
}

fn record_progress(state: &mut SystemState, done: u32, z: i64, elapsed: u64) -> (percent: i64)
    ensures
        final(state)@ == old(state)@.with_progress(done, z, elapsed),
        percent == match final(state)@.print_status {
            Some(p) => p.progress_percent,
            None => 0,
        },
{
    match state.print_status.take() {
        Some(p) => {
            let mut status = p;
            status.update_progress(done, z);
            status.elapsed_time = elapsed;
            status.estimated_remaining = remaining_of(elapsed, done, status.total_layers);
            let percent = status.progress_percent;
            state.print_status = Some(status);
            percent
        },
        None => 0,
    }
}

fn heating_plan(config: &EngineConfig) -> (plan: Vec<Action>)
    ensures
        plan_view(plan@) == spec_heating_plan(*config),
{
    let mut plan: Vec<Action> = Vec::new();
    plan.push(
        Action::Wait { condition: WaitType::Temperature, timeout_ms: config.heating_timeout_ms },
    );
    assert(plan_view(plan@) =~= spec_heating_plan(*config));
    plan
}

fn refusal(reason: &str) -> (e: FirmwareError)
    ensures
        e@ == (FirmwareErrorView { kind: FaultKind::InvalidCommand, detail: reason@ }),
{
    FirmwareError::InvalidCommand(String::from_str(reason))
}

impl Executor {
    /// An executor without a job.
    pub fn new(scheduler: CommandScheduler, config: EngineConfig) -> (e: Self)
        ensures
            e@ == (ExecutorView {
                scheduler,
                config,
                phase: Phase::Idle,
                plan: Seq::empty(),
                cursor: 0,
                in_flight: false,
                retries: 0,
                total_layers: 0,
                layers_done: 0,
                last_layer: None,
                layer_z: 0,
                started_at: 0,
                cancel_requested: false,
            }),
            e@.wf(),
    {
        let e = Self {
            scheduler,
            config,
            phase: Phase::Idle,
            plan: Vec::new(),
            cursor: 0,
            in_flight: false,
            retries: 0,
            total_layers: 0,
            layers_done: 0,
            last_layer: None,
            layer_z: 0,
            started_at: 0,
            cancel_requested: false,
        };
        assert(plan_view(e.plan@) =~= Seq::empty());
        e
    }

    /// Where the executor stands in the life of a job.
    pub fn phase(&self) -> (p: Phase)
        ensures
            p == self@.phase,
    {
        self.phase
    }

    /// Number of layers completed in the current job.
    pub fn layers_done(&self) -> (n: u32)
        ensures
            n == self@.layers_done,
    {
        self.layers_done
    }

    /// True while an operation is handed out and its outcome is awaited.
    pub fn in_flight(&self) -> (b: bool)
        ensures
            b == self@.in_flight,
    {
        self.in_flight
    }

    /// Number of steps of the current plan that are still to be handed
    /// out.
    pub fn steps_left(&self) -> (n: usize)
        ensures
            n == self@.remaining().len(),
    {
        if self.cursor <= self.plan.len() {
            self.plan.len() - self.cursor
        } else {
            0
        }
    }

    /// The operation that was handed out and awaits its outcome.
    pub fn current_action(&self) -> (a: Option<&Action>)
        ensures
            match a {
                Some(action) => self@.in_flight && self@.current() == Some(action@),
                None => !self@.in_flight || self@.current().is_none(),
            },
    {
        if self.in_flight && self.cursor < self.plan.len() {
            Some(&self.plan[self.cursor])
        } else {
            None
        }
    }

    fn is_under_way(&self) -> (b: bool)
        ensures
            b == self@.under_way(),
    {
        self.in_flight && !matches!(self.phase, Phase::Idle) && self.cursor < self.plan.len()
    }

    fn abandon(&mut self)
        ensures
            final(self)@ == old(self)@.abandoned(),
    {
        self.phase = Phase::Idle;
        self.plan = Vec::new();
        self.cursor = 0;
        self.in_flight = false;
        self.retries = 0;
        self.cancel_requested = false;
        assert(plan_view(self.plan@) =~= Seq::empty());
    }

    fn begin_cooldown(&mut self)
        ensures
            final(self)@ == old(self)@.cooling(),
    {
        let mut plan: Vec<Action> = Vec::new();
        plan.push(Action::HeatersOff);
        plan.push(Action::VentPressure);
        plan.push(Action::CloseAllValves);
        plan.push(
            Action::Wait {
                condition: WaitType::Duration(self.config.cooldown_settle_ms),
                timeout_ms: self.config.cooldown_settle_ms,
            },
        );
        assert(plan_view(plan@) =~= spec_cooldown_plan(self.config));
        self.phase = Phase::Cooldown;
        self.plan = plan;
        self.cursor = 0;
        self.in_flight = true;
        self.retries = 0;
        self.cancel_requested = false;
    }

    fn fits(&self, mode: FirmwareState) -> (b: bool)
        ensures
            b == mode_fits(self@.phase, mode),
    {
        match self.phase {
            Phase::Idle => true,
            Phase::Heating => matches!(mode, FirmwareState::Heating),
            Phase::AwaitLayer => matches!(mode, FirmwareState::Printing | FirmwareState::Paused),
            Phase::Layer => matches!(mode, FirmwareState::Printing | FirmwareState::Paused),
            Phase::Cooldown => matches!(mode, FirmwareState::Printing | FirmwareState::Paused),
        }
    }

    /// Starts a job of `total_layers` layers. The job is refused, and
    /// nothing changes, unless the machine is idle, the Z axis is homed and
    /// the job has at least one layer. An accepted job puts the machine
    /// into `Heating` with fresh progress; the first operation is the wait
    /// for the thermal targets.
    pub fn start(
        &mut self,
        state: &mut SystemState,
        file_path: String,
        total_layers: u32,
        now_ms: u64,
    ) -> (r: Result<(), FirmwareError>)
        ensures
            match ExecutorView::start_refusal(old(state)@, total_layers) {
                Some(reason) => {
                    &&& r is Err
                    &&& r->Err_0@ == (FirmwareErrorView {
                        kind: FaultKind::InvalidCommand,
                        detail: reason,
                    })
                    &&& final(state)@ == old(state)@
                    &&& final(self)@ == old(self)@
                },
                None => {
                    &&& r is Ok
                    &&& final(state)@ == old(state)@.job_started(file_path@, total_layers)
                    &&& final(self)@ == old(self)@.started(total_layers, now_ms)
                },
            },
            old(state)@.wf() ==> final(state)@.wf(),
            r is Ok ==> final(self)@.wf(),
            (final(self)@, final(state)@) == step(
                old(self)@,
                old(state)@,
                Step::Start { file_path: file_path@, total_layers, now_ms },
            ),
    {
        if !state.firmware_state.is_ready() {
            return Err(refusal("printer is not idle"));
        }
        if !state.motion.z_homed {
            return Err(refusal("Z axis is not homed"));
        }
        if total_layers == 0 {
            return Err(refusal("job has no layers"));
        }
        state.firmware_state = FirmwareState::Heating;
        state.print_status = Some(PrintStatus::new(file_path, total_layers));
        let plan = heating_plan(&self.config);
        self.phase = Phase::Heating;
        self.plan = plan;
        self.cursor = 0;
        self.in_flight = false;
        self.retries = 0;
        self.total_layers = total_layers;
        self.layers_done = 0;
        self.last_layer = None;
        self.layer_z = 0;
        self.started_at = now_ms;
        self.cancel_requested = false;
        Ok(())
    }

    /// Hands over the next layer of the job. The layer is refused, and
    /// nothing changes, unless the executor asked for a layer and the
    /// machine is printing. A layer whose number does not follow the
    /// numbers before it is refused too, and the job is aborted: the next
    /// decision starts the cooldown.
    pub fn feed_layer(&mut self, state: &SystemState, layer: StreamLayer) -> (r: Result<
        (),
        FirmwareError,
    >)
        ensures
            !old(self)@.expects_layer(state@) ==> {
                &&& r is Err
                &&& r->Err_0@ == (FirmwareErrorView {
                    kind: FaultKind::InvalidCommand,
                    detail: "no layer is expected"@,
                })
                &&& final(self)@ == old(self)@
            },
            old(self)@.expects_layer(state@) && !old(self)@.in_order(layer@.layer.layer_number)
                ==> {
                &&& r is Err
                &&& r->Err_0@ == (FirmwareErrorView {
                    kind: FaultKind::InvalidCommand,
                    detail: "layer numbers must increase"@,
                })
                &&& final(self)@ == (ExecutorView { cancel_requested: true, ..old(self)@ })
            },
            old(self)@.expects_layer(state@) && old(self)@.in_order(layer@.layer.layer_number)
                ==> {
                &&& r is Ok
                &&& final(self)@ == old(self)@.fed(layer@)
            },
            (final(self)@, state@) == step(old(self)@, state@, Step::Feed(layer@)),
            old(self)@.wf() ==> final(self)@.wf(),
    {
        let expected = matches!(self.phase, Phase::AwaitLayer) && state.firmware_state.is_printing()
            && !self.cancel_requested && self.layers_done < self.total_layers;
        if !expected {
            return Err(refusal("no layer is expected"));
        }
        let number = layer.layer.layer_number;
        let in_order = match self.last_layer {
            Some(last) => number > last,
            None => true,
        };
        if !in_order {
            self.cancel_requested = true;
            return Err(refusal("layer numbers must increase"));
        }
        let ghost target = self.scheduler.spec_plan_layer(layer@);
        let z = layer.layer.z_height;
        let plan = self.scheduler.plan_layer(layer);
        proof {
            assert(forall|i: int| 1 <= i < target.len() ==> !(#[trigger] target[i]).sets_valves());
        }
        self.phase = Phase::Layer;
        self.plan = plan;
        self.cursor = 0;
        self.in_flight = false;
        self.retries = 0;
        self.last_layer = Some(number);
        self.layer_z = z;
        Ok(())
    }

    /// Decides what to do next. While an operation is under way the
    /// executor hands out nothing and changes nothing. Between two
    /// operations it first serves a cancellation that waits, whatever else
    /// it holds: the cooldown begins. Otherwise it abandons the job as soon
    /// as the machine has left the modes of a job, hands out nothing while
    /// the job is paused, and else hands out the next step of its plan,
    /// closes a finished layer by recomputing the progress, asks for the
    /// next layer, or ends the job.
    pub fn poll(&mut self, state: &mut SystemState, now_ms: u64) -> (d: Directive)
        ensures
            (final(self)@, final(state)@, d) == old(self)@.poll(old(state)@, now_ms),
            (final(self)@, final(state)@) == step(old(self)@, old(state)@, Step::Poll(now_ms)),
    {
        if self.is_under_way() {
            return Directive::Idle;
        }
        if self.cancel_requested && state.firmware_state.is_printing() {
            self.begin_cooldown();
            return Directive::Perform;
        }
        if matches!(self.phase, Phase::Idle) {
            return Directive::Idle;
        }
        if !self.fits(state.firmware_state) {
            self.abandon();
            return Directive::Abandoned;
        }
        if matches!(state.firmware_state, FirmwareState::Paused) {
            return Directive::Idle;
        }
        if matches!(self.phase, Phase::AwaitLayer) {
            if self.layers_done >= self.total_layers {
                self.abandon();
                end_job(state);
                return Directive::Finished;
            }
            return Directive::NeedLayer { index: self.layers_done };
        }
        if self.cursor < self.plan.len() {
            note_issue(state, &self.plan[self.cursor]);
            self.in_flight = true;
            return Directive::Perform;
        }
        if matches!(self.phase, Phase::Heating) {
            self.plan = heating_plan(&self.config);
            self.cursor = 0;
            self.in_flight = true;
            self.retries = 0;
            return Directive::Perform;
        }
        if matches!(self.phase, Phase::Layer) {
            let done: u32 = if self.layers_done < u32::MAX {
                self.layers_done + 1
            } else {
                self.layers_done
            };
            let elapsed: u64 = if now_ms >= self.started_at {
                now_ms - self.started_at
            } else {
                0
            };
            let percent = record_progress(state, done, self.layer_z, elapsed);
            self.phase = Phase::AwaitLayer;
            self.plan = Vec::new();
            self.cursor = 0;
            self.in_flight = false;
            self.retries = 0;
            self.layers_done = done;
            assert(plan_view(self.plan@) =~= Seq::empty());
            return Directive::Progress { current_layer: done, progress_percent: percent };
        }
        self.abandon();
        end_job(state);
        Directive::Finished
    }

    /// Takes the outcome of the operation that was handed out. A success
    /// is recorded in the snapshot and the plan moves on; it is recorded
    /// too, and the job let go, if the machine has left the modes of the
    /// job meanwhile. A wait for the temperature or for the pressure counts
    /// as satisfied only if the snapshot agrees; otherwise the wait is
    /// handed out again. The wait that a job starts with is the only way
    /// from heating to printing: when it is satisfied, with every
    /// temperature of the snapshot within the tolerance of its target, the
    /// machine prints. A failed hardware call is handed out again, up to
    /// the configured number of retries, and then becomes a fault; a wait
    /// that timed out becomes a fault at once. If the machine was
    /// emergency-stopped while the operation was under way, the job is
    /// abandoned and the answer is `MakeSafe`, whatever the outcome.
    pub fn complete(&mut self, state: &mut SystemState, outcome: Outcome, now_ms: u64) -> (d:
        Directive)
        ensures
            (final(self)@, final(state)@, d) == old(self)@.complete(old(state)@, outcome, now_ms),
            (final(self)@, final(state)@) == step(
                old(self)@,
                old(state)@,
                Step::Complete(outcome, now_ms),
            ),
    {
        if !self.is_under_way() {
            return Directive::Idle;
        }
        if matches!(state.firmware_state, FirmwareState::EmergencyStopped) {
            self.abandon();
            return Directive::MakeSafe;
        }
        if !self.fits(state.firmware_state) {
            if matches!(outcome, Outcome::Done) {
                apply_action(state, &self.plan[self.cursor], now_ms);
            } else {
                note_failure(state, &self.plan[self.cursor]);
            }
            let keep = self.cancel_requested && state.firmware_state.is_printing();
            self.abandon();
            self.cancel_requested = keep;
            return Directive::Abandoned;
        }
        match outcome {
            Outcome::Done => self.take_success(state, now_ms),
            Outcome::Failed => self.take_failure(state, now_ms),
            Outcome::TimedOut => {
                note_failure(state, &self.plan[self.cursor]);
                let fault = FirmwareError::Timeout(action_name(&self.plan[self.cursor]));
                state.add_error(fault.promote(now_ms));
                self.abandon();
            },
        }
        if matches!(self.phase, Phase::Idle) {
            Directive::Abandoned
        } else {
            Directive::Idle
        }
    }

    /// Takes the success of the operation that is under way.
    fn take_success(&mut self, state: &mut SystemState, now_ms: u64)
        requires
            old(self)@.under_way(),
        ensures
            (final(self)@, final(state)@) == (if !old(self)@.accepts(
                old(state)@,
                old(self)@.plan[old(self)@.cursor],
            ) {
                (ExecutorView { in_flight: false, ..old(self)@ }, old(state)@)
            } else if old(self)@.phase == Phase::Heating {
                (
                    old(self)@.heated(),
                    old(state)@.after_action(old(self)@.plan[old(self)@.cursor], now_ms).in_mode(
                        FirmwareState::Printing,
                    ),
                )
            } else {
                (
                    ExecutorView {
                        cursor: old(self)@.cursor + 1,
                        in_flight: false,
                        retries: 0,
                        ..old(self)@
                    },
                    old(state)@.after_action(old(self)@.plan[old(self)@.cursor], now_ms),
                )
            }),
    {
        let heating = matches!(self.phase, Phase::Heating);
        let accepted = agrees(state, &self.config, &self.plan[self.cursor]) && (!heating
            || state.thermal.is_at_target(self.config.temp_tolerance));
        if !accepted {
            self.in_flight = false;
        } else if heating {
            apply_action(state, &self.plan[self.cursor], now_ms);
            state.firmware_state = FirmwareState::Printing;
            self.phase = Phase::AwaitLayer;
            self.plan = Vec::new();
            self.cursor = 0;
            self.in_flight = false;
            self.retries = 0;
            assert(plan_view(self.plan@) =~= Seq::empty());
        } else {
            apply_action(state, &self.plan[self.cursor], now_ms);
            assert(self.cursor < self.plan.len());
            self.cursor = self.cursor + 1;
            self.in_flight = false;
            self.retries = 0;
        }
    }

    /// Takes the failure of the operation that is under way: it is handed
    /// out again, or, with the retries used up, becomes a fault.
    fn take_failure(&mut self, state: &mut SystemState, now_ms: u64)
        requires
            old(self)@.under_way(),
            old(state)@.firmware_state != FirmwareState::EmergencyStopped,
        ensures
            (final(self)@, final(state)@) == (if old(self)@.retries < old(
                self)@.config.max_retries {
                (
                    ExecutorView {
                        in_flight: false,
                        retries: (old(self)@.retries + 1) as u8,
                        ..old(self)@
                    },
                    old(state)@.on_failure(old(self)@.plan[old(self)@.cursor]),
                )
            } else {
                (
                    old(self)@.abandoned(),
                    old(state)@.on_failure(old(self)@.plan[old(self)@.cursor]).with_error(
                        old(self)@.fault(FaultKind::HardwareOperation).promoted(now_ms),
                    ),
                )
            }),
    {
        note_failure(state, &self.plan[self.cursor]);
        if self.retries < self.config.max_retries {
            self.in_flight = false;
            self.retries = self.retries + 1;
        } else {
            let fault = FirmwareError::HardwareOperation(action_name(&self.plan[self.cursor]));
            state.add_error(fault.promote(now_ms));
            self.abandon();
        }
    }

    /// Pauses the job. The request is accepted whenever the machine is
    /// printing, and refused, with nothing changed, in every other mode. A
    /// pause changes the operating mode alone: targets, progress and the
    /// place in the plan stay as they are, and no operation is handed out
    /// until the job is resumed.
    pub fn pause(&mut self, state: &mut SystemState) -> (r: Result<(), FirmwareError>)
        ensures
            final(self)@ == old(self)@,
            (final(self)@, final(state)@) == step(old(self)@, old(state)@, Step::Pause),
            old(state)@.firmware_state == FirmwareState::Printing ==> r is Ok && final(state)@
                == old(state)@.in_mode(FirmwareState::Paused),
            old(state)@.firmware_state != FirmwareState::Printing ==> {
                &&& r is Err
                &&& r->Err_0@ == (FirmwareErrorView {
                    kind: FaultKind::InvalidCommand,
                    detail: "nothing to pause"@,
                })
                &&& final(state)@ == old(state)@
            },
            old(state)@.wf() ==> final(state)@.wf(),
    {
        if !state.firmware_state.is_printing() {
            return Err(refusal("nothing to pause"));
        }
        state.firmware_state = FirmwareState::Paused;
        Ok(())
    }

    /// Resumes a paused job where it was held. The request is refused, and
    /// nothing changes, unless the machine is paused.
    pub fn resume(&mut self, state: &mut SystemState) -> (r: Result<(), FirmwareError>)
        ensures
            final(self)@ == old(self)@,
            (final(self)@, final(state)@) == step(old(self)@, old(state)@, Step::Resume),
            old(state)@.firmware_state == FirmwareState::Paused ==> r is Ok && final(state)@
                == old(state)@.in_mode(FirmwareState::Printing),
            old(state)@.firmware_state != FirmwareState::Paused ==> {
                &&& r is Err
                &&& r->Err_0@ == (FirmwareErrorView {
                    kind: FaultKind::InvalidCommand,
                    detail: "nothing to resume"@,
                })
                &&& final(state)@ == old(state)@
            },
            old(state)@.wf() ==> final(state)@.wf(),
    {
        if !matches!(state.firmware_state, FirmwareState::Paused) {
            return Err(refusal("nothing to resume"));
        }
        state.firmware_state = FirmwareState::Printing;
        Ok(())
    }

    /// Asks for the job to be cancelled. The request is accepted whenever
    /// the machine is printing, also when a cancellation is already under
    /// way or the executor holds no job, and refused, with nothing changed,
    /// in every other mode. An accepted request is served at the next
    /// decision: the operation that is under way is completed first, then
    /// the cooldown runs from its first step, and the machine becomes idle
    /// when it has settled.
    pub fn cancel(&mut self, state: &SystemState) -> (r: Result<(), FirmwareError>)
        ensures
            (final(self)@, state@) == step(old(self)@, state@, Step::Cancel),
            state@.firmware_state == FirmwareState::Printing ==> r is Ok && final(self)@ == (
            ExecutorView { cancel_requested: true, ..old(self)@ }),
            state@.firmware_state != FirmwareState::Printing ==> {
                &&& r is Err
                &&& r->Err_0@ == (FirmwareErrorView {
                    kind: FaultKind::InvalidCommand,
                    detail: "nothing to cancel"@,
                })
                &&& final(self)@ == old(self)@
            },
            old(self)@.wf() ==> final(self)@.wf(),
    {
        if !state.firmware_state.is_printing() {
            return Err(refusal("nothing to cancel"));
        }
        self.cancel_requested = true;
        Ok(())
    }
}

} // verus!
