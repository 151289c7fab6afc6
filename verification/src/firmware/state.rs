//! Operating modes and the system snapshot.

use vstd::prelude::*;
use std::collections::HashMap;
use crate::units::{spec_within, within};
use crate::firmware::laws::{Step, state_step};
use crate::firmware::state_machine::{StateMachine, Transition};

verus! {

/// Coarse operating mode of the printer. Exactly one is active at a time.
#[derive(Debug, Clone, Copy, PartialEq, Eq, Structural)]
pub enum FirmwareState {
    /// Hardware and subsystems are being brought up.
    Initializing,
    /// Ready to accept a job.
    Idle,
    /// The Z axis is homing.
    Homing,
    /// Heating towards the target temperatures of a job.
    Heating,
    /// A job is being deposited.
    Printing,
    /// A job is held at a layer boundary.
    Paused,
    /// A fault was recorded and awaits clearing.
    Error,
    /// The safety supervisor has made the machine safe.
    EmergencyStopped,
    /// The engine is shutting down.
    ShuttingDown,
}

impl FirmwareState {
    /// True in the two fault modes.
    pub open spec fn spec_is_error(&self) -> bool {
        *self == FirmwareState::Error || *self == FirmwareState::EmergencyStopped
    }

    /// Returns true if the printer is in a fault mode.
    #[verifier::when_used_as_spec(spec_is_error)]
    pub fn is_error(&self) -> (b: bool)
        ensures
            b == self.spec_is_error(),
    {
        matches!(self, FirmwareState::Error | FirmwareState::EmergencyStopped)
    }

    /// The name of the mode.
    pub open spec fn spec_name(&self) -> Seq<char> {
        match self {
            FirmwareState::Initializing => "Initializing"@,
            FirmwareState::Idle => "Idle"@,
            FirmwareState::Homing => "Homing"@,
            FirmwareState::Heating => "Heating"@,
            FirmwareState::Printing => "Printing"@,
            FirmwareState::Paused => "Paused"@,
            FirmwareState::Error => "Error"@,
            FirmwareState::EmergencyStopped => "EmergencyStopped"@,
            FirmwareState::ShuttingDown => "ShuttingDown"@,
        }
    }

    /// Returns the name of the mode.
    pub fn name(&self) -> (n: &'static str)
        ensures
            n@ == self.spec_name(),
    {
        match self {
            FirmwareState::Initializing => "Initializing",
            FirmwareState::Idle => "Idle",
            FirmwareState::Homing => "Homing",
            FirmwareState::Heating => "Heating",
            FirmwareState::Printing => "Printing",
            FirmwareState::Paused => "Paused",
            FirmwareState::Error => "Error",
            FirmwareState::EmergencyStopped => "EmergencyStopped",
            FirmwareState::ShuttingDown => "ShuttingDown",
        }
    }

    /// True when a new job may be accepted.
    pub open spec fn spec_is_ready(&self) -> bool {
        *self == FirmwareState::Idle
    }

    /// Returns true if the printer can accept a new job.
    #[verifier::when_used_as_spec(spec_is_ready)]
    pub fn is_ready(&self) -> (b: bool)
        ensures
            b == self.spec_is_ready(),
    {
        matches!(self, FirmwareState::Idle)
    }

    /// True while a job is being deposited.
    pub open spec fn spec_is_printing(&self) -> bool {
        *self == FirmwareState::Printing
    }

    /// Returns true if the printer is depositing.
    #[verifier::when_used_as_spec(spec_is_printing)]
    pub fn is_printing(&self) -> (b: bool)
        ensures
            b == self.spec_is_printing(),
    {
        matches!(self, FirmwareState::Printing)
    }
}

/// How serious a recorded fault is.
#[derive(Debug, Clone, Copy, PartialEq, Eq, Structural)]
pub enum ErrorSeverity {
    /// Informational, no action needed.
    Info,
    /// May need attention.
    Warning,
    /// Requires intervention.
    Error,
    /// Immediate action required.
    Critical,
}

/// A recorded fault.
#[derive(Debug, Clone)]
pub struct SystemError {
    /// How serious the fault is.
    pub severity: ErrorSeverity,
    /// Code for programmatic handling.
    pub code: String,
    /// Human-readable description.
    pub message: String,
    /// Names of the subsystems that are affected.
    pub affected_systems: Vec<String>,
    /// What the operator should do, if anything is known.
    pub recovery_action: Option<String>,
    /// Milliseconds since the Unix epoch at which the fault was recorded.
    pub timestamp: u64,
}

/// Mathematical value of a [`SystemError`].
pub struct SystemErrorView {
    pub severity: ErrorSeverity,
    pub code: Seq<char>,
    pub message: Seq<char>,
    pub affected_systems: Seq<Seq<char>>,
    pub recovery_action: Option<Seq<char>>,
    pub timestamp: u64,
}

impl View for SystemError {
    type V = SystemErrorView;

    open spec fn view(&self) -> SystemErrorView {
        SystemErrorView {
            severity: self.severity,
            code: self.code@,
            message: self.message@,
            affected_systems: self.affected_systems.deep_view(),
            recovery_action: match self.recovery_action {
                Some(a) => Some(a@),
                None => None,
            },
            timestamp: self.timestamp,
        }
    }
}

impl SystemErrorView {
    /// This fault is the critical record of `cause`: it has the code and
    /// the text of the cause.
    pub open spec fn names(self, cause: SystemErrorView) -> bool {
        self.severity == ErrorSeverity::Critical && self.code == cause.code && self.message
            == cause.message
    }
}

/// Views of a list of faults, in order.
pub open spec fn errors_view(errors: Seq<SystemError>) -> Seq<SystemErrorView> {
    Seq::new(errors.len(), |i: int| errors[i]@)
}

/// Progress of the active job.
#[derive(Debug, Clone)]
pub struct PrintStatus {
    /// Number of layers completed so far.
    pub current_layer: u32,
    /// Number of layers in the job.
    pub total_layers: u32,
    /// Z position in micrometres.
    pub z_position: i64,
    /// Progress in thousandths of a percent, from 0 to 100 000.
    pub progress_percent: i64,
    /// Milliseconds since the job started.
    pub elapsed_time: u64,
    /// Estimated milliseconds that remain.
    pub estimated_remaining: u64,
    /// Identity of the job file.
    pub file_path: String,
}

/// Mathematical value of a [`PrintStatus`].
pub struct PrintStatusView {
    pub current_layer: u32,
    pub total_layers: u32,
    pub z_position: i64,
    pub progress_percent: i64,
    pub elapsed_time: u64,
    pub estimated_remaining: u64,
    pub file_path: Seq<char>,
}

impl View for PrintStatus {
    type V = PrintStatusView;

    open spec fn view(&self) -> PrintStatusView {
        PrintStatusView {
            current_layer: self.current_layer,
            total_layers: self.total_layers,
            z_position: self.z_position,
            progress_percent: self.progress_percent,
            elapsed_time: self.elapsed_time,
            estimated_remaining: self.estimated_remaining,
            file_path: self.file_path@,
        }
    }
}

/// `current_layer / total_layers × 100` in thousandths of a percent, rounded
/// towards zero; zero for a job without layers.
pub open spec fn spec_progress(current_layer: u32, total_layers: u32) -> int {
    if total_layers > 0 {
        (current_layer as int * 100_000) / (total_layers as int)
    } else {
        0
    }
}

/// Computes [`spec_progress`].
pub fn progress_of(current_layer: u32, total_layers: u32) -> (p: i64)
    ensures
        p as int == spec_progress(current_layer, total_layers),
        0 <= p,
        current_layer <= total_layers ==> p <= 100_000,
{
    if total_layers > 0 {
        let scaled: u64 = current_layer as u64 * 100_000u64;
        let q: u64 = scaled / (total_layers as u64);
        assert(q <= scaled);
        assert(current_layer <= total_layers ==> q <= 100_000) by (nonlinear_arith)
            requires
                q == (current_layer as int * 100_000) / (total_layers as int),
                total_layers > 0,
        ;
        q as i64
    } else {
        0
    }
}

impl PrintStatus {
    /// A fresh status for a job of `total_layers` layers: nothing completed,
    /// Z at zero, no time elapsed.
    pub fn new(file_path: String, total_layers: u32) -> (s: Self)
        ensures
            s@ == (PrintStatusView {
                current_layer: 0,
                total_layers,
                z_position: 0,
                progress_percent: 0,
                elapsed_time: 0,
                estimated_remaining: 0,
                file_path: file_path@,
            }),
    {
        Self {
            current_layer: 0,
            total_layers,
            z_position: 0,
            progress_percent: 0,
            elapsed_time: 0,
            estimated_remaining: 0,
            file_path,
        }
    }

    /// Records a layer advance and recomputes the progress from it.
    pub fn update_progress(&mut self, current_layer: u32, z_position: i64)
        ensures
            final(self)@ == (PrintStatusView {
                current_layer,
                z_position,
                progress_percent: spec_progress(current_layer, old(self).total_layers) as i64,
                ..old(self)@
            }),
            final(self).progress_percent as int == spec_progress(
                current_layer,
                old(self).total_layers,
            ),
    {
        self.current_layer = current_layer;
        self.z_position = z_position;
        self.progress_percent = progress_of(current_layer, self.total_layers);
    }
}

/// A reading paired with its target: `(current, target)`.
pub type Reading = (i64, i64);

/// The reading lies strictly within `tolerance` of its target.
pub open spec fn reading_ok(r: Reading, tolerance: i64) -> bool {
    spec_within(r.0 as int, r.1 as int, tolerance as int)
}

/// An optional reading is satisfied when it is absent or within tolerance.
pub open spec fn optional_ok(r: Option<Reading>, tolerance: i64) -> bool {
    match r {
        Some(p) => reading_ok(p, tolerance),
        None => true,
    }
}

/// Every entry of the map lies within tolerance of its target.
pub open spec fn readings_ok(m: Map<u8, Reading>, tolerance: i64) -> bool {
    forall|k: u8| m.contains_key(k) ==> reading_ok(#[trigger] m[k], tolerance)
}

/// Every target in the map is zero.
pub open spec fn targets_zero(m: Map<u8, Reading>) -> bool {
    forall|k: u8| m.contains_key(k) ==> (#[trigger] m[k]).1 == 0
}

/// The map with every target replaced by `target` and every current reading
/// kept.
pub open spec fn with_targets(m: Map<u8, Reading>, target: i64) -> Map<u8, Reading> {
    Map::new(|k: u8| m.contains_key(k), |k: u8| (m[k].0, target))
}

/// The target of an optional reading is zero, where the reading is present.
pub open spec fn optional_target_zero(r: Option<Reading>) -> bool {
    match r {
        Some(p) => p.1 == 0,
        None => true,
    }
}

/// An optional reading with its target replaced.
pub open spec fn optional_with_target(r: Option<Reading>, target: i64) -> Option<Reading> {
    match r {
        Some(p) => Some((p.0, target)),
        None => None,
    }
}

fn check_reading(r: &Reading, tolerance: i64) -> (ok: bool)
    ensures
        ok == reading_ok(*r, tolerance),
{
    within(r.0, r.1, tolerance)
}

fn check_optional(r: &Option<Reading>, tolerance: i64) -> (ok: bool)
    ensures
        ok == optional_ok(*r, tolerance),
{
    match r {
        Some(p) => check_reading(p, tolerance),
        None => true,
    }
}

/// Checks every entry of a map of readings against the tolerance.
pub fn check_readings(m: &HashMap<u8, Reading>, tolerance: i64) -> (ok: bool)
    ensures
        ok == readings_ok(m@, tolerance),
{
    let mut ok = true;
    let mut k: u16 = 0;
    while k < 256
        invariant
            k <= 256,
            ok == (forall|j: u8| (j as int) < k && m@.contains_key(j) ==> reading_ok(
                #[trigger] m@[j],
                tolerance,
            )),
        decreases 256 - k,
    {
        let key: u8 = k as u8;
        match m.get(&key) {
            Some(r) => {
                if !check_reading(r, tolerance) {
                    ok = false;
                }
            },
            None => {},
        }
        k = k + 1;
    }
    ok
}

/// Replaces every target of a map of readings, keeping the current values.
pub fn set_all_targets(m: &mut HashMap<u8, Reading>, target: i64)
    ensures
        final(m)@ == with_targets(old(m)@, target),
{
    let mut k: u16 = 0;
    while k < 256
        invariant
            k <= 256,
            m@.dom() == old(m)@.dom(),
            forall|j: u8|
                m@.contains_key(j) ==> #[trigger] m@[j] == (if (j as int) < k {
                    (old(m)@[j].0, target)
                } else {
                    old(m)@[j]
                }),
        decreases 256 - k,
    {
        let key: u8 = k as u8;
        let current: Option<i64> = match m.get(&key) {
            Some(r) => Some(r.0),
            None => None,
        };
        match current {
            Some(c) => {
                m.insert(key, (c, target));
                assert(m@.dom() =~= old(m)@.dom());
            },
            None => {},
        }
        k = k + 1;
    }
    assert(m@ =~= with_targets(old(m)@, target));
}

/// Temperatures of all heated zones, current against target.
#[derive(Debug, Clone)]
pub struct ThermalState {
    /// Zone temperatures by zone id, in millidegrees Celsius.
    pub zones: HashMap<u8, Reading>,
    /// Manifold temperature, where the machine has one.
    pub manifold: Option<Reading>,
    /// Build plate temperature, where the machine has one.
    pub bed: Option<Reading>,
    /// Chamber temperature, where the machine has one.
    pub chamber: Option<Reading>,
    /// Result of the latest tolerance check.
    pub all_at_target: bool,
}

/// Mathematical value of a [`ThermalState`].
pub struct ThermalStateView {
    pub zones: Map<u8, Reading>,
    pub manifold: Option<Reading>,
    pub bed: Option<Reading>,
    pub chamber: Option<Reading>,
    pub all_at_target: bool,
}

impl ThermalStateView {
    /// Every zone and every optional reading that is present lies strictly
    /// within `tolerance` of its target.
    pub open spec fn at_target(self, tolerance: i64) -> bool {
        &&& readings_ok(self.zones, tolerance)
        &&& optional_ok(self.manifold, tolerance)
        &&& optional_ok(self.bed, tolerance)
        &&& optional_ok(self.chamber, tolerance)
    }

    /// Every target, of a zone or of an optional reading, is zero.
    pub open spec fn targets_off(self) -> bool {
        &&& targets_zero(self.zones)
        &&& optional_target_zero(self.manifold)
        &&& optional_target_zero(self.bed)
        &&& optional_target_zero(self.chamber)
    }

    /// The state with every target set to zero and the flag cleared.
    pub open spec fn cooled(self) -> ThermalStateView {
        ThermalStateView {
            zones: with_targets(self.zones, 0),
            manifold: optional_with_target(self.manifold, 0),
            bed: optional_with_target(self.bed, 0),
            chamber: optional_with_target(self.chamber, 0),
            all_at_target: false,
        }
    }
}

impl View for ThermalState {
    type V = ThermalStateView;

    open spec fn view(&self) -> ThermalStateView {
        ThermalStateView {
            zones: self.zones@,
            manifold: self.manifold,
            bed: self.bed,
            chamber: self.chamber,
            all_at_target: self.all_at_target,
        }
    }
}

impl ThermalState {
    /// No zones, no optional readings, nothing at target yet.
    pub fn new() -> (s: Self)
        ensures
            s@ == (ThermalStateView {
                zones: Map::empty(),
                manifold: None,
                bed: None,
                chamber: None,
                all_at_target: false,
            }),
    {
        Self { zones: HashMap::new(), manifold: None, bed: None, chamber: None, all_at_target: false }
    }

    /// Checks whether all temperatures are within `tolerance` of their
    /// targets and records the answer in `all_at_target`. Absent optional
    /// readings count as satisfied.
    pub fn check_at_target(&mut self, tolerance: i64) -> (ok: bool)
        ensures
            ok == old(self)@.at_target(tolerance),
            final(self)@ == (ThermalStateView { all_at_target: ok, ..old(self)@ }),
    {
        let zones_ok = check_readings(&self.zones, tolerance);
        let manifold_ok = check_optional(&self.manifold, tolerance);
        let bed_ok = check_optional(&self.bed, tolerance);
        let chamber_ok = check_optional(&self.chamber, tolerance);
        self.all_at_target = zones_ok && manifold_ok && bed_ok && chamber_ok;
        self.all_at_target
    }

    /// Tells whether all temperatures are within `tolerance` of their
    /// targets, without recording the answer.
    pub fn is_at_target(&self, tolerance: i64) -> (ok: bool)
        ensures
            ok == self@.at_target(tolerance),
    {
        check_readings(&self.zones, tolerance) && check_optional(&self.manifold, tolerance)
            && check_optional(&self.bed, tolerance) && check_optional(&self.chamber, tolerance)
    }

    /// Sets every target to zero, keeping the current readings.
    pub fn cool_down(&mut self)
        ensures
            final(self)@ == old(self)@.cooled(),
            final(self)@.targets_off(),
    {
        set_all_targets(&mut self.zones, 0);
        self.manifold = match self.manifold {
            Some(p) => Some((p.0, 0)),
            None => None,
        };
        self.bed = match self.bed {
            Some(p) => Some((p.0, 0)),
            None => None,
        };
        self.chamber = match self.chamber {
            Some(p) => Some((p.0, 0)),
            None => None,
        };
        self.all_at_target = false;
    }
}

impl Default for ThermalState {
    fn default() -> (s: Self)
        ensures
            s@.zones == Map::<u8, Reading>::empty(),
            s@.manifold.is_none() && s@.bed.is_none() && s@.chamber.is_none(),
            !s@.all_at_target,
    {
        Self::new()
    }
}

/// Pressures of all material channels, current against target.
#[derive(Debug, Clone)]
pub struct PressureState {
    /// Channel pressures by channel id, in milli-PSI.
    pub channels: HashMap<u8, Reading>,
    /// Flow rates by channel id, in thousandths of a cubic millimetre per
    /// second.
    pub flow_rates: HashMap<u8, i64>,
    /// Result of the latest stability check.
    pub all_stable: bool,
}

/// Mathematical value of a [`PressureState`].
pub struct PressureStateView {
    pub channels: Map<u8, Reading>,
    pub flow_rates: Map<u8, i64>,
    pub all_stable: bool,
}

impl PressureStateView {
    /// Every channel lies strictly within `tolerance` of its target.
    pub open spec fn stable(self, tolerance: i64) -> bool {
        readings_ok(self.channels, tolerance)
    }

    /// The state with every target set to zero and the flag cleared.
    pub open spec fn vented(self) -> PressureStateView {
        PressureStateView {
            channels: with_targets(self.channels, 0),
            all_stable: false,
            ..self
        }
    }
}

impl View for PressureState {
    type V = PressureStateView;

    open spec fn view(&self) -> PressureStateView {
        PressureStateView {
            channels: self.channels@,
            flow_rates: self.flow_rates@,
            all_stable: self.all_stable,
        }
    }
}

impl PressureState {
    /// No channels, no flow rates, nothing stable yet.
    pub fn new() -> (s: Self)
        ensures
            s@ == (PressureStateView {
                channels: Map::empty(),
                flow_rates: Map::empty(),
                all_stable: false,
            }),
    {
        Self { channels: HashMap::new(), flow_rates: HashMap::new(), all_stable: false }
    }

    /// Checks whether all pressures are within `tolerance` of their targets
    /// and records the answer in `all_stable`.
    pub fn check_stable(&mut self, tolerance: i64) -> (ok: bool)
        ensures
            ok == old(self)@.stable(tolerance),
            final(self)@ == (PressureStateView { all_stable: ok, ..old(self)@ }),
    {
        self.all_stable = check_readings(&self.channels, tolerance);
        self.all_stable
    }

    /// Tells whether all pressures are within `tolerance` of their
    /// targets, without recording the answer.
    pub fn is_stable(&self, tolerance: i64) -> (ok: bool)
        ensures
            ok == self@.stable(tolerance),
    {
        check_readings(&self.channels, tolerance)
    }

    /// Sets every target to zero, keeping the current readings.
    pub fn vent(&mut self)
        ensures
            final(self)@ == old(self)@.vented(),
            targets_zero(final(self)@.channels),
    {
        set_all_targets(&mut self.channels, 0);
        self.all_stable = false;
    }
}

impl Default for PressureState {
    fn default() -> (s: Self)
        ensures
            s@.channels == Map::<u8, Reading>::empty(),
            s@.flow_rates == Map::<u8, i64>::empty(),
            !s@.all_stable,
    {
        Self::new()
    }
}

/// Aggregate valve activity, for change detection.
#[derive(Debug, Clone, Copy, PartialEq, Eq, Structural)]
pub struct ValveArrayState {
    /// Number of the layer whose pattern is applied.
    pub current_layer: u32,
    /// Number of active valve nodes.
    pub active_nodes: usize,
    /// Number of open valves.
    pub open_valves: usize,
    /// Checksum of the applied pattern.
    pub pattern_hash: u64,
    /// Milliseconds since the engine started at which the pattern was last
    /// applied.
    pub last_update: u64,
}

impl ValveArrayState {
    /// No pattern applied: every count zero.
    pub fn new() -> (s: Self)
        ensures
            s == (ValveArrayState {
                current_layer: 0,
                active_nodes: 0,
                open_valves: 0,
                pattern_hash: 0,
                last_update: 0,
            }),
    {
        Self { current_layer: 0, active_nodes: 0, open_valves: 0, pattern_hash: 0, last_update: 0 }
    }

    /// No valve is open.
    pub open spec fn all_closed(self) -> bool {
        self.open_valves == 0
    }

    /// The state after every valve was closed: no node active, no valve
    /// open, the checksum of the empty pattern.
    pub open spec fn closed(self) -> ValveArrayState {
        ValveArrayState { active_nodes: 0, open_valves: 0, pattern_hash: 0, ..self }
    }
}

impl Default for ValveArrayState {
    fn default() -> (s: Self)
        ensures
            s == (ValveArrayState {
                current_layer: 0,
                active_nodes: 0,
                open_valves: 0,
                pattern_hash: 0,
                last_update: 0,
            }),
    {
        Self::new()
    }
}

/// State of the Z axis.
#[derive(Debug, Clone, Copy, PartialEq, Eq, Structural)]
pub struct MotionState {
    /// Z position in micrometres.
    pub z_position: i64,
    /// The Z axis has been homed.
    pub z_homed: bool,
    /// A move is under way.
    pub z_moving: bool,
    /// Target of the current or latest move, in micrometres.
    pub z_target: i64,
}

impl MotionState {
    /// At zero, not homed, not moving.
    pub fn new() -> (s: Self)
        ensures
            s == (MotionState { z_position: 0, z_homed: false, z_moving: false, z_target: 0 }),
    {
        Self { z_position: 0, z_homed: false, z_moving: false, z_target: 0 }
    }

    /// The state after motion was stopped where it stands.
    pub open spec fn stopped(self) -> MotionState {
        MotionState { z_moving: false, z_target: self.z_position, ..self }
    }
}

impl Default for MotionState {
    fn default() -> (s: Self)
        ensures
            s == (MotionState { z_position: 0, z_homed: false, z_moving: false, z_target: 0 }),
    {
        Self::new()
    }
}

/// The authoritative snapshot of the printer.
#[derive(Debug, Clone)]
pub struct SystemState {
    /// Operating mode.
    pub firmware_state: FirmwareState,
    /// Progress of the active job, while there is one.
    pub print_status: Option<PrintStatus>,
    /// Thermal readings and targets.
    pub thermal: ThermalState,
    /// Pressure readings and targets.
    pub pressure: PressureState,
    /// Aggregate valve activity.
    pub valves: ValveArrayState,
    /// State of the Z axis.
    pub motion: MotionState,
    /// Faults that are active.
    pub errors: Vec<SystemError>,
    /// Warnings that are active.
    pub warnings: Vec<String>,
}

/// Mathematical value of a [`SystemState`].
pub struct SystemStateView {
    pub firmware_state: FirmwareState,
    pub print_status: Option<PrintStatusView>,
    pub thermal: ThermalStateView,
    pub pressure: PressureStateView,
    pub valves: ValveArrayState,
    pub motion: MotionState,
    pub errors: Seq<SystemErrorView>,
    pub warnings: Seq<Seq<char>>,
}

/// The modes in which a job is in progress.
pub open spec fn carries_job(mode: FirmwareState) -> bool {
    mode == FirmwareState::Heating || mode == FirmwareState::Printing || mode
        == FirmwareState::Paused
}

impl SystemStateView {
    /// The snapshot of a machine that is starting up: no job, no readings,
    /// no valve open, the Z axis at zero and not homed, no fault and no
    /// warning.
    pub open spec fn initial() -> SystemStateView {
        SystemStateView {
            firmware_state: FirmwareState::Initializing,
            print_status: None,
            thermal: ThermalStateView {
                zones: Map::empty(),
                manifold: None,
                bed: None,
                chamber: None,
                all_at_target: false,
            },
            pressure: PressureStateView {
                channels: Map::empty(),
                flow_rates: Map::empty(),
                all_stable: false,
            },
            valves: ValveArrayState {
                current_layer: 0,
                active_nodes: 0,
                open_valves: 0,
                pattern_hash: 0,
                last_update: 0,
            },
            motion: MotionState { z_position: 0, z_homed: false, z_moving: false, z_target: 0 },
            errors: Seq::empty(),
            warnings: Seq::empty(),
        }
    }

    /// What holds of every snapshot that the engine produces: faults are
    /// recorded exactly in the two fault modes, and a job's progress exists
    /// only in the modes that carry a job.
    pub open spec fn wf(self) -> bool {
        &&& self.errors.len() == 0 <==> !self.firmware_state.is_error()
        &&& self.print_status.is_some() ==> carries_job(self.firmware_state)
    }

    /// The snapshot after a bare change of mode.
    pub open spec fn in_mode(self, mode: FirmwareState) -> SystemStateView {
        SystemStateView { firmware_state: mode, ..self }
    }

    /// The snapshot after `error` was raised: the fault is appended, and
    /// unless the machine is emergency-stopped it enters the fault mode and
    /// drops the progress of its job.
    pub open spec fn with_error(self, error: SystemErrorView) -> SystemStateView {
        if self.firmware_state == FirmwareState::EmergencyStopped {
            SystemStateView { errors: self.errors.push(error), ..self }
        } else {
            SystemStateView {
                firmware_state: FirmwareState::Error,
                print_status: None,
                errors: self.errors.push(error),
                ..self
            }
        }
    }

    /// The snapshot after the faults were cleared: nothing changes while
    /// emergency-stopped; otherwise the list is emptied and the fault mode
    /// left for `Idle`.
    pub open spec fn without_errors(self) -> SystemStateView {
        if self.firmware_state == FirmwareState::EmergencyStopped {
            self
        } else if self.firmware_state == FirmwareState::Error {
            SystemStateView {
                firmware_state: FirmwareState::Idle,
                errors: Seq::empty(),
                ..self
            }
        } else {
            SystemStateView { errors: Seq::empty(), ..self }
        }
    }

    /// A critical fault with the code and the text of `cause` is recorded.
    pub open spec fn records(self, cause: SystemErrorView) -> bool {
        exists|i: int| 0 <= i < self.errors.len() && (#[trigger] self.errors[i]).names(cause)
    }

    /// The snapshot after the safety supervisor tripped with `cause`. If
    /// the machine is already emergency-stopped, the cause is recorded as a
    /// critical fault unless such a fault is recorded already, and nothing
    /// else changes; otherwise every valve is closed, motion stopped, every
    /// thermal and pressure target set to zero, the job dropped, and the
    /// cause recorded as a critical fault.
    pub open spec fn tripped(self, cause: SystemErrorView) -> SystemStateView {
        if self.firmware_state == FirmwareState::EmergencyStopped {
            if self.records(cause) {
                self
            } else {
                SystemStateView {
                    errors: self.errors.push(
                        SystemErrorView { severity: ErrorSeverity::Critical, ..cause },
                    ),
                    ..self
                }
            }
        } else {
            SystemStateView {
                firmware_state: FirmwareState::EmergencyStopped,
                print_status: None,
                thermal: self.thermal.cooled(),
                pressure: self.pressure.vented(),
                valves: self.valves.closed(),
                motion: self.motion.stopped(),
                errors: self.errors.push(
                    SystemErrorView { severity: ErrorSeverity::Critical, ..cause },
                ),
                warnings: self.warnings,
            }
        }
    }

    /// The snapshot after homing ended: unchanged unless the machine is
    /// homing; otherwise idle, with the Z axis homed and at zero.
    pub open spec fn homed(self) -> SystemStateView {
        if self.firmware_state == FirmwareState::Homing {
            SystemStateView {
                firmware_state: FirmwareState::Idle,
                motion: MotionState { z_position: 0, z_homed: true, z_moving: false, z_target: 0 },
                ..self
            }
        } else {
            self
        }
    }

    /// The snapshot after a job ended, by completion or by cancellation:
    /// `Idle`, without progress.
    pub open spec fn job_ended(self) -> SystemStateView {
        SystemStateView { firmware_state: FirmwareState::Idle, print_status: None, ..self }
    }
}

impl View for SystemState {
    type V = SystemStateView;

    open spec fn view(&self) -> SystemStateView {
        SystemStateView {
            firmware_state: self.firmware_state,
            print_status: match self.print_status {
                Some(p) => Some(p@),
                None => None,
            },
            thermal: self.thermal@,
            pressure: self.pressure@,
            valves: self.valves,
            motion: self.motion,
            errors: errors_view(self.errors@),
            warnings: self.warnings.deep_view(),
        }
    }
}

impl SystemState {
    /// The snapshot of a machine that is starting up.
    pub fn new() -> (s: Self)
        ensures
            s@ == SystemStateView::initial(),
            s@.wf(),
    {
        let s = Self {
            firmware_state: FirmwareState::Initializing,
            print_status: None,
            thermal: ThermalState::new(),
            pressure: PressureState::new(),
            valves: ValveArrayState::new(),
            motion: MotionState::new(),
            errors: Vec::new(),
            warnings: Vec::new(),
        };
        assert(s@.errors =~= Seq::empty());
        assert(s@.warnings =~= Seq::empty());
        s
    }

    /// Records a fault. The machine enters the fault mode, whatever the
    /// severity, unless it is emergency-stopped, which is stronger.
    pub fn add_error(&mut self, error: SystemError)
        ensures
            final(self)@ == old(self)@.with_error(error@),
            final(self)@ == state_step(old(self)@, Step::AddError(error@)),
            old(self)@.wf() ==> final(self)@.wf(),
            old(self)@.firmware_state != FirmwareState::EmergencyStopped ==> Some(
                final(self)@.firmware_state,
            ) == StateMachine::spec_next(old(self)@.firmware_state, Transition::Fault),
    {
        self.errors.push(error);
        if !matches!(self.firmware_state, FirmwareState::EmergencyStopped) {
            self.firmware_state = FirmwareState::Error;
            self.print_status = None;
        }
        assert(errors_view(self.errors@) =~= errors_view(old(self).errors@).push(error@));
    }

    /// Clears the recorded faults and leaves the fault mode for `Idle`. An
    /// emergency stop is not left this way: there the call changes nothing.
    pub fn clear_errors(&mut self)
        ensures
            final(self)@ == old(self)@.without_errors(),
            final(self)@ == state_step(old(self)@, Step::ClearErrors),
            old(self)@.wf() ==> final(self)@.wf(),
            old(self)@.firmware_state == FirmwareState::Error ==> Some(final(self)@.firmware_state)
                == StateMachine::spec_next(old(self)@.firmware_state, Transition::ErrorsCleared),
    {
        if matches!(self.firmware_state, FirmwareState::EmergencyStopped) {
            return ;
        }
        self.errors.clear();
        if matches!(self.firmware_state, FirmwareState::Error) {
            self.firmware_state = FirmwareState::Idle;
        }
        assert(errors_view(self.errors@) =~= Seq::empty());
    }

    /// Tells whether a critical fault with the code and the text of
    /// `cause` is recorded.
    pub fn has_recorded(&self, cause: &SystemError) -> (b: bool)
        ensures
            b == self@.records(cause@),
    {
        let mut i: usize = 0;
        while i < self.errors.len()
            invariant
                i <= self.errors@.len(),
                forall|j: int| 0 <= j < i ==> !(#[trigger] self@.errors[j]).names(cause@),
            decreases self.errors@.len() - i,
        {
            let e = &self.errors[i];
            assert(self@.errors[i as int] == e@);
            if matches!(e.severity, ErrorSeverity::Critical) && e.code == cause.code && e.message
                == cause.message {
                return true;
            }
            i = i + 1;
        }
        false
    }

    /// Makes the snapshot safe after the safety supervisor tripped, and
    /// records the cause as a critical fault. The call is idempotent: once
    /// emergency-stopped, the same cause changes nothing, and another
    /// cause is recorded beside the first.
    pub fn emergency_stop(&mut self, cause: SystemError)
        ensures
            final(self)@ == old(self)@.tripped(cause@),
            final(self)@.firmware_state == FirmwareState::EmergencyStopped,
            final(self)@.records(cause@),
            final(self)@ == state_step(old(self)@, Step::Trip(cause@)),
            old(self)@.wf() ==> final(self)@.wf(),
            old(self)@.firmware_state != FirmwareState::EmergencyStopped ==> {
                &&& final(self)@.valves.all_closed()
                &&& final(self)@.thermal.targets_off()
                &&& targets_zero(final(self)@.pressure.channels)
                &&& !final(self)@.motion.z_moving
            },
    {
        let mut recorded = cause;
        recorded.severity = ErrorSeverity::Critical;
        if matches!(self.firmware_state, FirmwareState::EmergencyStopped) {
            if !self.has_recorded(&recorded) {
                self.errors.push(recorded);
                assert(errors_view(self.errors@) =~= errors_view(old(self).errors@).push(
                    SystemErrorView { severity: ErrorSeverity::Critical, ..cause@ },
                ));
            }
            proof {
                lemma_trip_records(old(self)@, cause@);
            }
            return ;
        }
        self.firmware_state = FirmwareState::EmergencyStopped;
        self.print_status = None;
        self.thermal.cool_down();
        self.pressure.vent();
        self.valves.active_nodes = 0;
        self.valves.open_valves = 0;
        self.valves.pattern_hash = 0;
        self.motion.z_moving = false;
        self.motion.z_target = self.motion.z_position;
        self.errors.push(recorded);
        assert(errors_view(self.errors@) =~= errors_view(old(self).errors@).push(
            SystemErrorView { severity: ErrorSeverity::Critical, ..cause@ },
        ));
        proof {
            lemma_trip_records(old(self)@, cause@);
        }
    }

    /// Leaves an emergency stop for a fresh initialization, dropping the
    /// recorded faults. Returns false, and changes nothing, in every other
    /// mode.
    pub fn reset(&mut self) -> (accepted: bool)
        ensures
            accepted == (old(self)@.firmware_state == FirmwareState::EmergencyStopped),
            final(self)@ == state_step(old(self)@, Step::Reset),
            accepted ==> final(self)@ == (SystemStateView {
                firmware_state: FirmwareState::Initializing,
                errors: Seq::empty(),
                ..old(self)@
            }),
            !accepted ==> final(self)@ == old(self)@,
            old(self)@.wf() ==> final(self)@.wf(),
    {
        if !matches!(self.firmware_state, FirmwareState::EmergencyStopped) {
            return false;
        }
        self.firmware_state = FirmwareState::Initializing;
        self.errors.clear();
        assert(errors_view(self.errors@) =~= Seq::empty());
        true
    }

    /// Ends the homing of the Z axis: the axis stands at zero and is
    /// homed, and the machine is idle again. Returns false, and changes
    /// nothing, unless the machine is homing.
    pub fn homed(&mut self) -> (accepted: bool)
        ensures
            accepted == (old(self)@.firmware_state == FirmwareState::Homing),
            final(self)@ == old(self)@.homed(),
            final(self)@ == state_step(old(self)@, Step::Homed),
            old(self)@.wf() ==> final(self)@.wf(),
    {
        if !matches!(self.firmware_state, FirmwareState::Homing) {
            return false;
        }
        self.firmware_state = FirmwareState::Idle;
        self.motion = MotionState { z_position: 0, z_homed: true, z_moving: false, z_target: 0 };
        true
    }

    /// Follows the table for a request that carries no data: the end of
    /// initialization, a request to home or to shut down, a pause or a
    /// resume. The thermal targets are reached only through the executor,
    /// which checks them. Returns false, and changes nothing, where the
    /// table has no such change or the request is of another kind.
    pub fn transition(&mut self, t: Transition) -> (accepted: bool)
        ensures
            accepted == (is_bare(t) && StateMachine::spec_next(
                old(self)@.firmware_state,
                t,
            ).is_some()),
            final(self)@ == state_step(old(self)@, Step::Bare(t)),
            accepted ==> final(self)@ == old(self)@.in_mode(
                StateMachine::spec_next(old(self)@.firmware_state, t).unwrap(),
            ),
            !accepted ==> final(self)@ == old(self)@,
            old(self)@.wf() ==> final(self)@.wf(),
    {
        let bare = matches!(
            t,
            Transition::InitComplete | Transition::HomeRequested | Transition::Pause
                | Transition::Resume | Transition::Shutdown
        );
        if !bare {
            return false;
        }
        match StateMachine::next(self.firmware_state, t) {
            Some(to) => {
                self.firmware_state = to;
                true
            },
            None => false,
        }
    }
}

/// After an emergency stop, from whatever state, the machine is
/// emergency-stopped and a critical fault with the code and the text of
/// the cause is on record; and the stop is idempotent: the same cause a
/// second time changes nothing.
pub proof fn lemma_trip_records(s: SystemStateView, cause: SystemErrorView)
    ensures
        s.tripped(cause).firmware_state == FirmwareState::EmergencyStopped,
        s.tripped(cause).records(cause),
        s.tripped(cause).tripped(cause) == s.tripped(cause),
{
    let after = s.tripped(cause);
    if !(s.firmware_state == FirmwareState::EmergencyStopped && s.records(cause)) {
        assert(after.errors[s.errors.len() as int].names(cause));
    }
}

/// The requests that change the mode and nothing else.
pub open spec fn is_bare(t: Transition) -> bool {
    t == Transition::InitComplete || t == Transition::HomeRequested || t == Transition::Pause
        || t == Transition::Resume || t == Transition::Shutdown
}

impl Default for SystemState {
    fn default() -> (s: Self)
        ensures
            s@ == SystemStateView::initial(),
            s@.wf(),
    {
        Self::new()
    }
}

} // verus!
