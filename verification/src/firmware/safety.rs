//! The safety supervisor: the checks of one monitor tick and the
//! emergency stop.

use vstd::prelude::*;
use std::collections::HashMap;
use crate::config_types::SafetyLimits;
use crate::firmware::error::{FaultKind, FirmwareError, FirmwareErrorView};
use crate::firmware::scheduler::{Action, ActionView, plan_view};
use crate::firmware::state::{FirmwareState, Reading, SystemError, SystemState, SystemStateView};
use crate::gcode_types::GridCoordinate;
use crate::units::{abs_diff, push_decimal, spec_abs_diff, spec_decimal};

verus! {

/// Health of one valve, as the valve controller reports it.
#[derive(Debug, Clone, Copy, PartialEq, Eq, Structural)]
pub struct ValveHealth {
    /// Node of the valve.
    pub position: GridCoordinate,
    /// Index of the valve at its node.
    pub valve_id: u8,
    /// Number of switching cycles so far.
    pub cycle_count: u64,
    /// Mean response time in microseconds.
    pub avg_response_time_ms: i64,
    /// Health in thousandths: 0 is failed, 1000 is perfect.
    pub health_score: i64,
}

/// All sensor values of one reading.
#[derive(Debug, Clone)]
pub struct SensorReadings {
    /// Temperatures by zone, in millidegrees Celsius.
    pub temperatures: HashMap<u8, i64>,
    /// Pressures by channel, in milli-PSI.
    pub pressures: HashMap<u8, i64>,
    /// Flow rates by channel, in thousandths of a cubic millimetre per
    /// second.
    pub flow_rates: HashMap<u8, i64>,
    /// Feedback of the valves of each node that reports any.
    pub valve_feedbacks: Vec<(GridCoordinate, Vec<bool>)>,
}

impl SensorReadings {
    /// A reading without any value.
    pub fn new() -> (r: Self)
        ensures
            r.temperatures@ == Map::<u8, i64>::empty(),
            r.pressures@ == Map::<u8, i64>::empty(),
            r.flow_rates@ == Map::<u8, i64>::empty(),
            r.valve_feedbacks@.len() == 0,
    {
        Self {
            temperatures: HashMap::new(),
            pressures: HashMap::new(),
            flow_rates: HashMap::new(),
            valve_feedbacks: Vec::new(),
        }
    }
}

impl Default for SensorReadings {
    fn default() -> (r: Self)
        ensures
            r.temperatures@ == Map::<u8, i64>::empty(),
            r.pressures@ == Map::<u8, i64>::empty(),
            r.flow_rates@ == Map::<u8, i64>::empty(),
            r.valve_feedbacks@.len() == 0,
    {
        Self::new()
    }
}

/// What one tick of the safety monitor looks at.
pub struct Sample<'a> {
    /// The values read at this tick.
    pub now: &'a SensorReadings,
    /// The values read at the tick before.
    pub before: &'a SensorReadings,
    /// Milliseconds between the two readings.
    pub elapsed_ms: u64,
    /// Health of the valves.
    pub valve_health: &'a Vec<ValveHealth>,
    /// The Z axis reports that it stands still.
    pub motion_complete: bool,
}

/// Mathematical value of a [`Sample`].
pub struct SampleView {
    pub temperatures: Map<u8, i64>,
    pub pressures: Map<u8, i64>,
    pub temperatures_before: Map<u8, i64>,
    pub elapsed_ms: u64,
    pub valve_health: Seq<ValveHealth>,
    pub motion_complete: bool,
}

impl<'a> View for Sample<'a> {
    type V = SampleView;

    open spec fn view(&self) -> SampleView {
        SampleView {
            temperatures: self.now.temperatures@,
            pressures: self.now.pressures@,
            temperatures_before: self.before.temperatures@,
            elapsed_ms: self.elapsed_ms,
            valve_health: self.valve_health@,
            motion_complete: self.motion_complete,
        }
    }
}

/// A violated safety limit.
#[derive(Debug, Clone, Copy, PartialEq, Eq, Structural)]
pub enum SafetyViolation {
    /// A zone is hotter than the maximum temperature.
    OverTemperature { zone: u8 },
    /// The temperature of a zone changes faster than the runaway rate.
    ThermalRunaway { zone: u8 },
    /// A channel is above the maximum pressure.
    OverPressure { channel: u8 },
    /// A channel that had reached its target deviates from it by more than
    /// the fault threshold.
    PressureFault { channel: u8 },
    /// A valve has failed.
    ValveFailure { position: GridCoordinate, valve_id: u8 },
    /// The Z axis moves although no move is under way.
    MotionFault,
}

/// The smallest key from `from` on that satisfies the predicate.
pub open spec fn first_key(pred: spec_fn(u8) -> bool, from: int) -> Option<u8>
    decreases 256 - from,
{
    if from < 0 || from >= 256 {
        None
    } else if pred(from as u8) {
        Some(from as u8)
    } else {
        first_key(pred, from + 1)
    }
}

/// The first index from `from` on of a failed valve.
pub open spec fn first_failed(health: Seq<ValveHealth>, from: int) -> Option<int>
    decreases health.len() - from,
{
    if from < 0 || from >= health.len() {
        None
    } else if health[from].health_score <= 0 {
        Some(from)
    } else {
        first_failed(health, from + 1)
    }
}

/// Channel `c` has reached the target that it has now: `reached` holds,
/// for each channel that was seen at its target, the target it was seen at.
pub open spec fn spec_latched(targets: Map<u8, Reading>, reached: Map<u8, i64>, c: u8) -> bool {
    targets.contains_key(c) && reached.contains_key(c) && reached[c] == targets[c].1
}

/// The temperature changed faster than `rate` allows: the change, scaled
/// to a second, exceeds the rate. No time elapsed means no rate.
pub open spec fn spec_runaway(before: i64, now: i64, elapsed_ms: u64, rate: i64) -> bool {
    elapsed_ms > 0 && spec_abs_diff(now as int, before as int) * 1000 > rate as int
        * elapsed_ms as int
}

impl SampleView {
    /// Zone `z` is hotter than the maximum.
    pub open spec fn over_temperature(self, limits: SafetyLimits, z: u8) -> bool {
        self.temperatures.contains_key(z) && self.temperatures[z] > limits.max_temperature
    }

    /// Zone `z` was read at both ticks and changed too fast.
    pub open spec fn runaway(self, limits: SafetyLimits, z: u8) -> bool {
        self.temperatures.contains_key(z) && self.temperatures_before.contains_key(z)
            && spec_runaway(
            self.temperatures_before[z],
            self.temperatures[z],
            self.elapsed_ms,
            limits.thermal_runaway_rate,
        )
    }

    /// Channel `c` is above the maximum pressure.
    pub open spec fn over_pressure(self, limits: SafetyLimits, c: u8) -> bool {
        self.pressures.contains_key(c) && self.pressures[c] > limits.max_pressure
    }

    /// Channel `c` is read, has a target, and lies more than the fault
    /// threshold away from it.
    pub open spec fn off_target(self, limits: SafetyLimits, targets: Map<u8, Reading>, c: u8) -> bool {
        self.pressures.contains_key(c) && targets.contains_key(c) && spec_abs_diff(
            self.pressures[c] as int,
            targets[c].1 as int,
        ) > limits.pressure_fault_threshold
    }

    /// Channel `c` is read, has a target, and lies within the fault
    /// threshold of it.
    pub open spec fn on_target(self, limits: SafetyLimits, targets: Map<u8, Reading>, c: u8) -> bool {
        self.pressures.contains_key(c) && targets.contains_key(c) && spec_abs_diff(
            self.pressures[c] as int,
            targets[c].1 as int,
        ) <= limits.pressure_fault_threshold
    }

    /// Channel `c` deviates from its target by more than the fault
    /// threshold although it had reached that target: on the way to a
    /// target that was just set a channel is not at fault, and once it has
    /// arrived every deviation counts, however slowly it grows.
    pub open spec fn pressure_fault(
        self,
        limits: SafetyLimits,
        targets: Map<u8, Reading>,
        reached: Map<u8, i64>,
        c: u8,
    ) -> bool {
        spec_latched(targets, reached, c) && self.off_target(limits, targets, c)
    }

    /// The targets that the channels have reached, once this sample was
    /// seen: a channel that lies within the fault threshold of its target
    /// has reached it, a channel that had reached its target before keeps
    /// it, and a channel whose target has changed since starts anew.
    pub open spec fn latches(
        self,
        limits: SafetyLimits,
        targets: Map<u8, Reading>,
        reached: Map<u8, i64>,
    ) -> Map<u8, i64> {
        Map::new(
            |c: u8| spec_latched(targets, reached, c) || self.on_target(limits, targets, c),
            |c: u8| targets[c].1,
        )
    }

    /// The first violation that this sample shows, in the order: a zone
    /// that is too hot, a zone whose temperature runs away, a channel
    /// above the maximum pressure, a channel that deviates from the target
    /// it had reached, a failed valve, an axis that moves without a move
    /// under way. Zones and channels are taken by ascending number and
    /// valves in the order of the report. `None` when every check passes.
    pub open spec fn violation(
        self,
        limits: SafetyLimits,
        s: SystemStateView,
        reached: Map<u8, i64>,
    ) -> Option<SafetyViolation> {
        if first_key(|z: u8| self.over_temperature(limits, z), 0) is Some {
            Some(
                SafetyViolation::OverTemperature {
                    zone: first_key(|z: u8| self.over_temperature(limits, z), 0).unwrap(),
                },
            )
        } else if first_key(|z: u8| self.runaway(limits, z), 0) is Some {
            Some(
                SafetyViolation::ThermalRunaway {
                    zone: first_key(|z: u8| self.runaway(limits, z), 0).unwrap(),
                },
            )
        } else if first_key(|c: u8| self.over_pressure(limits, c), 0) is Some {
            Some(
                SafetyViolation::OverPressure {
                    channel: first_key(|c: u8| self.over_pressure(limits, c), 0).unwrap(),
                },
            )
        } else if first_key(
            |c: u8| self.pressure_fault(limits, s.pressure.channels, reached, c),
            0,
        ) is Some {
            Some(
                SafetyViolation::PressureFault {
                    channel: first_key(
                        |c: u8| self.pressure_fault(limits, s.pressure.channels, reached, c),
                        0,
                    ).unwrap(),
                },
            )
        } else if first_failed(self.valve_health, 0) is Some {
            let i = first_failed(self.valve_health, 0).unwrap();
            Some(
                SafetyViolation::ValveFailure {
                    position: self.valve_health[i].position,
                    valve_id: self.valve_health[i].valve_id,
                },
            )
        } else if !s.motion.z_moving && !self.motion_complete {
            Some(SafetyViolation::MotionFault)
        } else {
            None
        }
    }
}

/// A sample shows no violation exactly when no zone is too hot, no
/// temperature runs away, no channel is above the maximum pressure, no
/// channel deviates from the target it had reached, no valve has failed,
/// and the Z axis stands still unless a move is under way.
pub proof fn lemma_no_violation(
    sample: SampleView,
    limits: SafetyLimits,
    s: SystemStateView,
    reached: Map<u8, i64>,
)
    ensures
        sample.violation(limits, s, reached).is_none() <==> {
            &&& forall|z: u8| !sample.over_temperature(limits, z)
            &&& forall|z: u8| !sample.runaway(limits, z)
            &&& forall|c: u8| !sample.over_pressure(limits, c)
            &&& forall|c: u8| !sample.pressure_fault(limits, s.pressure.channels, reached, c)
            &&& forall|i: int|
                0 <= i < sample.valve_health.len() ==> sample.valve_health[i].health_score > 0
            &&& s.motion.z_moving || sample.motion_complete
        },
{
    let hot = |z: u8| sample.over_temperature(limits, z);
    let fast = |z: u8| sample.runaway(limits, z);
    let high = |c: u8| sample.over_pressure(limits, c);
    let off = |c: u8| sample.pressure_fault(limits, s.pressure.channels, reached, c);
    lemma_first_key_all(hot);
    lemma_first_key_all(fast);
    lemma_first_key_all(high);
    lemma_first_key_all(off);
    lemma_first_failed_all(sample.valve_health, 0);
    assert((forall|z: u8| !(#[trigger] hot(z))) <==> (forall|z: u8|
        !sample.over_temperature(limits, z))) by {
        assert(forall|z: u8| hot(z) == sample.over_temperature(limits, z));
    }
    assert((forall|z: u8| !(#[trigger] fast(z))) <==> (forall|z: u8| !sample.runaway(limits, z)))
        by {
        assert(forall|z: u8| fast(z) == sample.runaway(limits, z));
    }
    assert((forall|c: u8| !(#[trigger] high(c))) <==> (forall|c: u8|
        !sample.over_pressure(limits, c))) by {
        assert(forall|c: u8| high(c) == sample.over_pressure(limits, c));
    }
    assert((forall|c: u8| !(#[trigger] off(c))) <==> (forall|c: u8|
        !sample.pressure_fault(limits, s.pressure.channels, reached, c))) by {
        assert(forall|c: u8|
            off(c) == sample.pressure_fault(limits, s.pressure.channels, reached, c));
    }
}

/// A channel that has reached its target is at fault as soon as a sample
/// shows it further from the target than the fault threshold, however
/// many samples lie between and however small each change was; a channel
/// on its way to a target that it has not reached is not at fault.
pub proof fn lemma_deviation_is_a_fault(
    arrived: SampleView,
    later: SampleView,
    limits: SafetyLimits,
    targets: Map<u8, Reading>,
    reached: Map<u8, i64>,
    c: u8,
)
    requires
        arrived.on_target(limits, targets, c),
    ensures
        spec_latched(targets, arrived.latches(limits, targets, reached), c),
        later.off_target(limits, targets, c) ==> later.pressure_fault(
            limits,
            targets,
            arrived.latches(limits, targets, reached),
            c,
        ),
        spec_latched(targets, later.latches(limits, targets, arrived.latches(limits, targets, reached)), c),
        !spec_latched(targets, reached, c) ==> !later.pressure_fault(limits, targets, reached, c),
{
}

/// No key is found from zero on exactly when no key satisfies the
/// predicate.
pub proof fn lemma_first_key_all(pred: spec_fn(u8) -> bool)
    ensures
        first_key(pred, 0).is_none() <==> forall|k: u8| !(#[trigger] pred(k)),
{
    if first_key(pred, 0).is_none() {
        assert forall|k: u8| !(#[trigger] pred(k)) by {
            lemma_first_key_none(pred, 0, k);
        }
    } else {
        lemma_first_key_found(pred, 0);
    }
}

/// No failed valve is found from `from` on exactly when every valve from
/// there on has a positive health score.
pub proof fn lemma_first_failed_all(health: Seq<ValveHealth>, from: int)
    requires
        0 <= from,
    ensures
        first_failed(health, from).is_none() <==> forall|i: int|
            from <= i < health.len() ==> health[i].health_score > 0,
    decreases health.len() - from,
{
    if from < health.len() {
        lemma_first_failed_all(health, from + 1);
        if health[from].health_score > 0 {
            assert forall|i: int| from <= i < health.len() && first_failed(health, from).is_none()
                implies health[i].health_score > 0 by {
                if i > from {
                }
            }
        }
    }
}

/// Where no key is found, no key from `from` on satisfies the predicate.
pub proof fn lemma_first_key_none(pred: spec_fn(u8) -> bool, from: int, k: u8)
    requires
        0 <= from <= k,
        first_key(pred, from).is_none(),
    ensures
        !pred(k),
    decreases 256 - from,
{
    if from < k {
        lemma_first_key_none(pred, from + 1, k);
    }
}

/// The key that is found satisfies the predicate.
pub proof fn lemma_first_key_found(pred: spec_fn(u8) -> bool, from: int)
    requires
        0 <= from,
        first_key(pred, from) is Some,
    ensures
        pred(first_key(pred, from).unwrap()),
        from <= first_key(pred, from).unwrap(),
    decreases 256 - from,
{
    if !pred(from as u8) {
        lemma_first_key_found(pred, from + 1);
    }
}

fn beyond(value: i64, target: i64, threshold: i64) -> (b: bool)
    ensures
        b == (spec_abs_diff(value as int, target as int) > threshold),
{
    threshold < 0 || abs_diff(value, target) > threshold as u64
}

fn runaway(before: i64, now: i64, elapsed_ms: u64, rate: i64) -> (b: bool)
    ensures
        b == spec_runaway(before, now, elapsed_ms, rate),
{
    if elapsed_ms == 0 {
        return false;
    }
    let change: u64 = abs_diff(now, before);
    assert(-0x8000_0000_0000_0000_0000_0000_0000_0000 <= rate as int * elapsed_ms as int
        <= 0x7fff_ffff_ffff_ffff_ffff_ffff_ffff_ffff) by (nonlinear_arith)
        requires
            -0x8000_0000_0000_0000 <= rate as int <= 0x7fff_ffff_ffff_ffff,
            0 <= elapsed_ms as int <= 0xffff_ffff_ffff_ffff,
    ;
    let lhs: i128 = change as i128 * 1000;
    let rhs: i128 = rate as i128 * elapsed_ms as i128;
    lhs > rhs
}

/// Checks the limits at every tick of the safety monitor, and remembers
/// which pressure channels have reached their targets.
#[derive(Debug, Clone)]
pub struct SafetyMonitor {
    /// The limits to hold.
    pub limits: SafetyLimits,
    /// For each channel that was seen at its target, the target it was
    /// seen at.
    pub reached: HashMap<u8, i64>,
}

/// Mathematical value of a [`SafetyMonitor`].
pub struct SafetyMonitorView {
    pub limits: SafetyLimits,
    pub reached: Map<u8, i64>,
}

impl View for SafetyMonitor {
    type V = SafetyMonitorView;

    open spec fn view(&self) -> SafetyMonitorView {
        SafetyMonitorView { limits: self.limits, reached: self.reached@ }
    }
}

impl SafetyMonitor {
    /// A monitor for the given limits, which has seen no channel at its
    /// target yet.
    pub fn new(limits: SafetyLimits) -> (m: Self)
        ensures
            m@.limits == limits,
            m@.reached == Map::<u8, i64>::empty(),
    {
        Self { limits, reached: HashMap::new() }
    }

    fn hot_zone(&self, sample: &Sample) -> (r: Option<u8>)
        ensures
            r == first_key(|z: u8| sample@.over_temperature(self.limits, z), 0),
    {
        let ghost pred = |z: u8| sample@.over_temperature(self.limits, z);
        let mut k: u16 = 0;
        while k < 256
            invariant
                k <= 256,
                pred == (|z: u8| sample@.over_temperature(self.limits, z)),
                first_key(pred, 0) == first_key(pred, k as int),
            decreases 256 - k,
        {
            let key: u8 = k as u8;
            match sample.now.temperatures.get(&key) {
                Some(t) => {
                    if *t > self.limits.max_temperature {
                        assert(pred(key));
                        return Some(key);
                    }
                },
                None => {},
            }
            assert(!pred(key));
            k = k + 1;
        }
        None
    }

    fn runaway_zone(&self, sample: &Sample) -> (r: Option<u8>)
        ensures
            r == first_key(|z: u8| sample@.runaway(self.limits, z), 0),
    {
        let ghost pred = |z: u8| sample@.runaway(self.limits, z);
        let mut k: u16 = 0;
        while k < 256
            invariant
                k <= 256,
                pred == (|z: u8| sample@.runaway(self.limits, z)),
                first_key(pred, 0) == first_key(pred, k as int),
            decreases 256 - k,
        {
            let key: u8 = k as u8;
            match (sample.now.temperatures.get(&key), sample.before.temperatures.get(&key)) {
                (Some(now), Some(before)) => {
                    if runaway(
                        *before,
                        *now,
                        sample.elapsed_ms,
                        self.limits.thermal_runaway_rate,
                    ) {
                        assert(pred(key));
                        return Some(key);
                    }
                },
                _ => {},
            }
            assert(!pred(key));
            k = k + 1;
        }
        None
    }

    fn high_channel(&self, sample: &Sample) -> (r: Option<u8>)
        ensures
            r == first_key(|c: u8| sample@.over_pressure(self.limits, c), 0),
    {
        let ghost pred = |c: u8| sample@.over_pressure(self.limits, c);
        let mut k: u16 = 0;
        while k < 256
            invariant
                k <= 256,
                pred == (|c: u8| sample@.over_pressure(self.limits, c)),
                first_key(pred, 0) == first_key(pred, k as int),
            decreases 256 - k,
        {
            let key: u8 = k as u8;
            match sample.now.pressures.get(&key) {
                Some(p) => {
                    if *p > self.limits.max_pressure {
                        assert(pred(key));
                        return Some(key);
                    }
                },
                None => {},
            }
            assert(!pred(key));
            k = k + 1;
        }
        None
    }

    fn faulty_channel(&self, sample: &Sample, targets: &HashMap<u8, Reading>) -> (r: Option<u8>)
        ensures
            r == first_key(
                |c: u8| sample@.pressure_fault(self.limits, targets@, self.reached@, c),
                0,
            ),
    {
        let ghost pred = |c: u8| sample@.pressure_fault(self.limits, targets@, self.reached@, c);
        let mut k: u16 = 0;
        while k < 256
            invariant
                k <= 256,
                pred == (|c: u8|
                    sample@.pressure_fault(self.limits, targets@, self.reached@, c)),
                first_key(pred, 0) == first_key(pred, k as int),
            decreases 256 - k,
        {
            let key: u8 = k as u8;
            match (sample.now.pressures.get(&key), targets.get(&key), self.reached.get(&key)) {
                (Some(p), Some(t), Some(seen)) => {
                    if *seen == t.1 && beyond(*p, t.1, self.limits.pressure_fault_threshold) {
                        assert(pred(key));
                        return Some(key);
                    }
                },
                _ => {},
            }
            assert(!pred(key));
            k = k + 1;
        }
        None
    }

    /// Notes which channels have reached their targets, once `sample` was
    /// seen.
    fn latch(&mut self, sample: &Sample, targets: &HashMap<u8, Reading>)
        ensures
            final(self)@.limits == old(self)@.limits,
            final(self)@.reached == sample@.latches(
                old(self)@.limits,
                targets@,
                old(self)@.reached,
            ),
    {
        let ghost want = sample@.latches(self.limits, targets@, self.reached@);
        let mut next: HashMap<u8, i64> = HashMap::new();
        let mut k: u16 = 0;
        while k < 256
            invariant
                k <= 256,
                want == sample@.latches(self.limits, targets@, self.reached@),
                forall|j: u8|
                    #![trigger next@.contains_key(j)]
                    next@.contains_key(j) == ((j as int) < k && want.contains_key(j)),
                forall|j: u8| #![trigger next@[j]] next@.contains_key(j) ==> next@[j] == want[j],
            decreases 256 - k,
        {
            let key: u8 = k as u8;
            match targets.get(&key) {
                Some(t) => {
                    let kept = match self.reached.get(&key) {
                        Some(seen) => *seen == t.1,
                        None => false,
                    };
                    let arrived = match sample.now.pressures.get(&key) {
                        Some(p) => !beyond(*p, t.1, self.limits.pressure_fault_threshold),
                        None => false,
                    };
                    if kept || arrived {
                        next.insert(key, t.1);
                    }
                },
                None => {},
            }
            k = k + 1;
        }
        assert(next@ =~= want);
        self.reached = next;
    }

    fn failed_valve(health: &Vec<ValveHealth>) -> (r: Option<usize>)
        ensures
            match r {
                Some(i) => first_failed(health@, 0) == Some(i as int) && i < health@.len(),
                None => first_failed(health@, 0).is_none(),
            },
    {
        let mut i: usize = 0;
        while i < health.len()
            invariant
                i <= health@.len(),
                first_failed(health@, 0) == first_failed(health@, i as int),
            decreases health@.len() - i,
        {
            if health[i].health_score <= 0 {
                return Some(i);
            }
            i = i + 1;
        }
        None
    }

    /// Checks one sample against the limits, the snapshot and the targets
    /// that the channels had reached, and names the first violation.
    pub fn check(&self, state: &SystemState, sample: &Sample) -> (v: Option<SafetyViolation>)
        ensures
            v == sample@.violation(self@.limits, state@, self@.reached),
    {
        match self.hot_zone(sample) {
            Some(zone) => {
                return Some(SafetyViolation::OverTemperature { zone });
            },
            None => {},
        }
        match self.runaway_zone(sample) {
            Some(zone) => {
                return Some(SafetyViolation::ThermalRunaway { zone });
            },
            None => {},
        }
        match self.high_channel(sample) {
            Some(channel) => {
                return Some(SafetyViolation::OverPressure { channel });
            },
            None => {},
        }
        match self.faulty_channel(sample, &state.pressure.channels) {
            Some(channel) => {
                return Some(SafetyViolation::PressureFault { channel });
            },
            None => {},
        }
        match Self::failed_valve(sample.valve_health) {
            Some(i) => {
                let h = sample.valve_health[i];
                return Some(
                    SafetyViolation::ValveFailure { position: h.position, valve_id: h.valve_id },
                );
            },
            None => {},
        }
        if !state.motion.z_moving && !sample.motion_complete {
            return Some(SafetyViolation::MotionFault);
        }
        None
    }

    /// One tick of the monitor: checks the sample and, on a violation,
    /// makes the snapshot safe at once and records the cause as a critical
    /// fault. The caller then carries out the emergency actions. Either
    /// way the monitor notes which channels have reached their targets.
    pub fn tick(&mut self, state: &mut SystemState, sample: &Sample, now_ms: u64) -> (v: Option<
        SafetyViolation,
    >)
        ensures
            v == sample@.violation(old(self)@.limits, old(state)@, old(self)@.reached),
            final(self)@.limits == old(self)@.limits,
            final(self)@.reached == sample@.latches(
                old(self)@.limits,
                old(state)@.pressure.channels,
                old(self)@.reached,
            ),
            match v {
                Some(violation) => {
                    &&& final(state)@ == old(state)@.tripped(
                        violation.spec_fault().promoted(now_ms),
                    )
                    &&& final(state)@.firmware_state == FirmwareState::EmergencyStopped
                },
                None => final(state)@ == old(state)@,
            },
            old(state)@.wf() ==> final(state)@.wf(),
    {
        let v = self.check(state, sample);
        self.latch(sample, &state.pressure.channels);
        match v {
            Some(violation) => {
                let fault = violation.fault();
                state.emergency_stop(fault.promote(now_ms));
            },
            None => {},
        }
        v
    }
}

impl SafetyViolation {
    /// What the violation says in the text of its fault.
    pub open spec fn spec_detail(self) -> Seq<char> {
        match self {
            SafetyViolation::OverTemperature { zone } => "temperature above maximum in zone "@
                + spec_decimal(zone as nat),
            SafetyViolation::ThermalRunaway { zone } => "thermal runaway in zone "@ + spec_decimal(
                zone as nat,
            ),
            SafetyViolation::OverPressure { channel } => "pressure above maximum in channel "@
                + spec_decimal(channel as nat),
            SafetyViolation::PressureFault { channel } => "pressure fault in channel "@
                + spec_decimal(channel as nat),
            SafetyViolation::ValveFailure { position, valve_id } => "valve "@ + spec_decimal(
                valve_id as nat,
            ) + " failed at node "@ + spec_decimal(position.x as nat) + ","@ + spec_decimal(
                position.y as nat,
            ),
            SafetyViolation::MotionFault => "Z axis moves without a move under way"@,
        }
    }

    /// The fault that the violation is reported as.
    pub open spec fn spec_fault(self) -> FirmwareErrorView {
        FirmwareErrorView { kind: FaultKind::SafetyViolation, detail: self.spec_detail() }
    }

    /// The fault that the violation is reported as.
    pub fn fault(&self) -> (f: FirmwareError)
        ensures
            f@ == self.spec_fault(),
    {
        let mut s = String::new();
        match self {
            SafetyViolation::OverTemperature { zone } => {
                s.append("temperature above maximum in zone ");
                push_decimal(&mut s, *zone as u64);
            },
            SafetyViolation::ThermalRunaway { zone } => {
                s.append("thermal runaway in zone ");
                push_decimal(&mut s, *zone as u64);
            },
            SafetyViolation::OverPressure { channel } => {
                s.append("pressure above maximum in channel ");
                push_decimal(&mut s, *channel as u64);
            },
            SafetyViolation::PressureFault { channel } => {
                s.append("pressure fault in channel ");
                push_decimal(&mut s, *channel as u64);
            },
            SafetyViolation::ValveFailure { position, valve_id } => {
                s.append("valve ");
                push_decimal(&mut s, *valve_id as u64);
                s.append(" failed at node ");
                push_decimal(&mut s, position.x as u64);
                s.append(",");
                push_decimal(&mut s, position.y as u64);
            },
            SafetyViolation::MotionFault => {
                s.append("Z axis moves without a move under way");
            },
        }
        assert(s@ =~= self.spec_detail());
        FirmwareError::SafetyViolation(s)
    }
}

/// The emergency actions, in the order in which they are attempted: close
/// all valves, stop the Z axis, de-energize the heaters, vent the pressure.
pub open spec fn spec_emergency_actions() -> Seq<ActionView> {
    seq![
        ActionView::CloseAllValves,
        ActionView::StopMotion,
        ActionView::HeatersOff,
        ActionView::VentPressure,
    ]
}

/// Makes the machine safe, whatever it is doing.
#[derive(Debug, Clone, Copy, PartialEq, Eq, Structural)]
pub struct EmergencyStopHandler {
    /// Number of emergency actions that failed since the handler was made.
    pub failed_actions: u32,
}

impl EmergencyStopHandler {
    /// A handler that has seen no failure.
    pub fn new() -> (h: Self)
        ensures
            h.failed_actions == 0,
    {
        Self { failed_actions: 0 }
    }

    /// Triggers the emergency stop: the snapshot is made safe, the cause is
    /// recorded unless it is on record, and the four emergency actions are
    /// handed out, whatever the mode was. The caller attempts each of
    /// them, whether or not another one failed.
    pub fn trigger(&self, state: &mut SystemState, cause: SystemError) -> (actions: Vec<Action>)
        ensures
            final(state)@ == old(state)@.tripped(cause@),
            final(state)@.firmware_state == FirmwareState::EmergencyStopped,
            final(state)@.records(cause@),
            plan_view(actions@) == spec_emergency_actions(),
            old(state)@.wf() ==> final(state)@.wf(),
    {
        state.emergency_stop(cause);
        Self::actions()
    }

    /// The four emergency actions.
    pub fn actions() -> (actions: Vec<Action>)
        ensures
            plan_view(actions@) == spec_emergency_actions(),
    {
        let mut actions: Vec<Action> = Vec::new();
        actions.push(Action::CloseAllValves);
        actions.push(Action::StopMotion);
        actions.push(Action::HeatersOff);
        actions.push(Action::VentPressure);
        assert(plan_view(actions@) =~= spec_emergency_actions());
        actions
    }

    /// Takes the outcome of one emergency action. A failure is counted and
    /// recorded as a fault of the snapshot; it is never retried and never
    /// keeps the other actions from being attempted.
    pub fn record(&mut self, state: &mut SystemState, name: &str, succeeded: bool, now_ms: u64)
        ensures
            succeeded ==> final(state)@ == old(state)@ && *final(self) == *old(self),
            !succeeded ==> {
                &&& final(state)@ == old(state)@.with_error(
                    (FirmwareErrorView {
                        kind: FaultKind::HardwareOperation,
                        detail: name@,
                    }).promoted(now_ms),
                )
                &&& final(self).failed_actions as int == if old(self).failed_actions < u32::MAX {
                    old(self).failed_actions + 1
                } else {
                    u32::MAX as int
                }
            },
            old(state)@.wf() ==> final(state)@.wf(),
    {
        if !succeeded {
            let fault = FirmwareError::HardwareOperation(String::from_str(name));
            state.add_error(fault.promote(now_ms));
            if self.failed_actions < u32::MAX {
                self.failed_actions = self.failed_actions + 1;
            }
        }
    }
}

} // verus!
