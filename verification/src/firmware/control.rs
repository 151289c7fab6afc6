//! The control loops: thermal and pressure regulation, and the assembly
//! of status snapshots.

use vstd::prelude::*;
use std::collections::HashMap;
use crate::config_types::{PidParameters, ThermalConfig};
use crate::firmware::state::{
    FirmwareState, PressureStateView, Reading, SystemState, SystemStateView, ThermalStateView,
    readings_ok,
};
use crate::gcode_types::spec_clamp_i64;

verus! {

/// `a / b` rounded towards zero, for a positive divisor.
pub open spec fn spec_div(a: int, b: int) -> int
    recommends
        b > 0,
{
    if a >= 0 {
        a / b
    } else {
        -((-a) / b)
    }
}

/// A value limited to the range from `lo` to `hi`.
pub open spec fn spec_clamp(v: int, lo: int, hi: int) -> int {
    if v < lo {
        lo
    } else if v > hi {
        hi
    } else {
        v
    }
}

fn div_trunc(a: i128, b: i128) -> (q: i128)
    requires
        b > 0,
        a > i128::MIN,
    ensures
        q as int == spec_div(a as int, b as int),
        a >= 0 ==> 0 <= q && q * b <= a,
        a < 0 ==> q <= 0 && q * b >= a,
{
    if a >= 0 {
        let q: i128 = a / b;
        assert(q * b <= a) by (nonlinear_arith)
            requires
                q == a as int / b as int,
                b > 0,
                a >= 0,
        ;
        q
    } else {
        let n: i128 = -a;
        let q: i128 = n / b;
        assert(q * b <= n) by (nonlinear_arith)
            requires
                q == n as int / b as int,
                b > 0,
                n >= 0,
        ;
        assert((-q) * b == -(q * b)) by (nonlinear_arith);
        -q
    }
}

fn to_i64(v: i128) -> (r: i64)
    ensures
        r as int == spec_clamp_i64(v as int),
{
    if v > i64::MAX as i128 {
        i64::MAX
    } else if v < i64::MIN as i128 {
        i64::MIN
    } else {
        v as i64
    }
}

/// What a regulator remembers between two steps.
#[derive(Debug, Clone, Copy, PartialEq, Eq, Structural)]
pub struct PidState {
    /// Sum of the errors over time, in thousandths of a unit times
    /// seconds.
    pub integral: i64,
    /// Error at the step before.
    pub last_error: i64,
}

/// One term of the output: a gain in thousandths applied to a value.
pub open spec fn spec_term(gain: i64, value: int) -> int {
    spec_div(gain as int * value, 1000)
}

/// One step of a PID regulator: the state after the step and the raw
/// output. The error is the target less the current value; the integral
/// grows by the error over the elapsed time; the derivative is the change
/// of the error, scaled to a second, and zero when no time has elapsed.
/// Every intermediate value is held within the range of `i64`.
pub open spec fn spec_pid(
    params: PidParameters,
    state: PidState,
    current: i64,
    target: i64,
    dt_ms: u64,
) -> (PidState, int) {
    let error = spec_clamp_i64(target as int - current as int);
    let integral = spec_clamp_i64(state.integral as int + spec_div(error * dt_ms as int, 1000));
    let derivative = if dt_ms > 0 {
        spec_clamp_i64(spec_div((error - state.last_error as int) * 1000, dt_ms as int))
    } else {
        0
    };
    (
        PidState { integral: integral as i64, last_error: error as i64 },
        spec_term(params.kp, error) + spec_term(params.ki, integral) + spec_term(
            params.kd,
            derivative,
        ),
    )
}

fn mul_wide(a: i64, b: i64) -> (p: i128)
    ensures
        p as int == a as int * b as int,
        p > i128::MIN,
{
    assert(-0x4000_0000_0000_0000_0000_0000_0000_0000 <= a as int * b as int
        <= 0x4000_0000_0000_0000_0000_0000_0000_0000) by (nonlinear_arith)
        requires
            -0x8000_0000_0000_0000 <= a as int <= 0x7fff_ffff_ffff_ffff,
            -0x8000_0000_0000_0000 <= b as int <= 0x7fff_ffff_ffff_ffff,
    ;
    a as i128 * b as i128
}

fn mul_time(a: i64, dt_ms: u64) -> (p: i128)
    ensures
        p as int == a as int * dt_ms as int,
        p > i128::MIN,
{
    assert(-0x8000_0000_0000_0000_0000_0000_0000_0000 < a as int * dt_ms as int
        <= 0x7fff_ffff_ffff_ffff_ffff_ffff_ffff_ffff) by (nonlinear_arith)
        requires
            -0x8000_0000_0000_0000 <= a as int <= 0x7fff_ffff_ffff_ffff,
            0 <= dt_ms as int <= 0xffff_ffff_ffff_ffff,
    ;
    a as i128 * dt_ms as i128
}

fn term(gain: i64, value: i64) -> (t: i128)
    ensures
        t as int == spec_term(gain, value as int),
        -0x20_0000_0000_0000_0000_0000_0000_0000 <= t <= 0x20_0000_0000_0000_0000_0000_0000_0000,
{
    let p = mul_wide(gain, value);
    assert(-0x4000_0000_0000_0000_0000_0000_0000_0000 <= p
        <= 0x4000_0000_0000_0000_0000_0000_0000_0000) by (nonlinear_arith)
        requires
            p == gain as int * value as int,
            -0x8000_0000_0000_0000 <= gain as int <= 0x7fff_ffff_ffff_ffff,
            -0x8000_0000_0000_0000 <= value as int <= 0x7fff_ffff_ffff_ffff,
    ;
    div_trunc(p, 1000)
}

/// Runs one step of a PID regulator and gives its raw output.
pub fn pid_step(
    params: &PidParameters,
    state: &mut PidState,
    current: i64,
    target: i64,
    dt_ms: u64,
) -> (raw: i128)
    ensures
        (*final(state), raw as int) == spec_pid(*params, *old(state), current, target, dt_ms),
        -0x60_0000_0000_0000_0000_0000_0000_0000 <= raw <= 0x60_0000_0000_0000_0000_0000_0000_0000,
{
    let error: i64 = to_i64(target as i128 - current as i128);
    let grown: i128 = div_trunc(mul_time(error, dt_ms), 1000);
    let integral: i64 = to_i64(state.integral as i128 + grown);
    let derivative: i64 = if dt_ms > 0 {
        let change: i128 = (error as i128 - state.last_error as i128) * 1000;
        to_i64(div_trunc(change, dt_ms as i128))
    } else {
        0
    };
    state.integral = integral;
    state.last_error = error;
    let p = term(params.kp, error);
    let i = term(params.ki, integral);
    let d = term(params.kd, derivative);
    p + i + d
}

/// The output of a regulator: the raw output of its PID step, held
/// between the two limits.
pub open spec fn spec_output(raw: int, min_output: i64, max_output: i64) -> i64 {
    spec_clamp(raw, min_output as int, max_output as int) as i64
}

fn limit_output(raw: i128, min_output: i64, max_output: i64) -> (out: i64)
    ensures
        out == spec_output(raw as int, min_output, max_output),
{
    if raw < min_output as i128 {
        min_output
    } else if raw > max_output as i128 {
        max_output
    } else {
        raw as i64
    }
}

/// The regulator of one zone or channel.
#[derive(Debug, Clone, Copy, PartialEq, Eq, Structural)]
pub struct Regulator {
    /// Zone or channel that is regulated.
    pub id: u8,
    /// Gains.
    pub pid: PidParameters,
    /// Smallest output.
    pub min_output: i64,
    /// Largest output.
    pub max_output: i64,
    /// What the regulator remembers.
    pub state: PidState,
}

impl Regulator {
    /// The regulator after one step on the readings, and its output: a
    /// regulator whose zone or channel has no reading does not step and
    /// gives no output.
    pub open spec fn stepped(self, values: Map<u8, Reading>, dt_ms: u64) -> (
        Regulator,
        Option<i64>,
    ) {
        if values.contains_key(self.id) {
            let r = spec_pid(self.pid, self.state, values[self.id].0, values[self.id].1, dt_ms);
            (
                Regulator { state: r.0, ..self },
                Some(spec_output(r.1, self.min_output, self.max_output)),
            )
        } else {
            (self, None)
        }
    }
}

/// The regulators after one step each.
pub open spec fn spec_stepped(rs: Seq<Regulator>, values: Map<u8, Reading>, dt_ms: u64) -> Seq<
    Regulator,
> {
    Seq::new(rs.len(), |i: int| rs[i].stepped(values, dt_ms).0)
}

/// The outputs of the regulators that have a reading, in the order of
/// the regulators, each with its zone or channel.
pub open spec fn spec_outputs(rs: Seq<Regulator>, values: Map<u8, Reading>, dt_ms: u64) -> Seq<
    (u8, i64),
>
    decreases rs.len(),
{
    if rs.len() == 0 {
        Seq::empty()
    } else {
        spec_outputs(rs.drop_last(), values, dt_ms) + (match rs.last().stepped(values, dt_ms).1 {
            Some(out) => seq![(rs.last().id, out)],
            None => Seq::empty(),
        })
    }
}

/// Steps every regulator that has a reading.
pub fn regulate(regulators: &mut Vec<Regulator>, values: &HashMap<u8, Reading>, dt_ms: u64) -> (out:
    Vec<(u8, i64)>)
    ensures
        final(regulators)@ == spec_stepped(old(regulators)@, values@, dt_ms),
        out@ == spec_outputs(old(regulators)@, values@, dt_ms),
{
    let ghost before = regulators@;
    let mut out: Vec<(u8, i64)> = Vec::new();
    let mut i: usize = 0;
    while i < regulators.len()
        invariant
            i <= regulators@.len(),
            regulators@.len() == before.len(),
            forall|j: int| 0 <= j < i ==> regulators@[j] == before[j].stepped(values@, dt_ms).0,
            forall|j: int| i <= j < before.len() ==> regulators@[j] == before[j],
            out@ == spec_outputs(before.take(i as int), values@, dt_ms),
        decreases regulators@.len() - i,
    {
        let mut r = regulators[i];
        proof {
            assert(before.take(i as int + 1).drop_last() =~= before.take(i as int));
            assert(before.take(i as int + 1).last() == before[i as int]);
        }
        match values.get(&r.id) {
            Some(reading) => {
                let mut state = r.state;
                let raw = pid_step(&r.pid, &mut state, reading.0, reading.1, dt_ms);
                r.state = state;
                out.push((r.id, limit_output(raw, r.min_output, r.max_output)));
                regulators.set(i, r);
            },
            None => {},
        }
        i = i + 1;
    }
    proof {
        assert(before.take(i as int) =~= before);
        assert(regulators@ =~= spec_stepped(before, values@, dt_ms));
    }
    out
}

/// The readings of a map replaced by fresh values: a zone or channel that
/// was read takes its new value and keeps its target, one that was not
/// read keeps both, and one that was read for the first time gets the
/// target zero.
pub open spec fn spec_refreshed(m: Map<u8, Reading>, fresh: Map<u8, i64>) -> Map<u8, Reading> {
    Map::new(
        |k: u8| m.contains_key(k) || fresh.contains_key(k),
        |k: u8|
            if fresh.contains_key(k) {
                (
                    fresh[k],
                    if m.contains_key(k) {
                        m[k].1
                    } else {
                        0
                    },
                )
            } else {
                m[k]
            },
    )
}

/// Stores fresh values in a map of readings.
pub fn refresh(m: &mut HashMap<u8, Reading>, fresh: &HashMap<u8, i64>)
    ensures
        final(m)@ == spec_refreshed(old(m)@, fresh@),
{
    let mut k: u16 = 0;
    while k < 256
        invariant
            k <= 256,
            forall|j: u8|
                #![trigger m@.contains_key(j)]
                m@.contains_key(j) == (old(m)@.contains_key(j) || ((j as int) < k
                    && fresh@.contains_key(j))),
            forall|j: u8|
                #![trigger m@[j]]
                m@.contains_key(j) ==> m@[j] == (if (j as int) < k && fresh@.contains_key(j) {
                    (
                        fresh@[j],
                        if old(m)@.contains_key(j) {
                            old(m)@[j].1
                        } else {
                            0i64
                        },
                    )
                } else {
                    old(m)@[j]
                }),
        decreases 256 - k,
    {
        let key: u8 = k as u8;
        match fresh.get(&key) {
            Some(v) => {
                let target: i64 = match m.get(&key) {
                    Some(r) => r.1,
                    None => 0,
                };
                m.insert(key, (*v, target));
            },
            None => {},
        }
        k = k + 1;
    }
    assert(m@ =~= spec_refreshed(old(m)@, fresh@));
}

/// The flow rates of a map replaced by fresh values.
pub open spec fn spec_flows(m: Map<u8, i64>, fresh: Map<u8, i64>) -> Map<u8, i64> {
    Map::new(
        |k: u8| m.contains_key(k) || fresh.contains_key(k),
        |k: u8|
            if fresh.contains_key(k) {
                fresh[k]
            } else {
                m[k]
            },
    )
}

/// Stores fresh flow rates.
pub fn refresh_flows(m: &mut HashMap<u8, i64>, fresh: &HashMap<u8, i64>)
    ensures
        final(m)@ == spec_flows(old(m)@, fresh@),
{
    let mut k: u16 = 0;
    while k < 256
        invariant
            k <= 256,
            forall|j: u8|
                #![trigger m@.contains_key(j)]
                m@.contains_key(j) == (old(m)@.contains_key(j) || ((j as int) < k
                    && fresh@.contains_key(j))),
            forall|j: u8|
                #![trigger m@[j]]
                m@.contains_key(j) ==> m@[j] == (if (j as int) < k && fresh@.contains_key(j) {
                    fresh@[j]
                } else {
                    old(m)@[j]
                }),
        decreases 256 - k,
    {
        let key: u8 = k as u8;
        match fresh.get(&key) {
            Some(v) => {
                m.insert(key, *v);
            },
            None => {},
        }
        k = k + 1;
    }
    assert(m@ =~= spec_flows(old(m)@, fresh@));
}

/// The thermal control loop.
#[derive(Debug, Clone)]
pub struct ThermalLoop {
    /// One regulator for each heated zone.
    pub regulators: Vec<Regulator>,
}

impl SystemStateView {
    /// The snapshot after a tick of the thermal loop: the temperatures
    /// that were read are stored, and the flag is recomputed.
    pub open spec fn thermal_tick(self, fresh: Map<u8, i64>, tolerance: i64) -> SystemStateView {
        let stored = ThermalStateView {
            zones: spec_refreshed(self.thermal.zones, fresh),
            ..self.thermal
        };
        SystemStateView {
            thermal: ThermalStateView { all_at_target: stored.at_target(tolerance), ..stored },
            ..self
        }
    }

    /// The snapshot after a tick of the pressure loop: the pressures and
    /// flow rates that were read are stored, and the flag is recomputed.
    pub open spec fn pressure_tick(
        self,
        fresh: Map<u8, i64>,
        flows: Map<u8, i64>,
        tolerance: i64,
    ) -> SystemStateView {
        let channels = spec_refreshed(self.pressure.channels, fresh);
        SystemStateView {
            pressure: PressureStateView {
                channels,
                flow_rates: spec_flows(self.pressure.flow_rates, flows),
                all_stable: readings_ok(channels, tolerance),
            },
            ..self
        }
    }

    /// Actuation is halted: the machine is emergency-stopped.
    pub open spec fn halted(self) -> bool {
        self.firmware_state == FirmwareState::EmergencyStopped
    }
}

impl ThermalLoop {
    /// A loop with one regulator for each zone of the configuration,
    /// whose output runs from zero to the heating power of the zone.
    pub fn new(config: &ThermalConfig) -> (l: Self)
        ensures
            l.regulators@.len() == config.zones@.len(),
            forall|i: int|
                0 <= i < config.zones@.len() ==> #[trigger] l.regulators@[i] == (Regulator {
                    id: config.zones@[i].id,
                    pid: config.zones@[i].pid,
                    min_output: 0,
                    max_output: config.zones@[i].power_watts,
                    state: PidState { integral: 0, last_error: 0 },
                }),
    {
        let mut regulators: Vec<Regulator> = Vec::new();
        let mut i: usize = 0;
        while i < config.zones.len()
            invariant
                i <= config.zones@.len(),
                regulators@.len() == i,
                forall|j: int|
                    0 <= j < i ==> #[trigger] regulators@[j] == (Regulator {
                        id: config.zones@[j].id,
                        pid: config.zones@[j].pid,
                        min_output: 0,
                        max_output: config.zones@[j].power_watts,
                        state: PidState { integral: 0, last_error: 0 },
                    }),
            decreases config.zones@.len() - i,
        {
            let z = &config.zones[i];
            regulators.push(
                Regulator {
                    id: z.id,
                    pid: z.pid,
                    min_output: 0,
                    max_output: z.power_watts,
                    state: PidState { integral: 0, last_error: 0 },
                },
            );
            i = i + 1;
        }
        Self { regulators }
    }

    /// One tick of the thermal loop: stores the temperatures that were
    /// read, recomputes the flag against the tolerance, and steps the
    /// regulator of every zone that has a reading. The loop goes on
    /// reading while the machine is emergency-stopped, but then steps no
    /// regulator and gives no output.
    pub fn tick(
        &mut self,
        state: &mut SystemState,
        fresh: &HashMap<u8, i64>,
        dt_ms: u64,
        tolerance: i64,
    ) -> (out: Vec<(u8, i64)>)
        ensures
            final(state)@ == old(state)@.thermal_tick(fresh@, tolerance),
            final(state)@ == crate::firmware::laws::state_step(
                old(state)@,
                crate::firmware::laws::Step::ThermalTick { fresh: fresh@, tolerance },
            ),
            old(state)@.halted() ==> out@.len() == 0 && final(self).regulators@ == old(
                self,
            ).regulators@,
            !old(state)@.halted() ==> {
                &&& out@ == spec_outputs(old(self).regulators@, final(state)@.thermal.zones, dt_ms)
                &&& final(self).regulators@ == spec_stepped(
                    old(self).regulators@,
                    final(state)@.thermal.zones,
                    dt_ms,
                )
            },
    {
        refresh(&mut state.thermal.zones, fresh);
        state.thermal.check_at_target(tolerance);
        if matches!(state.firmware_state, FirmwareState::EmergencyStopped) {
            return Vec::new();
        }
        regulate(&mut self.regulators, &state.thermal.zones, dt_ms)
    }
}

/// The pressure control loop.
#[derive(Debug, Clone)]
pub struct PressureLoop {
    /// One regulator for each channel.
    pub regulators: Vec<Regulator>,
}

/// The pressure to command for a channel: its target corrected by the
/// output of its regulator, held within the range of `i64`; the
/// correction alone for a channel without a target.
pub open spec fn spec_commanded(targets: Map<u8, Reading>, channel: u8, correction: i64) -> i64 {
    if targets.contains_key(channel) {
        spec_clamp_i64(targets[channel].1 as int + correction as int) as i64
    } else {
        correction
    }
}

/// The regulator that a pressure loop starts with for a channel: the
/// default gains, an output between the maximum pressure and its
/// negative, nothing remembered.
pub open spec fn spec_channel_regulator(id: u8, max_pressure: i64) -> Regulator {
    let limit: i64 = if max_pressure > 0 {
        max_pressure
    } else {
        0
    };
    Regulator {
        id,
        pid: PidParameters { kp: 20_000, ki: 500, kd: 100_000 },
        min_output: (-limit) as i64,
        max_output: limit,
        state: PidState { integral: 0, last_error: 0 },
    }
}

impl PressureLoop {
    /// A loop with one regulator for each of the first `channel_count`
    /// channels.
    pub fn for_channels(channel_count: u8, max_pressure: i64) -> (l: Self)
        ensures
            l.regulators@.len() == channel_count,
            forall|i: int|
                0 <= i < channel_count ==> #[trigger] l.regulators@[i] == spec_channel_regulator(
                    i as u8,
                    max_pressure,
                ),
    {
        let limit: i64 = if max_pressure > 0 {
            max_pressure
        } else {
            0
        };
        let mut regulators: Vec<Regulator> = Vec::new();
        let mut id: u8 = 0;
        while id < channel_count
            invariant
                id <= channel_count,
                0 <= limit,
                limit == (if max_pressure > 0 {
                    max_pressure
                } else {
                    0i64
                }),
                regulators@.len() == id,
                forall|i: int|
                    0 <= i < id ==> #[trigger] regulators@[i] == spec_channel_regulator(
                        i as u8,
                        max_pressure,
                    ),
            decreases channel_count - id,
        {
            regulators.push(
                Regulator {
                    id,
                    pid: PidParameters { kp: 20_000, ki: 500, kd: 100_000 },
                    min_output: -limit,
                    max_output: limit,
                    state: PidState { integral: 0, last_error: 0 },
                },
            );
            id = id + 1;
        }
        Self { regulators }
    }

    /// The pressures to command after a tick: for each output of a
    /// regulator, the target of its channel corrected by the output.
    pub fn commands(state: &SystemState, outputs: &Vec<(u8, i64)>) -> (out: Vec<(u8, i64)>)
        ensures
            out@.len() == outputs@.len(),
            forall|i: int|
                0 <= i < outputs@.len() ==> #[trigger] out@[i] == (
                    outputs@[i].0,
                    spec_commanded(state@.pressure.channels, outputs@[i].0, outputs@[i].1),
                ),
    {
        let mut out: Vec<(u8, i64)> = Vec::new();
        let mut i: usize = 0;
        while i < outputs.len()
            invariant
                i <= outputs@.len(),
                out@.len() == i,
                forall|j: int|
                    0 <= j < i ==> #[trigger] out@[j] == (
                        outputs@[j].0,
                        spec_commanded(state@.pressure.channels, outputs@[j].0, outputs@[j].1),
                    ),
            decreases outputs@.len() - i,
        {
            let (channel, correction) = outputs[i];
            let commanded: i64 = match state.pressure.channels.get(&channel) {
                Some(r) => to_i64(r.1 as i128 + correction as i128),
                None => correction,
            };
            out.push((channel, commanded));
            i = i + 1;
        }
        out
    }

    /// A loop with the given regulators.
    pub fn new(regulators: Vec<Regulator>) -> (l: Self)
        ensures
            l.regulators@ == regulators@,
    {
        Self { regulators }
    }

    /// One tick of the pressure loop: stores the pressures and flow rates
    /// that were read, recomputes the flag against the tolerance, and
    /// steps the regulator of every channel that has a reading. The loop
    /// goes on reading while the machine is emergency-stopped, but then
    /// steps no regulator and gives no output.
    pub fn tick(
        &mut self,
        state: &mut SystemState,
        fresh: &HashMap<u8, i64>,
        flows: &HashMap<u8, i64>,
        dt_ms: u64,
        tolerance: i64,
    ) -> (out: Vec<(u8, i64)>)
        ensures
            final(state)@ == old(state)@.pressure_tick(fresh@, flows@, tolerance),
            final(state)@ == crate::firmware::laws::state_step(
                old(state)@,
                crate::firmware::laws::Step::PressureTick { fresh: fresh@, flows: flows@, tolerance },
            ),
            old(state)@.halted() ==> out@.len() == 0 && final(self).regulators@ == old(
                self,
            ).regulators@,
            !old(state)@.halted() ==> {
                &&& out@ == spec_outputs(
                    old(self).regulators@,
                    final(state)@.pressure.channels,
                    dt_ms,
                )
                &&& final(self).regulators@ == spec_stepped(
                    old(self).regulators@,
                    final(state)@.pressure.channels,
                    dt_ms,
                )
            },
    {
        refresh(&mut state.pressure.channels, fresh);
        refresh_flows(&mut state.pressure.flow_rates, flows);
        state.pressure.check_stable(tolerance);
        if matches!(state.firmware_state, FirmwareState::EmergencyStopped) {
            return Vec::new();
        }
        regulate(&mut self.regulators, &state.pressure.channels, dt_ms)
    }
}

} // verus!
