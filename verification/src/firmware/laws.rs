//! What holds of the engine as a whole, proved over its mathematical
//! model: every operation of the engine is one step of the model, and the
//! statements below hold of every run of steps.

use vstd::prelude::*;
use crate::firmware::commands::spec_target_refusal;
use crate::firmware::error::FirmwareErrorView;
use crate::firmware::executor::{Directive, ExecutorView, Outcome, Phase, spec_cooldown_plan};
use crate::firmware::scheduler::{ActionView, CommandScheduler, StreamLayerView};
use crate::firmware::state::{
    FirmwareState, PressureStateView, SystemErrorView, SystemStateView, ThermalStateView,
    is_bare, targets_zero,
};
use crate::firmware::state_machine::{StateMachine, Transition};
use crate::firmware::executor::EngineConfig;
use crate::gcode_types::{WaitType, total_open};

verus! {

/// One operation on the engine.
pub enum Step {
    /// A fault is recorded.
    AddError(SystemErrorView),
    /// The recorded faults are cleared.
    ClearErrors,
    /// The safety supervisor trips.
    Trip(SystemErrorView),
    /// An operator resets the machine.
    Reset,
    /// A request that changes the mode alone.
    Bare(Transition),
    /// The homing of the Z axis ends.
    Homed,
    /// A fault is reported and promoted.
    Report(FirmwareErrorView, u64),
    /// Readings and flags are stored directly.
    Readings(ThermalStateView, PressureStateView),
    /// The thermal loop ticks.
    ThermalTick { fresh: Map<u8, i64>, tolerance: i64 },
    /// The pressure loop ticks.
    PressureTick { fresh: Map<u8, i64>, flows: Map<u8, i64>, tolerance: i64 },
    /// The target temperature of a zone is set, below a maximum.
    SetTemperature { zone_id: u8, target: i64, max: i64 },
    /// The target pressure of a channel is set, below a maximum.
    SetPressure { channel_id: u8, target: i64, max: i64 },
    /// A job is offered.
    Start { file_path: Seq<char>, total_layers: u32, now_ms: u64 },
    /// A layer is handed over.
    Feed(StreamLayerView),
    /// The executor decides.
    Poll(u64),
    /// The outcome of an operation is reported.
    Complete(Outcome, u64),
    /// A pause is requested.
    Pause,
    /// A resume is requested.
    Resume,
    /// A cancellation is requested.
    Cancel,
}

/// The snapshot after an operation that concerns the snapshot alone; the
/// snapshot as it is for any other operation.
pub open spec fn state_step(s: SystemStateView, op: Step) -> SystemStateView {
    match op {
        Step::AddError(error) => s.with_error(error),
        Step::ClearErrors => s.without_errors(),
        Step::Trip(cause) => s.tripped(cause),
        Step::Reset => if s.firmware_state == FirmwareState::EmergencyStopped {
            SystemStateView {
                firmware_state: FirmwareState::Initializing,
                errors: Seq::empty(),
                ..s
            }
        } else {
            s
        },
        Step::Bare(t) => if is_bare(t) && StateMachine::spec_next(s.firmware_state, t).is_some() {
            s.in_mode(StateMachine::spec_next(s.firmware_state, t).unwrap())
        } else {
            s
        },
        Step::Homed => s.homed(),
        Step::Report(fault, timestamp) => s.reported(fault, timestamp),
        Step::Readings(thermal, pressure) => SystemStateView { thermal, pressure, ..s },
        Step::ThermalTick { fresh, tolerance } => s.thermal_tick(fresh, tolerance),
        Step::PressureTick { fresh, flows, tolerance } => s.pressure_tick(fresh, flows, tolerance),
        Step::SetTemperature { zone_id, target, max } => if spec_target_refusal(
            s,
            "Temperature"@,
            target,
            max,
        ).is_none() {
            s.with_temperature(zone_id, target)
        } else {
            s
        },
        Step::SetPressure { channel_id, target, max } => if spec_target_refusal(
            s,
            "Pressure"@,
            target,
            max,
        ).is_none() {
            s.with_pressure(channel_id, target)
        } else {
            s
        },
        _ => s,
    }
}

/// The engine after one operation.
pub open spec fn step(e: ExecutorView, s: SystemStateView, op: Step) -> (
    ExecutorView,
    SystemStateView,
) {
    match op {
        Step::Start { file_path, total_layers, now_ms } => if ExecutorView::start_refusal(
            s,
            total_layers,
        ).is_none() {
            (e.started(total_layers, now_ms), s.job_started(file_path, total_layers))
        } else {
            (e, s)
        },
        Step::Feed(layer) => if !e.expects_layer(s) {
            (e, s)
        } else if !e.in_order(layer.layer.layer_number) {
            (ExecutorView { cancel_requested: true, ..e }, s)
        } else {
            (e.fed(layer), s)
        },
        Step::Poll(now_ms) => (e.poll(s, now_ms).0, e.poll(s, now_ms).1),
        Step::Complete(outcome, now_ms) => (
            e.complete(s, outcome, now_ms).0,
            e.complete(s, outcome, now_ms).1,
        ),
        Step::Pause => if s.firmware_state == FirmwareState::Printing {
            (e, s.in_mode(FirmwareState::Paused))
        } else {
            (e, s)
        },
        Step::Resume => if s.firmware_state == FirmwareState::Paused {
            (e, s.in_mode(FirmwareState::Printing))
        } else {
            (e, s)
        },
        Step::Cancel => if s.firmware_state == FirmwareState::Printing {
            (ExecutorView { cancel_requested: true, ..e }, s)
        } else {
            (e, s)
        },
        _ => (e, state_step(s, op)),
    }
}

/// The engine after a run of operations, the first in the run first.
pub open spec fn run(e: ExecutorView, s: SystemStateView, ops: Seq<Step>) -> (
    ExecutorView,
    SystemStateView,
)
    decreases ops.len(),
{
    if ops.len() == 0 {
        (e, s)
    } else {
        let before = run(e, s, ops.drop_last());
        step(before.0, before.1, ops.last())
    }
}

/// The executor of an engine that was just built.
pub open spec fn fresh_executor(scheduler: CommandScheduler, config: EngineConfig) -> ExecutorView {
    ExecutorView {
        scheduler,
        config,
        phase: Phase::Idle,
        plan: Seq::empty(),
        cursor: 0,
        in_flight: false,
        retries: 0,
        total_layers: 0,
        layers_done: 0,
        last_layer: None,
        layer_z: 0,
        started_at: 0,
        cancel_requested: false,
    }
}

/// One operation keeps a well-formed engine well-formed.
pub proof fn lemma_step_preserves_wf(e: ExecutorView, s: SystemStateView, op: Step)
    requires
        e.wf(),
        s.wf(),
    ensures
        step(e, s, op).0.wf(),
        step(e, s, op).1.wf(),
{
    match op {
        Step::Feed(layer) => {
            let plan = e.scheduler.spec_plan_layer(layer);
            assert(forall|i: int| 1 <= i < plan.len() ==> !(#[trigger] plan[i]).sets_valves());
        },
        _ => {},
    }
}

/// In every snapshot that the engine can reach from its start, the list of
/// faults is empty exactly when the machine is in neither fault mode, and
/// the progress of a job exists only in the modes that carry a job.
pub proof fn lemma_reachable_snapshots(
    scheduler: CommandScheduler,
    config: EngineConfig,
    ops: Seq<Step>,
)
    ensures
        ({
            let s = run(fresh_executor(scheduler, config), SystemStateView::initial(), ops).1;
            &&& s.errors.len() == 0 <==> !s.firmware_state.is_error()
            &&& s.wf()
        }),
        run(fresh_executor(scheduler, config), SystemStateView::initial(), ops).0.wf(),
    decreases ops.len(),
{
    if ops.len() > 0 {
        lemma_reachable_snapshots(scheduler, config, ops.drop_last());
        let before = run(fresh_executor(scheduler, config), SystemStateView::initial(), ops.drop_last());
        lemma_step_preserves_wf(before.0, before.1, ops.last());
    }
}

/// An operation of the engine leaves the operating mode as it is or
/// changes it as the table of legal changes allows: no operation, in
/// whatever state of the engine, takes the machine from one mode to
/// another along a change that the table does not hold.
pub proof fn lemma_step_follows_table(e: ExecutorView, s: SystemStateView, op: Step)
    ensures
        step(e, s, op).1.firmware_state == s.firmware_state || StateMachine::spec_is_legal(
            s.firmware_state,
            step(e, s, op).1.firmware_state,
        ),
{
    let from = s.firmware_state;
    let to = step(e, s, op).1.firmware_state;
    if to != from {
        let t = if to == FirmwareState::EmergencyStopped {
            Transition::SafetyTrip
        } else if to == FirmwareState::Error {
            Transition::Fault
        } else if to == FirmwareState::Initializing {
            Transition::Reset
        } else if to == FirmwareState::Heating {
            Transition::StartPrint
        } else if to == FirmwareState::Homing {
            Transition::HomeRequested
        } else if to == FirmwareState::Paused {
            Transition::Pause
        } else if to == FirmwareState::ShuttingDown {
            Transition::Shutdown
        } else if to == FirmwareState::Printing {
            if from == FirmwareState::Heating {
                Transition::TargetsReached
            } else {
                Transition::Resume
            }
        } else if from == FirmwareState::Initializing {
            Transition::InitComplete
        } else if from == FirmwareState::Homing {
            Transition::HomeComplete
        } else if from == FirmwareState::Error {
            Transition::ErrorsCleared
        } else {
            Transition::Cancel
        };
        assert(StateMachine::spec_next(from, t) == Some(to));
    }
}

/// The executor holds what the operating mode says: while the machine is
/// heating the executor heats, and while it prints or is paused the
/// executor waits for a layer, works on one, or cools down.
pub open spec fn coupled(e: ExecutorView, s: SystemStateView) -> bool {
    &&& s.firmware_state == FirmwareState::Heating ==> e.phase == Phase::Heating
    &&& s.firmware_state == FirmwareState::Printing || s.firmware_state == FirmwareState::Paused
        ==> e.phase == Phase::AwaitLayer || e.phase == Phase::Layer || e.phase == Phase::Cooldown
}

/// No operation parts the executor from the operating mode.
pub proof fn lemma_step_keeps_coupled(e: ExecutorView, s: SystemStateView, op: Step)
    requires
        coupled(e, s),
    ensures
        coupled(step(e, s, op).0, step(e, s, op).1),
{
}

/// In every state that the engine can reach from its start the executor
/// holds what the operating mode says.
pub proof fn lemma_reachable_is_coupled(
    scheduler: CommandScheduler,
    config: EngineConfig,
    ops: Seq<Step>,
)
    ensures
        ({
            let end = run(fresh_executor(scheduler, config), SystemStateView::initial(), ops);
            coupled(end.0, end.1)
        }),
    decreases ops.len(),
{
    if ops.len() > 0 {
        lemma_reachable_is_coupled(scheduler, config, ops.drop_last());
        let before = run(
            fresh_executor(scheduler, config),
            SystemStateView::initial(),
            ops.drop_last(),
        );
        lemma_step_keeps_coupled(before.0, before.1, ops.last());
    }
}

/// A job leaves the heating for the printing only with its thermal
/// targets met: whatever the operation that takes the machine from
/// `Heating` to `Printing`, every temperature of the snapshot then lies
/// within the tolerance of its target.
pub proof fn lemma_printing_once_targets_reached(e: ExecutorView, s: SystemStateView, op: Step)
    requires
        s.firmware_state == FirmwareState::Heating,
        step(e, s, op).1.firmware_state == FirmwareState::Printing,
    ensures
        s.thermal.at_target(e.config.temp_tolerance),
        op matches Step::Complete(outcome, now_ms) && outcome == Outcome::Done,
        e.phase == Phase::Heating,
{
}

/// The plan moves past a wait for the temperature only while every
/// temperature of the snapshot lies within the tolerance of its target,
/// and past a wait for the pressure only while every pressure does.
pub proof fn lemma_waits_are_checked(
    e: ExecutorView,
    s: SystemStateView,
    outcome: Outcome,
    now_ms: u64,
)
    requires
        e.complete(s, outcome, now_ms).0.cursor == e.cursor + 1 || (e.phase == Phase::Heating
            && e.complete(s, outcome, now_ms).0.phase == Phase::AwaitLayer),
    ensures
        e.current() matches Some(ActionView::Wait { condition: WaitType::Temperature, timeout_ms })
            ==> s.thermal.at_target(e.config.temp_tolerance),
        e.current() matches Some(ActionView::Wait { condition: WaitType::Pressure, timeout_ms })
            ==> s.pressure.stable(e.config.pressure_tolerance),
{
}

/// A pause followed by a resume gives back the snapshot and the executor
/// as they were: the same layer number and Z position, the same place in
/// the plan, and so the same next operation.
pub proof fn lemma_pause_then_resume(e: ExecutorView, s: SystemStateView, now_ms: u64)
    requires
        s.firmware_state == FirmwareState::Printing,
    ensures
        ({
            let paused = step(e, s, Step::Pause);
            let resumed = step(paused.0, paused.1, Step::Resume);
            &&& paused.1.firmware_state == FirmwareState::Paused
            &&& paused.1.print_status == s.print_status
            &&& resumed.0 == e
            &&& resumed.1 == s
            &&& resumed.0.remaining() == e.remaining()
            &&& resumed.0.poll(resumed.1, now_ms) == e.poll(s, now_ms)
        }),
{
}

/// While the job is paused the executor hands out nothing and changes
/// nothing, and the outcome of an operation that was under way when the
/// pause came leaves the progress of the job as it was.
pub proof fn lemma_paused_job_is_held(
    e: ExecutorView,
    s: SystemStateView,
    outcome: Outcome,
    now_ms: u64,
)
    requires
        s.firmware_state == FirmwareState::Paused,
        e.phase == Phase::Layer || e.phase == Phase::AwaitLayer || e.phase == Phase::Cooldown,
    ensures
        e.poll(s, now_ms) == (e, s, Directive::Idle),
        outcome == Outcome::Done || (outcome == Outcome::Failed && e.retries < e.config.max_retries)
            ==> {
            &&& e.complete(s, outcome, now_ms).1.print_status == s.print_status
            &&& e.complete(s, outcome, now_ms).1.firmware_state == FirmwareState::Paused
            &&& e.complete(s, outcome, now_ms).0.plan == e.plan
        },
{
}

/// Once the valve call of a layer has been handed out, no operation that
/// is still to come sets valves: a resumed job never repeats the valve
/// call of a layer that was applied.
pub proof fn lemma_no_second_valve_call(e: ExecutorView, i: int)
    requires
        e.wf(),
        e.phase == Phase::Layer,
        e.cursor >= 1,
        0 <= i < e.remaining().len(),
    ensures
        !e.remaining()[i].sets_valves(),
{
    assert(e.remaining()[i] == e.plan[e.cursor + i]);
}

/// The engine driven with every operation succeeding: each decision that
/// hands out an operation is followed by its success, until the executor
/// asks for something else or `fuel` decisions were taken.
pub open spec fn drive(e: ExecutorView, s: SystemStateView, now_ms: u64, fuel: nat) -> (
    ExecutorView,
    SystemStateView,
    Directive,
)
    decreases fuel,
{
    let polled = e.poll(s, now_ms);
    if fuel == 0 {
        polled
    } else {
        match polled.2 {
            Directive::Perform => {
                let done = polled.0.complete(polled.1, Outcome::Done, now_ms);
                drive(done.0, done.1, now_ms, (fuel - 1) as nat)
            },
            Directive::Progress { .. } => drive(polled.0, polled.1, now_ms, (fuel - 1) as nat),
            _ => polled,
        }
    }
}

/// The cooldown, once begun and driven with every operation succeeding,
/// ends the job: the machine is idle, without progress, every thermal and
/// pressure target is zero and every valve is closed.
proof fn lemma_cooldown_ends_idle(e: ExecutorView, s: SystemStateView, now_ms: u64)
    requires
        s.firmware_state == FirmwareState::Printing,
        e.phase == Phase::Cooldown,
        e.plan == spec_cooldown_plan(e.config),
        e.cursor == 0,
        e.in_flight,
        !e.cancel_requested,
    ensures
        ({
            let first = e.complete(s, Outcome::Done, now_ms);
            let end = drive(first.0, first.1, now_ms, 3);
            &&& end.2 == Directive::Finished
            &&& end.1.firmware_state == FirmwareState::Idle
            &&& end.1.print_status.is_none()
            &&& end.1.thermal.targets_off()
            &&& targets_zero(end.1.pressure.channels)
            &&& end.1.valves.all_closed()
            &&& end.0.phase == Phase::Idle
        }),
{
    reveal_with_fuel(drive, 5);
    let a = e.complete(s, Outcome::Done, now_ms);
    assert(a.0.cursor == 1 && a.1.thermal.targets_off());
    let b = a.0.poll(a.1, now_ms);
    assert(b.2 == Directive::Perform);
    let c = b.0.complete(b.1, Outcome::Done, now_ms);
    assert(c.0.cursor == 2 && targets_zero(c.1.pressure.channels) && c.1.thermal.targets_off());
    let d = c.0.poll(c.1, now_ms);
    assert(d.2 == Directive::Perform);
    let f = d.0.complete(d.1, Outcome::Done, now_ms);
    assert(f.0.cursor == 3 && f.1.valves.all_closed());
    let g = f.0.poll(f.1, now_ms);
    assert(g.2 == Directive::Perform);
    let h = g.0.complete(g.1, Outcome::Done, now_ms);
    assert(h.0.cursor == 4);
    let k = h.0.poll(h.1, now_ms);
    assert(k.2 == Directive::Finished);
}

/// A cancellation is accepted whenever the machine prints, and then ends
/// in `Idle`, whatever the executor holds: a job at any layer and any
/// place of its plan, a cancellation or a cooldown that is already under
/// way, or no job at all. The operation that is under way, if any, is
/// completed, the cooldown runs from its first step, and with every
/// operation succeeding the machine ends idle, every thermal and pressure
/// target zero, every valve closed and the progress of the job dropped.
pub proof fn lemma_cancel_ends_idle(e: ExecutorView, s: SystemStateView, now_ms: u64)
    requires
        s.firmware_state == FirmwareState::Printing,
    ensures
        ({
            let cancelled = step(e, s, Step::Cancel);
            let settled = step(cancelled.0, cancelled.1, Step::Complete(Outcome::Done, now_ms));
            let end = drive(settled.0, settled.1, now_ms, 4);
            &&& cancelled.0.cancel_requested
            &&& end.2 == Directive::Finished
            &&& end.1.firmware_state == FirmwareState::Idle
            &&& end.1.print_status.is_none()
            &&& end.1.thermal.targets_off()
            &&& targets_zero(end.1.pressure.channels)
            &&& end.1.valves.all_closed()
            &&& end.0.phase == Phase::Idle
        }),
{
    let cancelled = step(e, s, Step::Cancel);
    let settled = step(cancelled.0, cancelled.1, Step::Complete(Outcome::Done, now_ms));
    let e1 = settled.0;
    let s1 = settled.1;
    assert(s1.firmware_state == FirmwareState::Printing);
    assert(e1.cancel_requested && !e1.under_way());
    reveal_with_fuel(drive, 2);
    let first = e1.poll(s1, now_ms);
    assert(first.0 == e1.cooling() && first.2 == Directive::Perform);
    lemma_cooldown_ends_idle(first.0, first.1, now_ms);
    let begun = first.0.complete(first.1, Outcome::Done, now_ms);
    assert(drive(e1, s1, now_ms, 4) == drive(begun.0, begun.1, now_ms, 3));
}

/// The engine together with the valve array that it drives.
pub struct World {
    /// The executor.
    pub executor: ExecutorView,
    /// The snapshot.
    pub state: SystemStateView,
    /// Some valve of the array is open.
    pub valve_open: bool,
}

/// What can happen to the engine and its valve array. The events of the
/// executor's caller and those of the safety supervisor may come in any
/// order.
pub enum Event {
    /// An operation on the engine. A safety trip carries out the emergency
    /// actions, and so does the caller of the executor when the outcome of
    /// an operation is answered with `MakeSafe`.
    Engine(Step),
    /// The hardware carries out the operation that the executor handed
    /// out, whenever the caller gets to it.
    Perform,
}

/// The machine was made safe by `op`: the safety supervisor tripped, a
/// reported safety violation tripped it, or the executor answered an
/// outcome with `MakeSafe`.
pub open spec fn makes_safe(e: ExecutorView, s: SystemStateView, op: Step) -> bool {
    match op {
        Step::Trip(_) => true,
        Step::Report(_, _) => s.firmware_state != FirmwareState::EmergencyStopped && step(
            e,
            s,
            op,
        ).1.firmware_state == FirmwareState::EmergencyStopped,
        Step::Complete(outcome, now_ms) => e.complete(s, outcome, now_ms).2
            == Directive::MakeSafe,
        _ => false,
    }
}

/// The world after one event.
pub open spec fn next(w: World, ev: Event) -> World {
    match ev {
        Event::Engine(op) => {
            let after = step(w.executor, w.state, op);
            World {
                executor: after.0,
                state: after.1,
                valve_open: if makes_safe(w.executor, w.state, op) {
                    false
                } else {
                    w.valve_open
                },
            }
        },
        Event::Perform => if w.executor.in_flight {
            match w.executor.current() {
                Some(ActionView::SetValves { layer_number, nodes }) => World {
                    valve_open: total_open(nodes) > 0,
                    ..w
                },
                Some(ActionView::CloseAllValves) => World { valve_open: false, ..w },
                _ => w,
            }
        } else {
            w
        },
    }
}

/// The world after a run of events, the first in the run first.
pub open spec fn unfold(w: World, events: Seq<Event>) -> World
    decreases events.len(),
{
    if events.len() == 0 {
        w
    } else {
        next(unfold(w, events.drop_last()), events.last())
    }
}

/// The engine is well-formed, and if a valve is open while the machine is
/// emergency-stopped, then an operation of the executor is still under
/// way, whose outcome will be answered with `MakeSafe`.
pub open spec fn safe(w: World) -> bool {
    &&& w.executor.wf()
    &&& w.state.wf()
    &&& w.state.firmware_state == FirmwareState::EmergencyStopped && w.valve_open
        ==> w.executor.in_flight
}

/// No event, in whatever order the events come, breaks [`safe`].
pub proof fn lemma_event_keeps_safe(w: World, ev: Event)
    requires
        safe(w),
    ensures
        safe(next(w, ev)),
{
    match ev {
        Event::Engine(op) => {
            lemma_step_preserves_wf(w.executor, w.state, op);
        },
        Event::Perform => {},
    }
}

/// Short of a reset, no event takes the machine out of the emergency stop.
proof fn lemma_stopped_stays_stopped(w: World, ev: Event)
    requires
        w.state.firmware_state == FirmwareState::EmergencyStopped,
        ev != Event::Engine(Step::Reset),
    ensures
        next(w, ev).state.firmware_state == FirmwareState::EmergencyStopped,
{
}

/// A safety violation at any moment, also in the middle of a layer and
/// also while a valve call of the executor is under way, leaves the
/// machine emergency-stopped with every valve closed: at once if the
/// hardware is idle, and otherwise as soon as the outcome of the call is
/// reported, whether the call reached the hardware before the trip or
/// after it. Until an operator resets the machine no later event opens a
/// valve for longer than an operation that was already under way.
pub proof fn lemma_trip_closes_valves(
    w: World,
    cause: SystemErrorView,
    later: Seq<Event>,
    outcome: Outcome,
    now_ms: u64,
)
    requires
        safe(w),
        forall|i: int| 0 <= i < later.len() ==> later[i] != Event::Engine(Step::Reset),
    ensures
        ({
            let tripped = next(w, Event::Engine(Step::Trip(cause)));
            let end = unfold(tripped, later);
            let reported = next(end, Event::Engine(Step::Complete(outcome, now_ms)));
            &&& tripped.state.firmware_state == FirmwareState::EmergencyStopped
            &&& !tripped.valve_open
            &&& end.state.firmware_state == FirmwareState::EmergencyStopped
            &&& safe(end)
            &&& !end.executor.in_flight ==> !end.valve_open
            &&& reported.state.firmware_state == FirmwareState::EmergencyStopped
            &&& !reported.valve_open
            &&& !reported.executor.in_flight
        }),
    decreases later.len(),
{
    let tripped = next(w, Event::Engine(Step::Trip(cause)));
    if later.len() > 0 {
        lemma_trip_closes_valves(w, cause, later.drop_last(), outcome, now_ms);
        let before = unfold(tripped, later.drop_last());
        assert(later.last() != Event::Engine(Step::Reset));
        lemma_event_keeps_safe(before, later.last());
        lemma_stopped_stays_stopped(before, later.last());
    }
    let end = unfold(tripped, later);
    let answered = end.executor.complete(end.state, outcome, now_ms);
    assert(end.executor.in_flight ==> end.executor.under_way());
    assert(answered.1.firmware_state == FirmwareState::EmergencyStopped);
}

} // verus!
