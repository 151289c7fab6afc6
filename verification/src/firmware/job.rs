//! A job from its start to its end: what the engine does with the layers
//! of a job when every operation succeeds.

use vstd::prelude::*;
use crate::firmware::executor::{Directive, ExecutorView, Outcome, Phase};
use crate::firmware::laws::{Step, drive, step};
use crate::firmware::scheduler::{
    ActionView, StreamLayerView, lemma_plan_ends_with_advance, spec_barriers, spec_valve_steps,
};
use crate::firmware::state::{FirmwareState, SystemStateView, spec_progress};

verus! {

/// The operations that the executor hands out while it is driven, in the
/// order in which it hands them out.
pub open spec fn handed_out(e: ExecutorView, s: SystemStateView, now_ms: u64, fuel: nat) -> Seq<
    ActionView,
>
    decreases fuel,
{
    let polled = e.poll(s, now_ms);
    if fuel == 0 {
        Seq::empty()
    } else {
        match polled.2 {
            Directive::Perform => {
                let done = polled.0.complete(polled.1, Outcome::Done, now_ms);
                seq![polled.0.plan[polled.0.cursor]] + handed_out(
                    done.0,
                    done.1,
                    now_ms,
                    (fuel - 1) as nat,
                )
            },
            Directive::Progress { .. } => handed_out(
                polled.0,
                polled.1,
                now_ms,
                (fuel - 1) as nat,
            ),
            _ => Seq::empty(),
        }
    }
}

/// The snapshot lets every wait of the executor pass: the temperatures
/// are at their targets and the pressures are stable.
pub open spec fn settled(e: ExecutorView, s: SystemStateView) -> bool {
    s.thermal.at_target(e.config.temp_tolerance) && s.pressure.stable(
        e.config.pressure_tolerance,
    )
}

/// The plan is that of a layer at height `z`: valve calls and waits, and
/// the advance to `z` last.
pub open spec fn layer_shaped(plan: Seq<ActionView>, z: i64) -> bool {
    &&& plan.len() >= 1
    &&& plan.last() matches ActionView::AdvanceLayer { layer_number, z_height } && z_height == z
    &&& forall|i: int|
        0 <= i < plan.len() - 1 ==> (#[trigger] plan[i]) is SetValves || plan[i] is Wait
}

/// The executor once the layer that it works on is closed.
pub open spec fn layer_closed(e: ExecutorView) -> ExecutorView {
    ExecutorView {
        phase: Phase::AwaitLayer,
        plan: Seq::empty(),
        cursor: 0,
        in_flight: false,
        retries: 0,
        layers_done: (e.layers_done + 1) as u32,
        ..e
    }
}

/// The rest of a layer, with every operation succeeding: each operation
/// that is left is handed out once, in the order of the plan; the layer
/// advance moves the Z axis to the height of the layer, whether or not the
/// layer has any node; the progress is recomputed; and the executor asks
/// for the next layer, or ends the job after the last one. Faults, thermal
/// and pressure state stay as they were.
pub proof fn lemma_rest_of_layer(e: ExecutorView, s: SystemStateView, now_ms: u64)
    requires
        e.phase == Phase::Layer,
        layer_shaped(e.plan, e.layer_z),
        0 <= e.cursor <= e.plan.len(),
        e.cursor == e.plan.len() ==> s.motion.z_position == e.layer_z,
        !e.in_flight,
        !e.cancel_requested,
        e.layers_done < e.total_layers,
        s.firmware_state == FirmwareState::Printing,
        settled(e, s),
    ensures
        ({
            let fuel = (e.plan.len() - e.cursor + 1) as nat;
            let end = drive(e, s, now_ms, fuel);
            let done = (e.layers_done + 1) as u32;
            &&& handed_out(e, s, now_ms, fuel) == e.remaining()
            &&& end.1.errors == s.errors
            &&& end.1.thermal == s.thermal
            &&& end.1.pressure == s.pressure
            &&& end.1.motion.z_position == e.layer_z
            &&& s.print_status is Some && done < e.total_layers ==> {
                &&& end.1.print_status is Some
                &&& end.1.print_status->0.current_layer == done
                &&& end.1.print_status->0.z_position == e.layer_z
                &&& end.1.print_status->0.total_layers == s.print_status->0.total_layers
                &&& end.1.print_status->0.progress_percent == spec_progress(
                    done,
                    s.print_status->0.total_layers,
                )
            }
            &&& if done < e.total_layers {
                &&& end.2 == (Directive::NeedLayer { index: done })
                &&& end.0 == layer_closed(e)
                &&& end.1.firmware_state == FirmwareState::Printing
            } else {
                &&& end.2 == Directive::Finished
                &&& end.0 == layer_closed(e).abandoned()
                &&& end.1.firmware_state == FirmwareState::Idle
                &&& end.1.print_status is None
            }
        }),
    decreases e.plan.len() - e.cursor,
{
    let fuel = (e.plan.len() - e.cursor + 1) as nat;
    if e.cursor == e.plan.len() {
        lemma_layer_closes(e, s, now_ms);
        reveal_with_fuel(drive, 2);
        reveal_with_fuel(handed_out, 2);
        assert(e.remaining() =~= Seq::empty());
    } else {
        let action = e.plan[e.cursor];
        lemma_one_operation(e, s, now_ms);
        let polled = e.poll(s, now_ms);
        let done = polled.0.complete(polled.1, Outcome::Done, now_ms);
        lemma_rest_of_layer(done.0, done.1, now_ms);
        assert(drive(e, s, now_ms, fuel) == drive(done.0, done.1, now_ms, (fuel - 1) as nat)) by {
            reveal_with_fuel(drive, 1);
        }
        assert(handed_out(e, s, now_ms, fuel) == seq![action] + handed_out(
            done.0,
            done.1,
            now_ms,
            (fuel - 1) as nat,
        )) by {
            reveal_with_fuel(handed_out, 1);
        }
        assert(e.remaining() =~= seq![action] + done.0.remaining());
    }
}

/// One operation of a layer, handed out and done.
proof fn lemma_one_operation(e: ExecutorView, s: SystemStateView, now_ms: u64)
    requires
        e.phase == Phase::Layer,
        layer_shaped(e.plan, e.layer_z),
        0 <= e.cursor < e.plan.len(),
        !e.in_flight,
        !e.cancel_requested,
        s.firmware_state == FirmwareState::Printing,
        settled(e, s),
    ensures
        ({
            let polled = e.poll(s, now_ms);
            let done = polled.0.complete(polled.1, Outcome::Done, now_ms);
            &&& polled.2 == Directive::Perform
            &&& polled.0.plan[polled.0.cursor] == e.plan[e.cursor]
            &&& done.0 == (ExecutorView { cursor: e.cursor + 1, retries: 0, ..e })
            &&& done.1.errors == s.errors
            &&& done.1.thermal == s.thermal
            &&& done.1.pressure == s.pressure
            &&& done.1.firmware_state == s.firmware_state
            &&& done.1.print_status == s.print_status
            &&& e.cursor + 1 == e.plan.len() ==> done.1.motion.z_position == e.layer_z
        }),
{
    let action = e.plan[e.cursor];
    let polled = e.poll(s, now_ms);
    assert(polled.0 == ExecutorView { in_flight: true, ..e });
    assert(polled.0.under_way());
    if e.cursor + 1 == e.plan.len() {
        assert(action == e.plan.last());
    } else {
        assert(action is SetValves || action is Wait);
    }
    assert(polled.1.thermal == s.thermal && polled.1.pressure == s.pressure);
    assert(polled.0.accepts(polled.1, action));
}

/// A layer whose plan is done is closed, and the executor asks for the
/// next layer or ends the job.
proof fn lemma_layer_closes(e: ExecutorView, s: SystemStateView, now_ms: u64)
    requires
        e.phase == Phase::Layer,
        e.cursor == e.plan.len(),
        !e.in_flight,
        !e.cancel_requested,
        e.layers_done < e.total_layers,
        s.firmware_state == FirmwareState::Printing,
    ensures
        ({
            let closed = e.poll(s, now_ms);
            let end = closed.0.poll(closed.1, now_ms);
            let done = (e.layers_done + 1) as u32;
            &&& closed.2 is Progress
            &&& closed.0 == layer_closed(e)
            &&& end.1.errors == s.errors
            &&& end.1.thermal == s.thermal
            &&& end.1.pressure == s.pressure
            &&& end.1.motion == s.motion
            &&& s.print_status is Some && done < e.total_layers ==> {
                &&& end.1.print_status is Some
                &&& end.1.print_status->0.current_layer == done
                &&& end.1.print_status->0.z_position == e.layer_z
                &&& end.1.print_status->0.total_layers == s.print_status->0.total_layers
                &&& end.1.print_status->0.progress_percent == spec_progress(
                    done,
                    s.print_status->0.total_layers,
                )
            }
            &&& if done < e.total_layers {
                &&& end.2 == (Directive::NeedLayer { index: done })
                &&& end.0 == layer_closed(e)
                &&& end.1.firmware_state == FirmwareState::Printing
            } else {
                &&& end.2 == Directive::Finished
                &&& end.0 == layer_closed(e).abandoned()
                &&& end.1.firmware_state == FirmwareState::Idle
                &&& end.1.print_status is None
            }
        }),
{
}

/// The engine fed with the layers of a job, one after the other, each
/// driven to its end before the next is fed.
pub open spec fn print_layers(
    e: ExecutorView,
    s: SystemStateView,
    layers: Seq<StreamLayerView>,
    now_ms: u64,
) -> (ExecutorView, SystemStateView, Directive)
    decreases layers.len(),
{
    if layers.len() == 0 {
        e.poll(s, now_ms)
    } else {
        let fed = step(e, s, Step::Feed(layers.first()));
        let end = drive(fed.0, fed.1, now_ms, (fed.0.plan.len() + 1) as nat);
        if layers.len() == 1 {
            end
        } else {
            print_layers(end.0, end.1, layers.drop_first(), now_ms)
        }
    }
}

/// The layers come with ascending numbers.
pub open spec fn ascending(layers: Seq<StreamLayerView>) -> bool {
    forall|i: int, j: int|
        0 <= i < j < layers.len() ==> layers[i].layer.layer_number
            < layers[j].layer.layer_number
}

/// A layer that is fed while the executor waits for one is worked through
/// to its end: the operations handed out are its plan, the valve part for
/// a layer with nodes, then every barrier of the stream, then the layer
/// advance, and for a layer without nodes the barriers and the layer
/// advance alone; the Z axis stands at the height of the layer, and the
/// progress counts one layer more.
pub proof fn lemma_layer_is_worked_through(
    e: ExecutorView,
    s: SystemStateView,
    layer: StreamLayerView,
    now_ms: u64,
)
    requires
        e.expects_layer(s),
        e.in_order(layer.layer.layer_number),
        settled(e, s),
    ensures
        ({
            let fed = step(e, s, Step::Feed(layer));
            let plan = e.scheduler.spec_plan_layer(layer);
            let fuel = (plan.len() + 1) as nat;
            let end = drive(fed.0, fed.1, now_ms, fuel);
            let done = (e.layers_done + 1) as u32;
            &&& fed.0 == e.fed(layer)
            &&& handed_out(fed.0, fed.1, now_ms, fuel) == plan
            &&& plan == spec_valve_steps(layer.layer, e.scheduler.spec_settle_ms()) + spec_barriers(
                layer.barriers,
                e.scheduler.default_timeout_ms,
            ) + seq![
                ActionView::AdvanceLayer {
                    layer_number: layer.layer.layer_number,
                    z_height: layer.layer.z_height,
                },
            ]
            &&& layer.layer.nodes.len() == 0 ==> plan.len() == layer.barriers.len() + 1
            &&& end.1.motion.z_position == layer.layer.z_height
            &&& end.1.errors == s.errors
            &&& end.1.thermal == s.thermal
            &&& end.1.pressure == s.pressure
            &&& s.print_status is Some && done < e.total_layers ==> {
                &&& end.1.print_status is Some
                &&& end.1.print_status->0.current_layer == done
                &&& end.1.print_status->0.z_position == layer.layer.z_height
                &&& end.1.print_status->0.progress_percent == spec_progress(
                    done,
                    s.print_status->0.total_layers,
                )
            }
            &&& if done < e.total_layers {
                &&& end.2 == (Directive::NeedLayer { index: done })
                &&& end.0 == layer_closed(e.fed(layer))
                &&& end.1.firmware_state == FirmwareState::Printing
            } else {
                &&& end.2 == Directive::Finished
                &&& end.0.phase == Phase::Idle
                &&& end.1.firmware_state == FirmwareState::Idle
                &&& end.1.print_status is None
            }
        }),
{
    let fed = e.fed(layer);
    let plan = e.scheduler.spec_plan_layer(layer);
    lemma_plan_ends_with_advance(layer, e.scheduler.spec_settle_ms(), e.scheduler.default_timeout_ms);
    assert(layer_shaped(plan, layer.layer.z_height));
    lemma_rest_of_layer(fed, s, now_ms);
    assert(fed.remaining() =~= plan);
}

/// A job whose layers come in order and whose operations all succeed runs
/// to its end: every layer is worked through in the order of the stream,
/// and after the last one the executor ends the job. The machine is then
/// idle, the progress of the job is dropped, no fault was recorded, and
/// the Z axis stands at the height of the last layer.
pub proof fn lemma_layers_run_to_the_end(
    e: ExecutorView,
    s: SystemStateView,
    layers: Seq<StreamLayerView>,
    now_ms: u64,
)
    requires
        e.expects_layer(s),
        layers.len() == e.total_layers - e.layers_done,
        ascending(layers),
        e.in_order(layers.first().layer.layer_number),
        settled(e, s),
    ensures
        ({
            let end = print_layers(e, s, layers, now_ms);
            &&& end.2 == Directive::Finished
            &&& end.0.phase == Phase::Idle
            &&& end.1.firmware_state == FirmwareState::Idle
            &&& end.1.print_status is None
            &&& end.1.errors == s.errors
            &&& end.1.motion.z_position == layers.last().layer.z_height
        }),
    decreases layers.len(),
{
    let first = layers.first();
    lemma_layer_is_worked_through(e, s, first, now_ms);
    let fed = step(e, s, Step::Feed(first));
    let end = drive(fed.0, fed.1, now_ms, (fed.0.plan.len() + 1) as nat);
    if layers.len() > 1 {
        let rest = layers.drop_first();
        assert(rest.first() == layers[1]);
        assert(rest.last() == layers.last());
        assert(ascending(rest)) by {
            assert forall|i: int, j: int| 0 <= i < j < rest.len() implies rest[i].layer.layer_number
                < rest[j].layer.layer_number by {
                assert(rest[i] == layers[i + 1] && rest[j] == layers[j + 1]);
            }
        }
        assert(settled(end.0, end.1));
        lemma_layers_run_to_the_end(end.0, end.1, rest, now_ms);
    }
}

/// A whole job: started on an idle, homed machine without faults whose
/// temperatures and pressures are where they should be, driven through
/// the heating and then through its layers in order, with every operation
/// succeeding, the job ends with the machine idle, without progress and
/// without a fault.
pub proof fn lemma_job_runs_to_its_end(
    e: ExecutorView,
    s: SystemStateView,
    file_path: Seq<char>,
    layers: Seq<StreamLayerView>,
    now_ms: u64,
)
    requires
        0 < layers.len() <= u32::MAX,
        ExecutorView::start_refusal(s, layers.len() as u32).is_none(),
        s.errors.len() == 0,
        ascending(layers),
        settled(e, s),
    ensures
        ({
            let started = step(
                e,
                s,
                Step::Start { file_path, total_layers: layers.len() as u32, now_ms },
            );
            let heated = drive(started.0, started.1, now_ms, 1);
            let end = print_layers(heated.0, heated.1, layers, now_ms);
            &&& started.1.firmware_state == FirmwareState::Heating
            &&& heated.2 == (Directive::NeedLayer { index: 0 })
            &&& heated.1.firmware_state == FirmwareState::Printing
            &&& end.2 == Directive::Finished
            &&& end.0.phase == Phase::Idle
            &&& end.1.firmware_state == FirmwareState::Idle
            &&& end.1.print_status is None
            &&& end.1.errors.len() == 0
            &&& end.1.motion.z_position == layers.last().layer.z_height
        }),
{
    let total = layers.len() as u32;
    let started = step(e, s, Step::Start { file_path, total_layers: total, now_ms });
    reveal_with_fuel(drive, 2);
    let issued = started.0.poll(started.1, now_ms);
    assert(issued.2 == Directive::Perform);
    let done = issued.0.complete(issued.1, Outcome::Done, now_ms);
    assert(issued.0.accepts(issued.1, issued.0.plan[0]));
    assert(done.0 == started.0.heated());
    let heated = drive(started.0, started.1, now_ms, 1);
    assert(heated.0 == done.0 && heated.1 == done.1);
    lemma_layers_run_to_the_end(heated.0, heated.1, layers, now_ms);
}

} // verus!
