//! Turns one layer into a time-ordered plan of hardware operations.

use vstd::prelude::*;
use crate::config_types::ValveArrayConfig;
use crate::gcode_types::{
    G4WCommand, Layer, LayerView, NodeValveState, NodeValveStateView, WaitType, node_views,
};

verus! {

/// One operation on the hardware, or one wait between operations.
#[derive(Debug, Clone, PartialEq, Eq)]
pub enum Action {
    /// Apply the valve states of all listed nodes in one batched call.
    SetValves { layer_number: u32, nodes: Vec<NodeValveState> },
    /// Block until the condition holds; it is a failure if the timeout, in
    /// milliseconds, passes first.
    Wait { condition: WaitType, timeout_ms: u32 },
    /// Move the Z axis to the height of the layer, in micrometres.
    AdvanceLayer { layer_number: u32, z_height: i64 },
    /// Set the target of every heater to zero.
    HeatersOff,
    /// Set the target of every pressure channel to zero.
    VentPressure,
    /// Close every valve of the array.
    CloseAllValves,
    /// Stop the Z axis where it stands.
    StopMotion,
}

/// Mathematical value of an [`Action`].
pub enum ActionView {
    SetValves { layer_number: u32, nodes: Seq<NodeValveStateView> },
    Wait { condition: WaitType, timeout_ms: u32 },
    AdvanceLayer { layer_number: u32, z_height: i64 },
    HeatersOff,
    VentPressure,
    CloseAllValves,
    StopMotion,
}

impl View for Action {
    type V = ActionView;

    open spec fn view(&self) -> ActionView {
        match self {
            Action::SetValves { layer_number, nodes } => ActionView::SetValves {
                layer_number: *layer_number,
                nodes: node_views(nodes@),
            },
            Action::Wait { condition, timeout_ms } => ActionView::Wait {
                condition: *condition,
                timeout_ms: *timeout_ms,
            },
            Action::AdvanceLayer { layer_number, z_height } => ActionView::AdvanceLayer {
                layer_number: *layer_number,
                z_height: *z_height,
            },
            Action::HeatersOff => ActionView::HeatersOff,
            Action::VentPressure => ActionView::VentPressure,
            Action::CloseAllValves => ActionView::CloseAllValves,
            Action::StopMotion => ActionView::StopMotion,
        }
    }
}

impl ActionView {
    /// The operation may open a valve.
    pub open spec fn sets_valves(self) -> bool {
        self is SetValves
    }
}

/// Views of a plan, in order.
pub open spec fn plan_view(plan: Seq<Action>) -> Seq<ActionView> {
    Seq::new(plan.len(), |i: int| plan[i]@)
}

/// A layer of the command stream, with the barriers that the stream holds
/// for it.
#[derive(Debug, Clone, PartialEq, Eq)]
pub struct StreamLayer {
    /// The valve pattern.
    pub layer: Layer,
    /// Explicit barriers, in stream order.
    pub barriers: Vec<G4WCommand>,
}

/// Mathematical value of a [`StreamLayer`].
pub struct StreamLayerView {
    pub layer: LayerView,
    pub barriers: Seq<G4WCommand>,
}

impl View for StreamLayer {
    type V = StreamLayerView;

    open spec fn view(&self) -> StreamLayerView {
        StreamLayerView { layer: self.layer@, barriers: self.barriers@ }
    }
}

/// `a / b` rounded up, for a positive divisor.
pub open spec fn spec_ceil_div(a: int, b: int) -> int
    recommends
        b > 0,
{
    (a + b - 1) / b
}

/// The minimum settle time in microseconds: the larger of the valve
/// response time and one period of the maximum switching frequency. A
/// response time below zero counts as zero, and a frequency of zero or less
/// sets no period.
pub open spec fn spec_settle_time_us(response_time_us: i64, max_switching_freq: i64) -> int {
    let response: int = if response_time_us > 0 {
        response_time_us as int
    } else {
        0
    };
    let period: int = if max_switching_freq > 0 {
        spec_ceil_div(1_000_000_000, max_switching_freq as int)
    } else {
        0
    };
    if response >= period {
        response
    } else {
        period
    }
}

/// The settle time in whole milliseconds, rounded up and held at
/// `u32::MAX`.
pub open spec fn spec_settle_time_ms(response_time_us: i64, max_switching_freq: i64) -> int {
    let ms = spec_ceil_div(spec_settle_time_us(response_time_us, max_switching_freq), 1000);
    if ms > u32::MAX {
        u32::MAX as int
    } else {
        ms
    }
}

/// The wait that an explicit barrier becomes: its condition, with its own
/// timeout or, where it names none, the default.
pub open spec fn spec_barrier(b: G4WCommand, default_timeout_ms: u32) -> ActionView {
    ActionView::Wait {
        condition: b.wait_type,
        timeout_ms: match b.timeout_ms {
            Some(t) => t,
            None => default_timeout_ms,
        },
    }
}

/// The waits that a run of explicit barriers becomes, in order.
pub open spec fn spec_barriers(barriers: Seq<G4WCommand>, default_timeout_ms: u32) -> Seq<
    ActionView,
> {
    Seq::new(barriers.len(), |i: int| spec_barrier(barriers[i], default_timeout_ms))
}

/// The valve part of a plan: nothing for a layer without nodes; otherwise
/// one batched call for all nodes, then the settle wait.
pub open spec fn spec_valve_steps(layer: LayerView, settle_ms: u32) -> Seq<ActionView> {
    if layer.nodes.len() == 0 {
        Seq::empty()
    } else {
        seq![
            ActionView::SetValves { layer_number: layer.layer_number, nodes: layer.nodes },
            ActionView::Wait { condition: WaitType::Duration(settle_ms), timeout_ms: settle_ms },
        ]
    }
}

/// The plan of a layer: the valve part, then every explicit barrier in
/// stream order, then the layer advance.
pub open spec fn spec_plan(layer: StreamLayerView, settle_ms: u32, default_timeout_ms: u32) -> Seq<
    ActionView,
> {
    spec_valve_steps(layer.layer, settle_ms) + spec_barriers(layer.barriers, default_timeout_ms)
        + seq![
        ActionView::AdvanceLayer {
            layer_number: layer.layer.layer_number,
            z_height: layer.layer.z_height,
        },
    ]
}

/// Converts layers into plans that honour the limits of the valve array.
#[derive(Debug, Clone, Copy, PartialEq, Eq, Structural)]
pub struct CommandScheduler {
    /// Valve response time in microseconds.
    pub response_time_us: i64,
    /// Maximum valve switching frequency in millihertz.
    pub max_switching_freq: i64,
    /// Dead volume per valve, in thousandths of a cubic millimetre.
    pub dead_volume: i64,
    /// Timeout in milliseconds of a barrier that names none.
    pub default_timeout_ms: u32,
}

impl CommandScheduler {
    /// A scheduler for the given valve array.
    pub fn new(config: &ValveArrayConfig, default_timeout_ms: u32) -> (s: Self)
        ensures
            s == (CommandScheduler {
                response_time_us: config.response_time_ms,
                max_switching_freq: config.max_switching_freq,
                dead_volume: config.dead_volume,
                default_timeout_ms,
            }),
    {
        Self {
            response_time_us: config.response_time_ms,
            max_switching_freq: config.max_switching_freq,
            dead_volume: config.dead_volume,
            default_timeout_ms,
        }
    }

    /// The settle time of this valve array in milliseconds.
    pub open spec fn spec_settle_ms(self) -> u32 {
        spec_settle_time_ms(self.response_time_us, self.max_switching_freq) as u32
    }

    /// Computes the minimum settle time in milliseconds.
    pub fn settle_time_ms(&self) -> (ms: u32)
        ensures
            ms as int == spec_settle_time_ms(self.response_time_us, self.max_switching_freq),
            ms == self.spec_settle_ms(),
    {
        let response: u64 = if self.response_time_us > 0 {
            self.response_time_us as u64
        } else {
            0
        };
        let period: u64 = if self.max_switching_freq > 0 {
            let f: u64 = self.max_switching_freq as u64;
            (1_000_000_000u64 + f - 1) / f
        } else {
            0
        };
        let settle_us: u64 = if response >= period {
            response
        } else {
            period
        };
        let ms: u64 = (settle_us + 999) / 1000;
        if ms > u32::MAX as u64 {
            u32::MAX
        } else {
            ms as u32
        }
    }

    /// The plan that this scheduler gives for a layer.
    pub open spec fn spec_plan_layer(self, layer: StreamLayerView) -> Seq<ActionView> {
        spec_plan(layer, self.spec_settle_ms(), self.default_timeout_ms)
    }

    /// Plans one layer: all valve changes in a single batched call followed
    /// by the settle wait, then the explicit barriers of the stream, and the
    /// layer advance last. A layer without nodes still gets its barriers and
    /// its layer advance.
    pub fn plan_layer(&self, layer: StreamLayer) -> (plan: Vec<Action>)
        ensures
            plan_view(plan@) == self.spec_plan_layer(layer@),
    {
        let ghost target = self.spec_plan_layer(layer@);
        let settle_ms = self.settle_time_ms();
        let StreamLayer { layer: pattern, barriers } = layer;
        let layer_number = pattern.layer_number;
        let z_height = pattern.z_height;
        let mut plan: Vec<Action> = Vec::new();
        if pattern.nodes.len() > 0 {
            plan.push(Action::SetValves { layer_number, nodes: pattern.nodes });
            plan.push(
                Action::Wait { condition: WaitType::Duration(settle_ms), timeout_ms: settle_ms },
            );
        }
        assert(plan_view(plan@) =~= spec_valve_steps(layer@.layer, settle_ms));
        let ghost head = plan_view(plan@);
        let mut i: usize = 0;
        while i < barriers.len()
            invariant
                i <= barriers@.len(),
                barriers@ == layer@.barriers,
                plan_view(plan@) == head + spec_barriers(
                    barriers@,
                    self.default_timeout_ms,
                ).take(i as int),
            decreases barriers@.len() - i,
        {
            let b = barriers[i];
            let timeout_ms = match b.timeout_ms {
                Some(t) => t,
                None => self.default_timeout_ms,
            };
            let ghost before = plan_view(plan@);
            plan.push(Action::Wait { condition: b.wait_type, timeout_ms });
            assert(plan_view(plan@) =~= before.push(spec_barrier(b, self.default_timeout_ms)));
            assert(spec_barriers(barriers@, self.default_timeout_ms).take(i as int + 1)
                =~= spec_barriers(barriers@, self.default_timeout_ms).take(i as int).push(
                spec_barrier(b, self.default_timeout_ms),
            ));
            assert(plan_view(plan@) =~= head + spec_barriers(
                barriers@,
                self.default_timeout_ms,
            ).take(i as int + 1));
            i = i + 1;
        }
        assert(spec_barriers(barriers@, self.default_timeout_ms).take(i as int) =~= spec_barriers(
            barriers@,
            self.default_timeout_ms,
        ));
        let ghost before = plan_view(plan@);
        plan.push(Action::AdvanceLayer { layer_number, z_height });
        assert(plan_view(plan@) =~= before.push(
            ActionView::AdvanceLayer { layer_number, z_height },
        ));
        assert(plan_view(plan@) =~= target);
        plan
    }
}

/// A plan holds at most one valve call, and holds it first: from the second
/// step on, no step of a plan sets valves.
pub proof fn lemma_plan_sets_valves_once(
    layer: StreamLayerView,
    settle_ms: u32,
    default_timeout_ms: u32,
    i: int,
)
    requires
        1 <= i < spec_plan(layer, settle_ms, default_timeout_ms).len(),
    ensures
        !spec_plan(layer, settle_ms, default_timeout_ms)[i].sets_valves(),
{
}

/// A plan ends with the layer advance, also for a layer without nodes, and
/// holds every explicit barrier of the stream before it.
pub proof fn lemma_plan_ends_with_advance(
    layer: StreamLayerView,
    settle_ms: u32,
    default_timeout_ms: u32,
)
    ensures
        spec_plan(layer, settle_ms, default_timeout_ms).len() == spec_valve_steps(
            layer.layer,
            settle_ms,
        ).len() + layer.barriers.len() + 1,
        spec_plan(layer, settle_ms, default_timeout_ms).last() == (ActionView::AdvanceLayer {
            layer_number: layer.layer.layer_number,
            z_height: layer.layer.z_height,
        }),
        forall|j: int|
            0 <= j < layer.barriers.len() ==> spec_plan(
                layer,
                settle_ms,
                default_timeout_ms,
            )[spec_valve_steps(layer.layer, settle_ms).len() + j] == spec_barrier(
                #[trigger] layer.barriers[j],
                default_timeout_ms,
            ),
{
}

} // verus!
