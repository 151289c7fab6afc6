//! Commands, coordinates, valve states and layers.

use vstd::prelude::*;
use crate::units::{push_char, push_decimal, push_fixed3, spec_decimal, spec_fixed3};

verus! {

/// A position in the build volume, in micrometres. The origin is the
/// front-left corner of the build volume, with Z zero at the build plate.
#[derive(Debug, Clone, Copy, PartialEq, Eq, Structural)]
pub struct Coordinate {
    /// X position (left to right).
    pub x: i64,
    /// Y position (front to back).
    pub y: i64,
    /// Z position (vertical).
    pub z: i64,
}

impl Coordinate {
    /// Creates a coordinate from micrometre values.
    pub fn new(x: i64, y: i64, z: i64) -> (c: Self)
        ensures
            c == (Coordinate { x, y, z }),
    {
        Self { x, y, z }
    }

    /// Text of the coordinate, as in `X10.000 Y20.000 Z0.500`.
    pub open spec fn spec_text(self) -> Seq<char> {
        seq!['X'] + spec_fixed3(self.x as int) + seq![' ', 'Y'] + spec_fixed3(self.y as int) + seq![
            ' ',
            'Z',
        ] + spec_fixed3(self.z as int)
    }

    /// Appends the text of the coordinate.
    pub fn push_text(&self, out: &mut String)
        ensures
            final(out)@ == old(out)@ + self.spec_text(),
    {
        push_char(out, 'X');
        push_fixed3(out, self.x);
        push_char(out, ' ');
        push_char(out, 'Y');
        push_fixed3(out, self.y);
        push_char(out, ' ');
        push_char(out, 'Z');
        push_fixed3(out, self.z);
        assert(out@ =~= old(out)@ + self.spec_text());
    }

    /// Renders the coordinate as text.
    pub fn to_text(&self) -> (s: String)
        ensures
            s@ == self.spec_text(),
    {
        let mut s = String::new();
        self.push_text(&mut s);
        assert(s@ =~= self.spec_text());
        s
    }
}

impl Default for Coordinate {
    fn default() -> (c: Self)
        ensures
            c == (Coordinate { x: 0, y: 0, z: 0 }),
    {
        Self::new(0, 0, 0)
    }
}

/// Index of a valve node in the valve grid.
#[derive(Debug, Clone, Copy, PartialEq, Eq, Hash, Structural)]
pub struct GridCoordinate {
    /// Grid X index.
    pub x: u32,
    /// Grid Y index.
    pub y: u32,
}

/// An integer limited to the range of `i64`.
pub open spec fn spec_clamp_i64(v: int) -> int {
    if v > i64::MAX {
        i64::MAX as int
    } else if v < i64::MIN {
        i64::MIN as int
    } else {
        v
    }
}

fn clamp_i64(v: i128) -> (r: i64)
    ensures
        r as int == spec_clamp_i64(v as int),
{
    if v > i64::MAX as i128 {
        i64::MAX
    } else if v < i64::MIN as i128 {
        i64::MIN
    } else {
        v as i64
    }
}

fn scale_index(index: u32, spacing: i64) -> (p: i128)
    ensures
        p as int == index as int * spacing as int,
{
    assert(-0x8000_0000_0000_0000_0000_0000 <= index as int * spacing as int
        <= 0x8000_0000_0000_0000_0000_0000) by (nonlinear_arith)
        requires
            0 <= index as int <= 0xffff_ffff,
            -0x8000_0000_0000_0000 <= spacing as int <= 0x8000_0000_0000_0000,
    ;
    index as i128 * spacing as i128
}

impl GridCoordinate {
    /// Creates a grid coordinate.
    pub fn new(x: u32, y: u32) -> (g: Self)
        ensures
            g == (GridCoordinate { x, y }),
    {
        Self { x, y }
    }

    /// Physical position of the node for a grid spacing in micrometres, at
    /// Z zero. A product beyond the range of `i64` is held at the nearest
    /// bound.
    pub fn to_physical(&self, spacing: i64) -> (c: Coordinate)
        ensures
            c.x as int == spec_clamp_i64(self.x as int * spacing as int),
            c.y as int == spec_clamp_i64(self.y as int * spacing as int),
            c.z == 0,
    {
        let px: i128 = scale_index(self.x, spacing);
        let py: i128 = scale_index(self.y, spacing);
        Coordinate { x: clamp_i64(px), y: clamp_i64(py), z: 0 }
    }

    /// Manhattan distance between two nodes.
    pub open spec fn spec_manhattan_distance(&self, other: &GridCoordinate) -> int {
        crate::units::spec_abs_diff(self.x as int, other.x as int) + crate::units::spec_abs_diff(
            self.y as int,
            other.y as int,
        )
    }

    /// Calculates the Manhattan distance to another node. The distance must
    /// fit in a `u32`.
    pub fn manhattan_distance(&self, other: &GridCoordinate) -> (d: u32)
        requires
            self.spec_manhattan_distance(other) <= u32::MAX,
        ensures
            d as int == self.spec_manhattan_distance(other),
    {
        let dx: u32 = if self.x >= other.x {
            self.x - other.x
        } else {
            other.x - self.x
        };
        let dy: u32 = if self.y >= other.y {
            self.y - other.y
        } else {
            other.y - self.y
        };
        dx + dy
    }
}

/// State of a single valve. Valves are numbered from zero at each node.
#[derive(Debug, Clone, Copy, PartialEq, Eq, Structural)]
pub struct ValveState {
    /// Index of the valve at its node.
    pub index: u8,
    /// True if the valve is open.
    pub open: bool,
}

impl ValveState {
    /// Creates a valve state.
    pub fn new(index: u8, open: bool) -> (v: Self)
        ensures
            v == (ValveState { index, open }),
    {
        Self { index, open }
    }

    /// Creates an open valve state.
    pub fn open(index: u8) -> (v: Self)
        ensures
            v == (ValveState { index, open: true }),
    {
        Self::new(index, true)
    }

    /// Creates a closed valve state.
    pub fn closed(index: u8) -> (v: Self)
        ensures
            v == (ValveState { index, open: false }),
    {
        Self::new(index, false)
    }

    /// Text of the valve state, as in `V0:O` and `V1:C`.
    pub open spec fn spec_text(self) -> Seq<char> {
        seq!['V'] + spec_decimal(self.index as nat) + seq![':', if self.open { 'O' } else { 'C' }]
    }

    /// Appends the text of the valve state.
    pub fn push_text(&self, out: &mut String)
        ensures
            final(out)@ == old(out)@ + self.spec_text(),
    {
        push_char(out, 'V');
        push_decimal(out, self.index as u64);
        push_char(out, ':');
        push_char(out, if self.open { 'O' } else { 'C' });
        assert(out@ =~= old(out)@ + self.spec_text());
    }

    /// Renders the valve state as text.
    pub fn to_text(&self) -> (s: String)
        ensures
            s@ == self.spec_text(),
    {
        let mut s = String::new();
        self.push_text(&mut s);
        assert(s@ =~= self.spec_text());
        s
    }
}

/// Number of open valves in a sequence of valve states.
pub open spec fn count_open(valves: Seq<ValveState>) -> nat
    decreases valves.len(),
{
    if valves.len() == 0 {
        0
    } else {
        count_open(valves.drop_last()) + if valves.last().open { 1nat } else { 0nat }
    }
}

/// The count of open valves never exceeds the number of valves.
pub proof fn lemma_count_open_bound(valves: Seq<ValveState>)
    ensures
        count_open(valves) <= valves.len(),
    decreases valves.len(),
{
    if valves.len() > 0 {
        lemma_count_open_bound(valves.drop_last());
    }
}

/// No valve is open exactly when the count of open valves is zero.
pub proof fn lemma_count_open_zero(valves: Seq<ValveState>)
    ensures
        count_open(valves) == 0 <==> (forall|i: int| 0 <= i < valves.len() ==> !valves[i].open),
    decreases valves.len(),
{
    if valves.len() > 0 {
        lemma_count_open_zero(valves.drop_last());
        assert(forall|i: int|
            0 <= i < valves.len() - 1 ==> valves.drop_last()[i] == valves[i]);
    }
}

/// Valve configuration of one node of the grid.
#[derive(Debug, Clone, PartialEq, Eq)]
pub struct NodeValveState {
    /// Grid position of the node.
    pub position: GridCoordinate,
    /// States of the valves at the node.
    pub valves: Vec<ValveState>,
    /// Material channel the node draws from, in a multi-material machine.
    pub material_channel: Option<u8>,
}

/// Mathematical value of a [`NodeValveState`].
pub struct NodeValveStateView {
    pub position: GridCoordinate,
    pub valves: Seq<ValveState>,
    pub material_channel: Option<u8>,
}

impl View for NodeValveState {
    type V = NodeValveStateView;

    open spec fn view(&self) -> NodeValveStateView {
        NodeValveStateView {
            position: self.position,
            valves: self.valves@,
            material_channel: self.material_channel,
        }
    }
}

impl DeepView for NodeValveState {
    type V = NodeValveStateView;

    open spec fn deep_view(&self) -> NodeValveStateView {
        self@
    }
}

impl NodeValveState {
    /// A node without a material channel.
    pub fn new(position: GridCoordinate, valves: Vec<ValveState>) -> (n: Self)
        ensures
            n@ == (NodeValveStateView { position, valves: valves@, material_channel: None }),
    {
        Self { position, valves, material_channel: None }
    }

    /// The same node, drawing from `channel`.
    pub fn with_material(self, channel: u8) -> (n: Self)
        ensures
            n@ == (NodeValveStateView { material_channel: Some(channel), ..self@ }),
    {
        let mut node = self;
        node.material_channel = Some(channel);
        node
    }

    /// Returns true if any valve at this node is open.
    pub fn has_open_valve(&self) -> (b: bool)
        ensures
            b == (exists|i: int| 0 <= i < self.valves@.len() && self.valves@[i].open),
            b == (count_open(self.valves@) > 0),
    {
        let n = self.open_count();
        proof {
            lemma_count_open_zero(self.valves@);
        }
        n > 0
    }

    /// Counts the open valves of this node.
    pub fn open_count(&self) -> (n: usize)
        ensures
            n == count_open(self.valves@),
    {
        let mut n: usize = 0;
        let mut i: usize = 0;
        while i < self.valves.len()
            invariant
                i <= self.valves@.len(),
                n == count_open(self.valves@.take(i as int)),
                n <= i,
            decreases self.valves@.len() - i,
        {
            proof {
                assert(self.valves@.take(i as int + 1).drop_last() =~= self.valves@.take(i as int));
            }
            if self.valves[i].open {
                n = n + 1;
            }
            i = i + 1;
        }
        proof {
            assert(self.valves@.take(i as int) =~= self.valves@);
        }
        n
    }

    /// Copies the node.
    pub fn duplicate(&self) -> (n: Self)
        ensures
            n@ == self@,
    {
        let mut valves: Vec<ValveState> = Vec::new();
        let mut i: usize = 0;
        while i < self.valves.len()
            invariant
                i <= self.valves@.len(),
                valves@ == self.valves@.take(i as int),
            decreases self.valves@.len() - i,
        {
            valves.push(self.valves[i]);
            proof {
                assert(valves@ =~= self.valves@.take(i as int + 1));
            }
            i = i + 1;
        }
        proof {
            assert(self.valves@.take(i as int) =~= self.valves@);
        }
        Self { position: self.position, valves, material_channel: self.material_channel }
    }
}

/// An RGB colour.
#[derive(Debug, Clone, Copy, PartialEq, Eq, Structural)]
pub struct Color {
    pub r: u8,
    pub g: u8,
    pub b: u8,
}

/// A blend factor limited to the range from 0 to 1000.
pub open spec fn spec_blend_factor(factor: int) -> int {
    if factor < 0 {
        0
    } else if factor > 1000 {
        1000
    } else {
        factor
    }
}

/// One channel of a linear blend: `a + (b - a) × factor`, the factor in
/// thousandths and limited to `[0, 1000]`, the result rounded towards zero.
pub open spec fn spec_blend_channel(a: u8, b: u8, factor: int) -> int {
    (a as int * 1000 + (b as int - a as int) * spec_blend_factor(factor)) / 1000
}

fn blend_channel(a: u8, b: u8, factor: i64) -> (c: u8)
    ensures
        c as int == spec_blend_channel(a, b, factor as int),
{
    let f: i64 = if factor < 0 {
        0
    } else if factor > 1000 {
        1000
    } else {
        factor
    };
    let delta: i64 = b as i64 - a as i64;
    assert(-255_000 <= delta * f <= 255_000 && 0 <= a as int * 1000 + delta * f <= 255_999)
        by (nonlinear_arith)
        requires
            0 <= f <= 1000,
            delta == b as int - a as int,
            0 <= a as int <= 255,
            0 <= b as int <= 255,
    ;
    let mixed: i64 = a as i64 * 1000 + delta * f;
    (mixed / 1000) as u8
}

impl Color {
    /// The colour black.
    pub fn black() -> (c: Self)
        ensures
            c == (Color { r: 0, g: 0, b: 0 }),
    {
        Color { r: 0, g: 0, b: 0 }
    }

    /// The colour white.
    pub fn white() -> (c: Self)
        ensures
            c == (Color { r: 255, g: 255, b: 255 }),
    {
        Color { r: 255, g: 255, b: 255 }
    }

    /// The colour red.
    pub fn red() -> (c: Self)
        ensures
            c == (Color { r: 255, g: 0, b: 0 }),
    {
        Color { r: 255, g: 0, b: 0 }
    }

    /// The colour green.
    pub fn green() -> (c: Self)
        ensures
            c == (Color { r: 0, g: 255, b: 0 }),
    {
        Color { r: 0, g: 255, b: 0 }
    }

    /// The colour blue.
    pub fn blue() -> (c: Self)
        ensures
            c == (Color { r: 0, g: 0, b: 255 }),
    {
        Color { r: 0, g: 0, b: 255 }
    }

    /// Creates a colour from its channels.
    pub fn new(r: u8, g: u8, b: u8) -> (c: Self)
        ensures
            c == (Color { r, g, b }),
    {
        Self { r, g, b }
    }

    /// Blends this colour with another by linear interpolation. A factor of
    /// 0 gives `self`, a factor of 1000 gives `other`; factors outside that
    /// range are limited to it.
    pub fn blend(&self, other: &Color, factor: i64) -> (c: Color)
        ensures
            c.r as int == spec_blend_channel(self.r, other.r, factor as int),
            c.g as int == spec_blend_channel(self.g, other.g, factor as int),
            c.b as int == spec_blend_channel(self.b, other.b, factor as int),
    {
        Color {
            r: blend_channel(self.r, other.r, factor),
            g: blend_channel(self.g, other.g, factor),
            b: blend_channel(self.b, other.b, factor),
        }
    }

    /// Text of the colour, as in `R255 G0 B127`.
    pub open spec fn spec_text(self) -> Seq<char> {
        seq!['R'] + spec_decimal(self.r as nat) + seq![' ', 'G'] + spec_decimal(self.g as nat)
            + seq![' ', 'B'] + spec_decimal(self.b as nat)
    }

    /// Appends the text of the colour.
    pub fn push_text(&self, out: &mut String)
        ensures
            final(out)@ == old(out)@ + self.spec_text(),
    {
        push_char(out, 'R');
        push_decimal(out, self.r as u64);
        push_char(out, ' ');
        push_char(out, 'G');
        push_decimal(out, self.g as u64);
        push_char(out, ' ');
        push_char(out, 'B');
        push_decimal(out, self.b as u64);
        assert(out@ =~= old(out)@ + self.spec_text());
    }

    /// Renders the colour as text.
    pub fn to_text(&self) -> (s: String)
        ensures
            s@ == self.spec_text(),
    {
        let mut s = String::new();
        self.push_text(&mut s);
        assert(s@ =~= self.spec_text());
        s
    }
}

/// Deposit: a valve configuration at a position.
#[derive(Debug, Clone, PartialEq, Eq)]
pub struct G4DCommand {
    /// Position of the valve configuration.
    pub position: Coordinate,
    /// Valve states to apply.
    pub valves: Vec<ValveState>,
    /// Amount of material to extrude, in thousandths of a cubic millimetre.
    pub extrusion: Option<i64>,
}

/// Layer advance: moves the Z axis to the next layer.
#[derive(Debug, Clone, Copy, PartialEq, Eq, Structural)]
pub struct G4LCommand {
    /// New Z height in micrometres.
    pub z_height: i64,
    /// Feed rate of the move in micrometres per second.
    pub feed_rate: Option<i64>,
}

/// Colour and material configuration.
#[derive(Debug, Clone, PartialEq, Eq)]
pub struct G4CCommand {
    /// Target colour of the mix.
    pub color: Option<Color>,
    /// Material channel to select.
    pub material_channel: Option<u8>,
    /// Mixing ratio per channel, in thousandths.
    pub mixing_ratios: Option<Vec<(u8, i64)>>,
}

/// Speed and flow control.
#[derive(Debug, Clone, Copy, PartialEq, Eq, Structural)]
pub struct G4SCommand {
    /// Flow rate in thousandths of a percent of the maximum.
    pub speed_percentage: i64,
    /// Channel the rate applies to; all channels when absent.
    pub material_channel: Option<u8>,
}

/// Heating control.
#[derive(Debug, Clone, Copy, PartialEq, Eq, Structural)]
pub struct G4HCommand {
    /// Target temperature in millidegrees Celsius.
    pub temperature: i64,
    /// Heating zone; all zones when absent.
    pub zone: Option<u8>,
    /// Whether to wait until the temperature has settled.
    pub wait: bool,
}

/// What a synchronization barrier waits for.
#[derive(Debug, Clone, Copy, PartialEq, Eq, Structural)]
pub enum WaitType {
    /// All valves have reached their commanded states.
    Valves,
    /// The pressure is stable.
    Pressure,
    /// The temperatures have reached their targets.
    Temperature,
    /// A fixed time in milliseconds has passed.
    Duration(u32),
}

/// Wait: a synchronization barrier.
#[derive(Debug, Clone, Copy, PartialEq, Eq, Structural)]
pub struct G4WCommand {
    /// What to wait for.
    pub wait_type: WaitType,
    /// Longest time to wait, in milliseconds.
    pub timeout_ms: Option<u32>,
}

/// Pressure control.
#[derive(Debug, Clone, Copy, PartialEq, Eq, Structural)]
pub struct G4PCommand {
    /// Target pressure in milli-PSI.
    pub pressure: i64,
    /// Channel the pressure applies to; all channels when absent.
    pub material_channel: Option<u8>,
}

/// One instruction of the command stream.
#[derive(Debug, Clone, PartialEq, Eq)]
pub enum Command {
    /// Deposit.
    G4D(G4DCommand),
    /// Layer advance.
    G4L(G4LCommand),
    /// Colour and material configuration.
    G4C(G4CCommand),
    /// Speed and flow control.
    G4S(G4SCommand),
    /// Heating control.
    G4H(G4HCommand),
    /// Synchronization barrier.
    G4W(G4WCommand),
    /// Pressure control.
    G4P(G4PCommand),
    /// A comment, ignored during execution.
    Comment(String),
}

/// Mathematical value of a [`Command`].
pub enum CommandView {
    G4D { position: Coordinate, valves: Seq<ValveState>, extrusion: Option<i64> },
    G4L(G4LCommand),
    G4C { color: Option<Color>, material_channel: Option<u8>, mixing_ratios: Option<Seq<(u8, i64)>> },
    G4S(G4SCommand),
    G4H(G4HCommand),
    G4W(G4WCommand),
    G4P(G4PCommand),
    Comment(Seq<char>),
}

impl View for Command {
    type V = CommandView;

    open spec fn view(&self) -> CommandView {
        match self {
            Command::G4D(c) => CommandView::G4D {
                position: c.position,
                valves: c.valves@,
                extrusion: c.extrusion,
            },
            Command::G4L(c) => CommandView::G4L(*c),
            Command::G4C(c) => CommandView::G4C {
                color: c.color,
                material_channel: c.material_channel,
                mixing_ratios: match c.mixing_ratios {
                    Some(r) => Some(r@),
                    None => None,
                },
            },
            Command::G4S(c) => CommandView::G4S(*c),
            Command::G4H(c) => CommandView::G4H(*c),
            Command::G4W(c) => CommandView::G4W(*c),
            Command::G4P(c) => CommandView::G4P(*c),
            Command::Comment(t) => CommandView::Comment(t@),
        }
    }
}

impl Command {
    /// Returns true if this command affects valve states.
    pub fn is_valve_command(&self) -> (b: bool)
        ensures
            b == (self is G4D),
    {
        matches!(self, Command::G4D(_))
    }

    /// Returns true if this command changes the Z position.
    pub fn is_motion_command(&self) -> (b: bool)
        ensures
            b == (self is G4L),
    {
        matches!(self, Command::G4L(_))
    }

    /// Returns true if this command modifies the thermal state.
    pub fn is_thermal_command(&self) -> (b: bool)
        ensures
            b == (self is G4H),
    {
        matches!(self, Command::G4H(_))
    }
}

/// Views of a list of nodes, in order.
pub open spec fn node_views(nodes: Seq<NodeValveState>) -> Seq<NodeValveStateView> {
    Seq::new(nodes.len(), |i: int| nodes[i]@)
}

/// Number of open valves over a list of nodes.
pub open spec fn total_open(nodes: Seq<NodeValveStateView>) -> nat
    decreases nodes.len(),
{
    if nodes.len() == 0 {
        0
    } else {
        total_open(nodes.drop_last()) + count_open(nodes.last().valves)
    }
}

/// No valve of any node is open exactly when the total of open valves is
/// zero.
pub proof fn lemma_total_open_zero(nodes: Seq<NodeValveStateView>)
    ensures
        total_open(nodes) == 0 <==> (forall|i: int|
            0 <= i < nodes.len() ==> count_open(#[trigger] nodes[i].valves) == 0),
    decreases nodes.len(),
{
    if nodes.len() > 0 {
        lemma_total_open_zero(nodes.drop_last());
        assert(forall|i: int| 0 <= i < nodes.len() - 1 ==> nodes.drop_last()[i] == nodes[i]);
    }
}

/// The complete valve pattern of one Z height.
#[derive(Debug, Clone, PartialEq, Eq)]
pub struct Layer {
    /// Z height of the layer in micrometres.
    pub z_height: i64,
    /// Number of the layer, from zero.
    pub layer_number: u32,
    /// Valve states of the active nodes, in the order they were added.
    pub nodes: Vec<NodeValveState>,
    /// Material channel of a single-material layer.
    pub primary_material: Option<u8>,
    /// Estimated deposition time in milliseconds.
    pub estimated_time: Option<i64>,
}

/// Mathematical value of a [`Layer`].
pub struct LayerView {
    pub z_height: i64,
    pub layer_number: u32,
    pub nodes: Seq<NodeValveStateView>,
    pub primary_material: Option<u8>,
    pub estimated_time: Option<i64>,
}

impl LayerView {
    /// Some node draws from another channel than the first node does.
    pub open spec fn is_multi_material(self) -> bool {
        exists|i: int|
            0 <= i < self.nodes.len() && (#[trigger] self.nodes[i]).material_channel
                != self.nodes[0].material_channel
    }
}

impl View for Layer {
    type V = LayerView;

    open spec fn view(&self) -> LayerView {
        LayerView {
            z_height: self.z_height,
            layer_number: self.layer_number,
            nodes: node_views(self.nodes@),
            primary_material: self.primary_material,
            estimated_time: self.estimated_time,
        }
    }
}

/// A natural number limited to the range of `usize`.
pub open spec fn spec_saturate(n: nat) -> nat {
    if n > usize::MAX {
        usize::MAX as nat
    } else {
        n
    }
}

fn same_channel(a: Option<u8>, b: Option<u8>) -> (eq: bool)
    ensures
        eq == (a == b),
{
    match (a, b) {
        (Some(x), Some(y)) => x == y,
        (None, None) => true,
        _ => false,
    }
}

/// Counts the open valves over a list of nodes, held at `usize::MAX`
/// should the count exceed it.
pub fn open_valves_of(nodes: &Vec<NodeValveState>) -> (n: usize)
    ensures
        n == spec_saturate(total_open(node_views(nodes@))),
{
    let ghost views = node_views(nodes@);
    let mut n: usize = 0;
    let mut i: usize = 0;
    while i < nodes.len()
        invariant
            i <= nodes@.len(),
            views == node_views(nodes@),
            n == spec_saturate(total_open(views.take(i as int))),
        decreases nodes@.len() - i,
    {
        proof {
            assert(views.take(i as int + 1).drop_last() =~= views.take(i as int));
        }
        let c = nodes[i].open_count();
        n = if c > usize::MAX - n {
            usize::MAX
        } else {
            n + c
        };
        i = i + 1;
    }
    proof {
        assert(views.take(i as int) =~= views);
    }
    n
}

impl Layer {
    /// A layer without nodes, material or time estimate.
    pub fn new(z_height: i64, layer_number: u32) -> (l: Self)
        ensures
            l@ == (LayerView {
                z_height,
                layer_number,
                nodes: Seq::empty(),
                primary_material: None,
                estimated_time: None,
            }),
    {
        let l = Self {
            z_height,
            layer_number,
            nodes: Vec::new(),
            primary_material: None,
            estimated_time: None,
        };
        assert(node_views(l.nodes@) =~= Seq::empty());
        l
    }

    /// Adds a valve node at the end of the layer.
    pub fn add_node(&mut self, node: NodeValveState)
        ensures
            final(self)@ == (LayerView { nodes: old(self)@.nodes.push(node@), ..old(self)@ }),
    {
        self.nodes.push(node);
        assert(node_views(self.nodes@) =~= node_views(old(self).nodes@).push(node@));
    }

    /// Returns the number of active valve nodes in this layer.
    pub fn node_count(&self) -> (n: usize)
        ensures
            n == self@.nodes.len(),
    {
        self.nodes.len()
    }

    /// Returns the number of open valves in this layer, held at
    /// `usize::MAX` should the count exceed it.
    pub fn open_valve_count(&self) -> (n: usize)
        ensures
            n == spec_saturate(total_open(self@.nodes)),
    {
        open_valves_of(&self.nodes)
    }

    /// Checks whether this layer uses more than one material channel.
    pub fn is_multi_material(&self) -> (b: bool)
        ensures
            b == self@.is_multi_material(),
    {
        if self.nodes.len() == 0 {
            return false;
        }
        let first = self.nodes[0].material_channel;
        let mut i: usize = 0;
        while i < self.nodes.len()
            invariant
                i <= self.nodes@.len(),
                self.nodes@.len() > 0,
                first == self@.nodes[0].material_channel,
                forall|j: int|
                    0 <= j < i ==> (#[trigger] self@.nodes[j]).material_channel == first,
            decreases self.nodes@.len() - i,
        {
            if !same_channel(self.nodes[i].material_channel, first) {
                assert(self@.nodes[i as int].material_channel != self@.nodes[0].material_channel);
                return true;
            }
            i = i + 1;
        }
        false
    }
}

/// Why a command was refused.
#[derive(Debug, Clone, PartialEq, Eq)]
pub enum CommandError {
    /// A coordinate lies outside the build volume.
    InvalidCoordinate(String),
    /// A valve state cannot be applied.
    InvalidValveState(String),
    /// The command could not be encoded.
    SerializationError(String),
    /// The bytes do not encode a command.
    DeserializationError(String),
    /// A parameter is out of range.
    InvalidParameter(String),
}

/// Mathematical value of a [`CommandError`].
pub enum CommandErrorView {
    InvalidCoordinate(Seq<char>),
    InvalidValveState(Seq<char>),
    SerializationError(Seq<char>),
    DeserializationError(Seq<char>),
    InvalidParameter(Seq<char>),
}

impl View for CommandError {
    type V = CommandErrorView;

    open spec fn view(&self) -> CommandErrorView {
        match self {
            CommandError::InvalidCoordinate(m) => CommandErrorView::InvalidCoordinate(m@),
            CommandError::InvalidValveState(m) => CommandErrorView::InvalidValveState(m@),
            CommandError::SerializationError(m) => CommandErrorView::SerializationError(m@),
            CommandError::DeserializationError(m) => CommandErrorView::DeserializationError(m@),
            CommandError::InvalidParameter(m) => CommandErrorView::InvalidParameter(m@),
        }
    }
}

impl CommandErrorView {
    /// The kind of the error, then a colon and its message.
    pub open spec fn text(self) -> Seq<char> {
        match self {
            CommandErrorView::InvalidCoordinate(m) => "Invalid coordinate: "@ + m,
            CommandErrorView::InvalidValveState(m) => "Invalid valve state: "@ + m,
            CommandErrorView::SerializationError(m) => "Serialization error: "@ + m,
            CommandErrorView::DeserializationError(m) => "Deserialization error: "@ + m,
            CommandErrorView::InvalidParameter(m) => "Invalid parameter: "@ + m,
        }
    }
}

impl CommandError {
    /// Renders the error as text.
    pub fn message(&self) -> (s: String)
        ensures
            s@ == self@.text(),
    {
        match self {
            CommandError::InvalidCoordinate(m) => String::from_str("Invalid coordinate: ").concat(
                m.as_str(),
            ),
            CommandError::InvalidValveState(m) => String::from_str("Invalid valve state: ").concat(
                m.as_str(),
            ),
            CommandError::SerializationError(m) => String::from_str(
                "Serialization error: ",
            ).concat(m.as_str()),
            CommandError::DeserializationError(m) => String::from_str(
                "Deserialization error: ",
            ).concat(m.as_str()),
            CommandError::InvalidParameter(m) => String::from_str("Invalid parameter: ").concat(
                m.as_str(),
            ),
        }
    }
}

/// Message for a coordinate of the axis named `axis` that lies outside
/// `[0, max]`.
pub open spec fn spec_bounds_message(axis: char, value: i64, max: i64) -> Seq<char> {
    seq![axis] + " coordinate "@ + spec_fixed3(value as int) + " out of bounds [0, "@
        + spec_fixed3(max as int) + "]"@
}

fn bounds_message(axis: char, value: i64, max: i64) -> (s: String)
    ensures
        s@ == spec_bounds_message(axis, value, max),
{
    let mut s = String::new();
    push_char(&mut s, axis);
    s.append(" coordinate ");
    push_fixed3(&mut s, value);
    s.append(" out of bounds [0, ");
    push_fixed3(&mut s, max);
    s.append("]");
    assert(s@ =~= spec_bounds_message(axis, value, max));
    s
}

/// The first axis, in the order X, Y, Z, on which the coordinate lies
/// outside `[0, max]`, with the message that reports it; `None` when the
/// coordinate lies within the build volume.
pub open spec fn spec_validate_coordinate(
    coord: Coordinate,
    max_x: i64,
    max_y: i64,
    max_z: i64,
) -> Option<CommandErrorView> {
    if coord.x < 0 || coord.x > max_x {
        Some(CommandErrorView::InvalidCoordinate(spec_bounds_message('X', coord.x, max_x)))
    } else if coord.y < 0 || coord.y > max_y {
        Some(CommandErrorView::InvalidCoordinate(spec_bounds_message('Y', coord.y, max_y)))
    } else if coord.z < 0 || coord.z > max_z {
        Some(CommandErrorView::InvalidCoordinate(spec_bounds_message('Z', coord.z, max_z)))
    } else {
        None
    }
}

/// Validates that a coordinate lies within the build volume, whose extent
/// on each axis runs from zero to the given maximum.
pub fn validate_coordinate(coord: &Coordinate, max_x: i64, max_y: i64, max_z: i64) -> (r: Result<
    (),
    CommandError,
>)
    ensures
        match r {
            Ok(_) => spec_validate_coordinate(*coord, max_x, max_y, max_z).is_none(),
            Err(e) => spec_validate_coordinate(*coord, max_x, max_y, max_z) == Some(e@),
        },
{
    if coord.x < 0 || coord.x > max_x {
        return Err(CommandError::InvalidCoordinate(bounds_message('X', coord.x, max_x)));
    }
    if coord.y < 0 || coord.y > max_y {
        return Err(CommandError::InvalidCoordinate(bounds_message('Y', coord.y, max_y)));
    }
    if coord.z < 0 || coord.z > max_z {
        return Err(CommandError::InvalidCoordinate(bounds_message('Z', coord.z, max_z)));
    }
    Ok(())
}

} // verus!
