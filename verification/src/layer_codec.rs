//! The binary encoding of layers.
//!
//! A layer is its Z height, its number, its optional material and time,
//! then the list of its nodes; a node is its grid position, its optional
//! channel and the list of its valves.

use vstd::prelude::*;
use crate::firmware::scheduler::{StreamLayer, StreamLayerView};
use crate::gcode_types::{
    G4WCommand, GridCoordinate, Layer, LayerView, NodeValveState, NodeValveStateView, node_views,
};
use crate::wire::{
    Decoded, Reader, dec_i64, dec_opt_i64, dec_opt_u32, dec_opt_u8, dec_u32, dec_valves,
    dec_wait_type, enc_i64, enc_opt_i64, enc_opt_u32, enc_opt_u8, enc_u32, enc_valves,
    enc_wait_type, lemma_i64_round_trip, lemma_opt_i64_round_trip, lemma_opt_u32_round_trip,
    lemma_opt_u8_round_trip, lemma_u32_round_trip, lemma_valves_round_trip,
    lemma_wait_type_round_trip, push_i64, push_opt_i64, push_opt_u32, push_opt_u8, push_valves,
    push_wait_type, put_u32, read_valves, read_wait_type,
};

verus! {

/// The bytes of a node.
pub open spec fn enc_node(n: NodeValveStateView) -> Seq<u8> {
    enc_u32(n.position.x) + enc_u32(n.position.y) + enc_opt_u8(n.material_channel) + enc_valves(
        n.valves,
    )
}

/// Reads a node.
pub open spec fn dec_node(b: Seq<u8>) -> Decoded<NodeValveStateView> {
    match dec_u32(b) {
        Some((x, b1)) => match dec_u32(b1) {
            Some((y, b2)) => match dec_opt_u8(b2) {
                Some((material_channel, b3)) => match dec_valves(b3) {
                    Some((valves, b4)) => Some(
                        (
                            NodeValveStateView {
                                position: GridCoordinate { x, y },
                                valves,
                                material_channel,
                            },
                            b4,
                        ),
                    ),
                    None => None,
                },
                None => None,
            },
            None => None,
        },
        None => None,
    }
}

/// The bytes of a run of nodes, one after the other.
pub open spec fn enc_nodes(ns: Seq<NodeValveStateView>) -> Seq<u8>
    decreases ns.len(),
{
    if ns.len() == 0 {
        Seq::empty()
    } else {
        enc_node(ns[0]) + enc_nodes(ns.skip(1))
    }
}

/// Reads `n` nodes.
pub open spec fn dec_nodes(b: Seq<u8>, n: nat) -> Decoded<Seq<NodeValveStateView>>
    decreases n,
{
    if n == 0 {
        Some((Seq::empty(), b))
    } else {
        match dec_node(b) {
            Some((node, rest)) => match dec_nodes(rest, (n - 1) as nat) {
                Some((nodes, after)) => Some((seq![node] + nodes, after)),
                None => None,
            },
            None => None,
        }
    }
}

impl LayerView {
    /// The list of nodes, and the list of valves of every node, is short
    /// enough for its length to fit in four bytes.
    pub open spec fn encodable(self) -> bool {
        &&& self.nodes.len() <= u32::MAX
        &&& forall|i: int| 0 <= i < self.nodes.len() ==> (#[trigger] self.nodes[i]).valves.len()
            <= u32::MAX
    }

    /// The binary encoding of the layer.
    pub open spec fn encoding(self) -> Seq<u8> {
        enc_i64(self.z_height) + enc_u32(self.layer_number) + enc_opt_u8(self.primary_material)
            + enc_opt_i64(self.estimated_time) + enc_u32(self.nodes.len() as u32) + enc_nodes(
            self.nodes,
        )
    }
}

/// Reads a layer.
pub open spec fn dec_layer(b: Seq<u8>) -> Decoded<LayerView> {
    match dec_i64(b) {
        Some((z_height, b1)) => match dec_u32(b1) {
            Some((layer_number, b2)) => match dec_opt_u8(b2) {
                Some((primary_material, b3)) => match dec_opt_i64(b3) {
                    Some((estimated_time, b4)) => match dec_u32(b4) {
                        Some((count, b5)) => match dec_nodes(b5, count as nat) {
                            Some((nodes, b6)) => Some(
                                (
                                    LayerView {
                                        z_height,
                                        layer_number,
                                        nodes,
                                        primary_material,
                                        estimated_time,
                                    },
                                    b6,
                                ),
                            ),
                            None => None,
                        },
                        None => None,
                    },
                    None => None,
                },
                None => None,
            },
            None => None,
        },
        None => None,
    }
}

/// The layer that a run of bytes encodes, if it encodes one and nothing
/// follows it.
pub open spec fn spec_layer_from_bytes(b: Seq<u8>) -> Option<LayerView> {
    match dec_layer(b) {
        Some((l, rest)) => if rest.len() == 0 {
            Some(l)
        } else {
            None
        },
        None => None,
    }
}

/// A node that was written is read back.
pub proof fn lemma_node_round_trip(n: NodeValveStateView, rest: Seq<u8>)
    requires
        n.valves.len() <= u32::MAX,
    ensures
        dec_node(enc_node(n) + rest) == Some((n, rest)),
{
    let f4 = enc_valves(n.valves) + rest;
    let f3 = enc_opt_u8(n.material_channel) + f4;
    let f2 = enc_u32(n.position.y) + f3;
    assert(enc_node(n) + rest =~= enc_u32(n.position.x) + f2);
    lemma_u32_round_trip(n.position.x, f2);
    lemma_u32_round_trip(n.position.y, f3);
    lemma_opt_u8_round_trip(n.material_channel, f4);
    lemma_valves_round_trip(n.valves, rest);
}

/// A run of nodes that was written is read back.
pub proof fn lemma_nodes_round_trip(ns: Seq<NodeValveStateView>, rest: Seq<u8>)
    requires
        forall|i: int| 0 <= i < ns.len() ==> (#[trigger] ns[i]).valves.len() <= u32::MAX,
    ensures
        dec_nodes(enc_nodes(ns) + rest, ns.len()) == Some((ns, rest)),
    decreases ns.len(),
{
    if ns.len() == 0 {
        assert(enc_nodes(ns) + rest =~= rest);
    } else {
        let tail = ns.skip(1);
        assert forall|i: int| 0 <= i < tail.len() implies (#[trigger] tail[i]).valves.len()
            <= u32::MAX by {
            assert(tail[i] == ns[i + 1]);
        }
        let after = enc_nodes(tail) + rest;
        assert(enc_nodes(ns) + rest =~= enc_node(ns[0]) + after);
        lemma_node_round_trip(ns[0], after);
        lemma_nodes_round_trip(tail, rest);
        assert(seq![ns[0]] + tail =~= ns);
    }
}

/// The bytes of a run of nodes with one more node are the bytes of the
/// run followed by the bytes of the node.
pub proof fn lemma_enc_nodes_push(ns: Seq<NodeValveStateView>, n: NodeValveStateView)
    ensures
        enc_nodes(ns.push(n)) == enc_nodes(ns) + enc_node(n),
    decreases ns.len(),
{
    let longer = ns.push(n);
    if ns.len() == 0 {
        assert(longer.skip(1) =~= Seq::empty());
        assert(enc_nodes(longer.skip(1)) =~= Seq::empty());
        assert(longer[0] == n);
        assert(enc_nodes(longer) == enc_node(n) + enc_nodes(longer.skip(1)));
        assert(enc_nodes(ns) =~= Seq::empty());
        assert(enc_nodes(longer) =~= enc_nodes(ns) + enc_node(n));
    } else {
        assert(longer.skip(1) =~= ns.skip(1).push(n));
        lemma_enc_nodes_push(ns.skip(1), n);
        assert(longer[0] == ns[0]);
        assert(enc_nodes(longer) == enc_node(ns[0]) + enc_nodes(longer.skip(1)));
        assert(enc_nodes(ns) == enc_node(ns[0]) + enc_nodes(ns.skip(1)));
        assert(enc_nodes(longer) =~= enc_nodes(ns) + enc_node(n));
    }
}

/// The bytes of a layer, whatever follows them, decode to that layer and
/// leave what follows.
pub proof fn lemma_layer_round_trip_before(l: LayerView, rest: Seq<u8>)
    requires
        l.encodable(),
    ensures
        dec_layer(l.encoding() + rest) == Some((l, rest)),
{
    let f6 = enc_nodes(l.nodes) + rest;
    let f5 = enc_u32(l.nodes.len() as u32) + f6;
    let f4 = enc_opt_i64(l.estimated_time) + f5;
    let f3 = enc_opt_u8(l.primary_material) + f4;
    let f2 = enc_u32(l.layer_number) + f3;
    assert(l.encoding() + rest =~= enc_i64(l.z_height) + f2);
    lemma_i64_round_trip(l.z_height, f2);
    lemma_u32_round_trip(l.layer_number, f3);
    lemma_opt_u8_round_trip(l.primary_material, f4);
    lemma_opt_i64_round_trip(l.estimated_time, f5);
    lemma_u32_round_trip(l.nodes.len() as u32, f6);
    lemma_nodes_round_trip(l.nodes, rest);
}

/// Decoding inverts encoding: a layer that can be encoded is decoded from
/// its encoding.
pub proof fn lemma_layer_round_trip(l: LayerView)
    requires
        l.encodable(),
    ensures
        spec_layer_from_bytes(l.encoding()) == Some(l),
{
    lemma_layer_round_trip_before(l, Seq::empty());
    assert(l.encoding() + Seq::<u8>::empty() =~= l.encoding());
}

/// The bytes of a barrier: what it waits for, then its optional timeout.
pub open spec fn enc_barrier(b: G4WCommand) -> Seq<u8> {
    enc_wait_type(b.wait_type) + enc_opt_u32(b.timeout_ms)
}

/// Reads a barrier.
pub open spec fn dec_barrier(b: Seq<u8>) -> Decoded<G4WCommand> {
    match dec_wait_type(b) {
        Some((wait_type, b1)) => match dec_opt_u32(b1) {
            Some((timeout_ms, b2)) => Some((G4WCommand { wait_type, timeout_ms }, b2)),
            None => None,
        },
        None => None,
    }
}

/// The bytes of a run of barriers, one after the other.
pub open spec fn enc_barriers(bs: Seq<G4WCommand>) -> Seq<u8>
    decreases bs.len(),
{
    if bs.len() == 0 {
        Seq::empty()
    } else {
        enc_barrier(bs[0]) + enc_barriers(bs.skip(1))
    }
}

/// Reads `n` barriers.
pub open spec fn dec_barriers(b: Seq<u8>, n: nat) -> Decoded<Seq<G4WCommand>>
    decreases n,
{
    if n == 0 {
        Some((Seq::empty(), b))
    } else {
        match dec_barrier(b) {
            Some((barrier, rest)) => match dec_barriers(rest, (n - 1) as nat) {
                Some((barriers, after)) => Some((seq![barrier] + barriers, after)),
                None => None,
            },
            None => None,
        }
    }
}

impl StreamLayerView {
    /// The layer can be encoded, and the list of barriers is short enough
    /// for its length to fit in four bytes.
    pub open spec fn encodable(self) -> bool {
        self.layer.encodable() && self.barriers.len() <= u32::MAX
    }

    /// The binary encoding of a layer of the stream: the layer, then the
    /// list of its barriers.
    pub open spec fn encoding(self) -> Seq<u8> {
        self.layer.encoding() + enc_u32(self.barriers.len() as u32) + enc_barriers(self.barriers)
    }
}

/// The layer of the stream that a run of bytes encodes, if it encodes one
/// and nothing follows it.
pub open spec fn spec_stream_layer_from_bytes(b: Seq<u8>) -> Option<StreamLayerView> {
    match dec_layer(b) {
        Some((layer, b1)) => match dec_u32(b1) {
            Some((count, b2)) => match dec_barriers(b2, count as nat) {
                Some((barriers, b3)) => if b3.len() == 0 {
                    Some(StreamLayerView { layer, barriers })
                } else {
                    None
                },
                None => None,
            },
            None => None,
        },
        None => None,
    }
}

/// A barrier that was written is read back.
pub proof fn lemma_barrier_round_trip(b: G4WCommand, rest: Seq<u8>)
    ensures
        dec_barrier(enc_barrier(b) + rest) == Some((b, rest)),
{
    let f2 = enc_opt_u32(b.timeout_ms) + rest;
    assert(enc_barrier(b) + rest =~= enc_wait_type(b.wait_type) + f2);
    lemma_wait_type_round_trip(b.wait_type, f2);
    lemma_opt_u32_round_trip(b.timeout_ms, rest);
}

/// A run of barriers that was written is read back.
pub proof fn lemma_barriers_round_trip(bs: Seq<G4WCommand>, rest: Seq<u8>)
    ensures
        dec_barriers(enc_barriers(bs) + rest, bs.len()) == Some((bs, rest)),
    decreases bs.len(),
{
    if bs.len() == 0 {
        assert(enc_barriers(bs) + rest =~= rest);
    } else {
        let tail = bs.skip(1);
        let after = enc_barriers(tail) + rest;
        assert(enc_barriers(bs) + rest =~= enc_barrier(bs[0]) + after);
        lemma_barrier_round_trip(bs[0], after);
        lemma_barriers_round_trip(tail, rest);
        assert(seq![bs[0]] + tail =~= bs);
    }
}

/// The bytes of a run of barriers with one more barrier are the bytes of
/// the run followed by the bytes of the barrier.
pub proof fn lemma_enc_barriers_push(bs: Seq<G4WCommand>, b: G4WCommand)
    ensures
        enc_barriers(bs.push(b)) == enc_barriers(bs) + enc_barrier(b),
    decreases bs.len(),
{
    let longer = bs.push(b);
    if bs.len() == 0 {
        assert(longer.skip(1) =~= Seq::empty());
        assert(enc_barriers(longer.skip(1)) =~= Seq::empty());
        assert(longer[0] == b);
        assert(enc_barriers(longer) == enc_barrier(b) + enc_barriers(longer.skip(1)));
        assert(enc_barriers(bs) =~= Seq::empty());
        assert(enc_barriers(longer) =~= enc_barriers(bs) + enc_barrier(b));
    } else {
        assert(longer.skip(1) =~= bs.skip(1).push(b));
        lemma_enc_barriers_push(bs.skip(1), b);
        assert(longer[0] == bs[0]);
        assert(enc_barriers(longer) == enc_barrier(bs[0]) + enc_barriers(longer.skip(1)));
        assert(enc_barriers(bs) == enc_barrier(bs[0]) + enc_barriers(bs.skip(1)));
        assert(enc_barriers(longer) =~= enc_barriers(bs) + enc_barrier(b));
    }
}

/// Decoding inverts encoding: a layer of the stream that can be encoded is
/// decoded from its encoding.
pub proof fn lemma_stream_layer_round_trip(l: StreamLayerView)
    requires
        l.encodable(),
    ensures
        spec_stream_layer_from_bytes(l.encoding()) == Some(l),
{
    let f3 = enc_barriers(l.barriers);
    let f2 = enc_u32(l.barriers.len() as u32) + f3;
    assert(l.encoding() =~= l.layer.encoding() + f2);
    lemma_layer_round_trip_before(l.layer, f2);
    lemma_u32_round_trip(l.barriers.len() as u32, f3);
    lemma_barriers_round_trip(l.barriers, Seq::empty());
    assert(f3 + Seq::<u8>::empty() =~= f3);
}

/// Tells whether the layer can be encoded.
pub fn layer_encodable(layer: &Layer) -> (ok: bool)
    ensures
        ok == layer@.encodable(),
{
    if layer.nodes.len() > u32::MAX as usize {
        return false;
    }
    let mut i: usize = 0;
    while i < layer.nodes.len()
        invariant
            i <= layer.nodes@.len(),
            layer.nodes@.len() <= u32::MAX,
            forall|j: int| 0 <= j < i ==> (#[trigger] layer@.nodes[j]).valves.len() <= u32::MAX,
        decreases layer.nodes@.len() - i,
    {
        if layer.nodes[i].valves.len() > u32::MAX as usize {
            assert(layer@.nodes[i as int].valves.len() > u32::MAX);
            return false;
        }
        i = i + 1;
    }
    true
}

/// Encodes a layer, or gives nothing for a layer that cannot be encoded.
pub fn encode_layer(layer: &Layer) -> (r: Option<Vec<u8>>)
    ensures
        layer@.encodable() ==> r is Some && r->Some_0@ == layer@.encoding(),
        !layer@.encodable() ==> r.is_none(),
{
    if !layer_encodable(layer) {
        return None;
    }
    let mut out: Vec<u8> = Vec::new();
    push_i64(&mut out, layer.z_height);
    put_u32(&mut out, layer.layer_number);
    push_opt_u8(&mut out, layer.primary_material);
    push_opt_i64(&mut out, layer.estimated_time);
    put_u32(&mut out, layer.nodes.len() as u32);
    let ghost head = out@;
    let ghost views = layer@.nodes;
    let mut i: usize = 0;
    while i < layer.nodes.len()
        invariant
            i <= layer.nodes@.len(),
            views == layer@.nodes,
            layer@.encodable(),
            out@ == head + enc_nodes(views.take(i as int)),
        decreases layer.nodes@.len() - i,
    {
        let node = &layer.nodes[i];
        let ghost before = out@;
        put_u32(&mut out, node.position.x);
        put_u32(&mut out, node.position.y);
        push_opt_u8(&mut out, node.material_channel);
        assert(views[i as int] == node@);
        push_valves(&mut out, &node.valves);
        proof {
            assert(out@ =~= before + enc_node(node@));
            lemma_enc_nodes_push(views.take(i as int), node@);
            assert(views.take(i as int + 1) =~= views.take(i as int).push(node@));
        }
        i = i + 1;
    }
    proof {
        assert(views.take(i as int) =~= views);
        assert(out@ =~= layer@.encoding());
    }
    Some(out)
}

fn read_node(r: &mut Reader) -> (v: Option<NodeValveState>)
    requires
        old(r).wf(),
    ensures
        final(r).wf(),
        match dec_node(old(r).rest()) {
            Some((n, rest)) => v is Some && v->Some_0@ == n && final(r).rest() == rest,
            None => v.is_none(),
        },
{
    let x = match r.u32() {
        Some(x) => x,
        None => {
            return None;
        },
    };
    let y = match r.u32() {
        Some(y) => y,
        None => {
            return None;
        },
    };
    let material_channel = match r.opt_u8() {
        Some(c) => c,
        None => {
            return None;
        },
    };
    match read_valves(r) {
        Some(valves) => Some(
            NodeValveState { position: GridCoordinate { x, y }, valves, material_channel },
        ),
        None => None,
    }
}

/// What reading `n` nodes gives, when the nodes in `done` were read
/// already and `b` is what follows them.
pub open spec fn dec_more(done: Seq<NodeValveStateView>, b: Seq<u8>, n: nat) -> Decoded<
    Seq<NodeValveStateView>,
> {
    match dec_nodes(b, n) {
        Some((nodes, after)) => Some((done + nodes, after)),
        None => None,
    }
}

fn read_nodes(r: &mut Reader, count: u32) -> (v: Option<Vec<NodeValveState>>)
    requires
        old(r).wf(),
    ensures
        final(r).wf(),
        match dec_nodes(old(r).rest(), count as nat) {
            Some((ns, rest)) => v is Some && node_views(v->Some_0@) == ns && final(r).rest()
                == rest,
            None => v.is_none(),
        },
{
    let ghost start = r.rest();
    let mut out: Vec<NodeValveState> = Vec::new();
    let mut i: u32 = 0;
    assert(node_views(out@) =~= Seq::empty());
    assert(dec_more(node_views(out@), r.rest(), count as nat) =~= dec_nodes(start, count as nat)) by {
        match dec_nodes(start, count as nat) {
            Some((nodes, after)) => {
                assert(Seq::<NodeValveStateView>::empty() + nodes =~= nodes);
            },
            None => {},
        }
    }
    while i < count
        invariant
            i <= count,
            r.wf(),
            start == old(r).rest(),
            dec_more(node_views(out@), r.rest(), (count - i) as nat) == dec_nodes(
                start,
                count as nat,
            ),
        decreases count - i,
    {
        let ghost here = r.rest();
        let ghost done = node_views(out@);
        match read_node(r) {
            Some(node) => {
                let ghost view = node@;
                out.push(node);
                proof {
                    assert(node_views(out@) =~= done.push(view));
                    match dec_nodes(r.rest(), (count - i - 1) as nat) {
                        Some((nodes, after)) => {
                            assert(done.push(view) + nodes =~= done + (seq![view] + nodes));
                        },
                        None => {},
                    }
                }
            },
            None => {
                assert(dec_nodes(here, (count - i) as nat).is_none());
                return None;
            },
        }
        i = i + 1;
    }
    proof {
        assert(node_views(out@) + Seq::<NodeValveStateView>::empty() =~= node_views(out@));
    }
    Some(out)
}

fn read_layer(reader: &mut Reader) -> (r: Option<Layer>)
    requires
        old(reader).wf(),
    ensures
        final(reader).wf(),
        match dec_layer(old(reader).rest()) {
            Some((l, rest)) => r is Some && r->Some_0@ == l && final(reader).rest() == rest,
            None => r.is_none(),
        },
{
    let z_height = match reader.i64() {
        Some(v) => v,
        None => {
            return None;
        },
    };
    let layer_number = match reader.u32() {
        Some(v) => v,
        None => {
            return None;
        },
    };
    let primary_material = match reader.opt_u8() {
        Some(v) => v,
        None => {
            return None;
        },
    };
    let estimated_time = match reader.opt_i64() {
        Some(v) => v,
        None => {
            return None;
        },
    };
    let count = match reader.u32() {
        Some(v) => v,
        None => {
            return None;
        },
    };
    match read_nodes(reader, count) {
        Some(nodes) => Some(
            Layer { z_height, layer_number, nodes, primary_material, estimated_time },
        ),
        None => None,
    }
}

/// Decodes a layer. The bytes must hold the encoding of one layer and
/// nothing after it.
pub fn decode_layer(bytes: &[u8]) -> (r: Option<Layer>)
    ensures
        match spec_layer_from_bytes(bytes@) {
            Some(l) => r is Some && r->Some_0@ == l,
            None => r.is_none(),
        },
{
    let mut reader = Reader::new(bytes);
    match read_layer(&mut reader) {
        Some(layer) => if reader.at_end() {
            Some(layer)
        } else {
            None
        },
        None => None,
    }
}

/// What reading `n` barriers gives, when the barriers in `done` were read
/// already and `b` is what follows them.
pub open spec fn dec_more_barriers(done: Seq<G4WCommand>, b: Seq<u8>, n: nat) -> Decoded<
    Seq<G4WCommand>,
> {
    match dec_barriers(b, n) {
        Some((barriers, after)) => Some((done + barriers, after)),
        None => None,
    }
}

fn read_barriers(r: &mut Reader, count: u32) -> (v: Option<Vec<G4WCommand>>)
    requires
        old(r).wf(),
    ensures
        final(r).wf(),
        match dec_barriers(old(r).rest(), count as nat) {
            Some((bs, rest)) => v is Some && v->Some_0@ == bs && final(r).rest() == rest,
            None => v.is_none(),
        },
{
    let ghost start = r.rest();
    let mut out: Vec<G4WCommand> = Vec::new();
    let mut i: u32 = 0;
    proof {
        match dec_barriers(start, count as nat) {
            Some((bs, after)) => {
                assert(Seq::<G4WCommand>::empty() + bs =~= bs);
            },
            None => {},
        }
    }
    while i < count
        invariant
            i <= count,
            r.wf(),
            start == old(r).rest(),
            dec_more_barriers(out@, r.rest(), (count - i) as nat) == dec_barriers(
                start,
                count as nat,
            ),
        decreases count - i,
    {
        let ghost here = r.rest();
        let ghost done = out@;
        let wait_type = match read_wait_type(r) {
            Some(w) => w,
            None => {
                assert(dec_barriers(here, (count - i) as nat).is_none());
                return None;
            },
        };
        let timeout_ms = match r.opt_u32() {
            Some(t) => t,
            None => {
                assert(dec_barriers(here, (count - i) as nat).is_none());
                return None;
            },
        };
        let barrier = G4WCommand { wait_type, timeout_ms };
        out.push(barrier);
        proof {
            match dec_barriers(r.rest(), (count - i - 1) as nat) {
                Some((bs, after)) => {
                    assert(done.push(barrier) + bs =~= done + (seq![barrier] + bs));
                },
                None => {},
            }
        }
        i = i + 1;
    }
    proof {
        assert(out@ + Seq::<G4WCommand>::empty() =~= out@);
    }
    Some(out)
}

/// Encodes a layer with its barriers, or gives nothing where they cannot
/// be encoded.
pub fn encode_record(layer: &Layer, barriers: &Vec<G4WCommand>) -> (r: Option<Vec<u8>>)
    ensures
        ({
            let l = StreamLayerView { layer: layer@, barriers: barriers@ };
            &&& l.encodable() ==> r is Some && r->Some_0@ == l.encoding()
            &&& !l.encodable() ==> r.is_none()
        }),
{
    if barriers.len() > u32::MAX as usize {
        return None;
    }
    let mut out = match encode_layer(layer) {
        Some(bytes) => bytes,
        None => {
            return None;
        },
    };
    put_u32(&mut out, barriers.len() as u32);
    let ghost head = out@;
    let mut i: usize = 0;
    while i < barriers.len()
        invariant
            i <= barriers@.len(),
            out@ == head + enc_barriers(barriers@.take(i as int)),
        decreases barriers@.len() - i,
    {
        let b = barriers[i];
        let ghost before = out@;
        push_wait_type(&mut out, b.wait_type);
        push_opt_u32(&mut out, b.timeout_ms);
        proof {
            assert(out@ =~= before + enc_barrier(b));
            lemma_enc_barriers_push(barriers@.take(i as int), b);
            assert(barriers@.take(i as int + 1) =~= barriers@.take(i as int).push(b));
        }
        i = i + 1;
    }
    proof {
        assert(barriers@.take(i as int) =~= barriers@);
        assert(out@ =~= (StreamLayerView { layer: layer@, barriers: barriers@ }).encoding());
    }
    Some(out)
}

/// Encodes a layer of the stream.
pub fn encode_stream_layer(layer: &StreamLayer) -> (r: Option<Vec<u8>>)
    ensures
        layer@.encodable() ==> r is Some && r->Some_0@ == layer@.encoding(),
        !layer@.encodable() ==> r.is_none(),
{
    encode_record(&layer.layer, &layer.barriers)
}

/// Decodes a layer of the stream. The bytes must hold the encoding of one
/// such layer and nothing after it.
pub fn decode_stream_layer(bytes: &[u8]) -> (r: Option<StreamLayer>)
    ensures
        match spec_stream_layer_from_bytes(bytes@) {
            Some(l) => r is Some && r->Some_0@ == l,
            None => r.is_none(),
        },
{
    let mut reader = Reader::new(bytes);
    let layer = match read_layer(&mut reader) {
        Some(l) => l,
        None => {
            return None;
        },
    };
    let count = match reader.u32() {
        Some(n) => n,
        None => {
            return None;
        },
    };
    let barriers = match read_barriers(&mut reader, count) {
        Some(b) => b,
        None => {
            return None;
        },
    };
    if !reader.at_end() {
        return None;
    }
    Some(StreamLayer { layer, barriers })
}

} // verus!
