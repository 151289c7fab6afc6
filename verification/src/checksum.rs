//! Checksums and little-endian integers, computed by the `crc32fast` and
//! `byteorder` crates.

use vstd::prelude::*;
use vstd::arithmetic::div_mod::lemma_div_denominator;
use byteorder::{ByteOrder, LittleEndian};
use crate::gcode_types::{NodeValveState, NodeValveStateView, ValveState, node_views};

verus! {

/// The CRC-32 checksum that `crc32fast::hash` computes of a run of bytes.
pub uninterp spec fn crc32(data: Seq<u8>) -> u32;

/// `crc32fast::hash`: the checksum depends on the bytes alone.
#[verifier::external_body]
pub(crate) fn crc32_of(data: &[u8]) -> (c: u32)
    ensures
        c == crc32(data@),
{
    crc32fast::hash(data)
}

/// The value of four bytes read as a little-endian integer.
pub open spec fn spec_le_u32(b: Seq<u8>) -> int
    recommends
        b.len() >= 4,
{
    b[0] as int + 0x100 * (b[1] as int) + 0x1_0000 * (b[2] as int) + 0x100_0000 * (b[3] as int)
}

/// The four bytes of a 32-bit integer, least significant first.
pub open spec fn spec_u32_le(n: u32) -> Seq<u8> {
    seq![
        (n as int % 0x100) as u8,
        ((n as int / 0x100) % 0x100) as u8,
        ((n as int / 0x1_0000) % 0x100) as u8,
        ((n as int / 0x100_0000) % 0x100) as u8,
    ]
}

/// The value of eight bytes read as a little-endian integer.
pub open spec fn spec_le_u64(b: Seq<u8>) -> int
    recommends
        b.len() >= 8,
{
    spec_le_u32(b) + 0x1_0000_0000 * spec_le_u32(b.skip(4))
}

/// The eight bytes of a 64-bit integer, least significant first.
pub open spec fn spec_u64_le(n: u64) -> Seq<u8> {
    spec_u32_le((n as int % 0x1_0000_0000) as u32) + spec_u32_le((n as int / 0x1_0000_0000) as u32)
}

/// `LittleEndian::read_u32` of `byteorder`: the first four bytes of the
/// buffer as a little-endian integer. It panics on a shorter buffer, which
/// the precondition excludes.
#[verifier::external_body]
pub(crate) fn read_u32_le(buf: &[u8]) -> (n: u32)
    requires
        buf@.len() >= 4,
    ensures
        n as int == spec_le_u32(buf@),
{
    LittleEndian::read_u32(buf)
}

/// `LittleEndian::read_u64` of `byteorder`: the first eight bytes of the
/// buffer as a little-endian integer. It panics on a shorter buffer, which
/// the precondition excludes.
#[verifier::external_body]
pub(crate) fn read_u64_le(buf: &[u8]) -> (n: u64)
    requires
        buf@.len() >= 8,
    ensures
        n as int == spec_le_u64(buf@),
{
    LittleEndian::read_u64(buf)
}

/// `LittleEndian::write_u32` of `byteorder`, on a buffer of four bytes: the
/// bytes of `n`, least significant first.
#[verifier::external_body]
pub(crate) fn u32_le_bytes(n: u32) -> (b: [u8; 4])
    ensures
        b@ == spec_u32_le(n),
{
    let mut b = [0u8; 4];
    LittleEndian::write_u32(&mut b, n);
    b
}

/// `LittleEndian::write_u64` of `byteorder`, on a buffer of eight bytes: the
/// bytes of `n`, least significant first.
#[verifier::external_body]
pub(crate) fn u64_le_bytes(n: u64) -> (b: [u8; 8])
    ensures
        b@ == spec_u64_le(n),
{
    let mut b = [0u8; 8];
    LittleEndian::write_u64(&mut b, n);
    b
}

/// Reading back what was written gives the integer that was written.
pub proof fn lemma_u32_le_round_trip(n: u32)
    ensures
        spec_u32_le(n).len() == 4,
        spec_le_u32(spec_u32_le(n)) == n,
{
    let v = n as int;
    let q1 = v / 0x100;
    let q2 = v / 0x1_0000;
    let q3 = v / 0x100_0000;
    lemma_div_denominator(v, 0x100, 0x100);
    lemma_div_denominator(v, 0x1_0000, 0x100);
    assert(q1 / 0x100 == q2);
    assert(q2 / 0x100 == q3);
    assert(v == v % 0x100 + 0x100 * q1);
    assert(q1 == q1 % 0x100 + 0x100 * q2);
    assert(q2 == q2 % 0x100 + 0x100 * q3);
    assert(0 <= q3 < 0x100);
    assert(q3 % 0x100 == q3);
    let b = spec_u32_le(n);
    assert(b[0] as int == v % 0x100);
    assert(b[1] as int == q1 % 0x100);
    assert(b[2] as int == q2 % 0x100);
    assert(b[3] as int == q3);
}

/// Reading back what was written gives the integer that was written.
pub proof fn lemma_u64_le_round_trip(n: u64)
    ensures
        spec_u64_le(n).len() == 8,
        spec_le_u64(spec_u64_le(n)) == n,
{
    let lo = (n as int % 0x1_0000_0000) as u32;
    let hi = (n as int / 0x1_0000_0000) as u32;
    lemma_u32_le_round_trip(lo);
    lemma_u32_le_round_trip(hi);
    assert(spec_u64_le(n).skip(4) =~= spec_u32_le(hi));
    assert(spec_le_u32(spec_u64_le(n)) == spec_le_u32(spec_u32_le(lo)));
}

/// Appends the four bytes of `n`, least significant first.
pub fn push_u32(out: &mut Vec<u8>, n: u32)
    ensures
        final(out)@ == old(out)@ + spec_u32_le(n),
{
    let b = u32_le_bytes(n);
    out.push(b[0]);
    out.push(b[1]);
    out.push(b[2]);
    out.push(b[3]);
    assert(out@ =~= old(out)@ + spec_u32_le(n));
}

/// Appends the eight bytes of `n`, least significant first.
pub fn push_u64(out: &mut Vec<u8>, n: u64)
    ensures
        final(out)@ == old(out)@ + spec_u64_le(n),
{
    let b = u64_le_bytes(n);
    let mut i: usize = 0;
    while i < 8
        invariant
            i <= 8,
            b@ == spec_u64_le(n),
            b@.len() == 8,
            out@ == old(out)@ + b@.take(i as int),
        decreases 8 - i,
    {
        out.push(b[i]);
        assert(out@ =~= old(out)@ + b@.take(i as int + 1));
        i = i + 1;
    }
    assert(b@.take(8) =~= b@);
}

/// The bytes that stand for a run of valve states: for each valve its index,
/// then 1 if it is open and 0 if it is closed.
pub open spec fn spec_valve_bytes(valves: Seq<ValveState>) -> Seq<u8>
    decreases valves.len(),
{
    if valves.len() == 0 {
        Seq::empty()
    } else {
        spec_valve_bytes(valves.drop_last()) + seq![
            valves.last().index,
            if valves.last().open { 1u8 } else { 0u8 },
        ]
    }
}

/// The two bytes that stand for an optional channel: a flag, then the
/// channel or zero.
pub open spec fn spec_channel_bytes(channel: Option<u8>) -> Seq<u8> {
    match channel {
        Some(c) => seq![1u8, c],
        None => seq![0u8, 0u8],
    }
}

/// The bytes that stand for one node: its grid position, its channel, the
/// number of its valves and their states.
pub open spec fn spec_node_bytes(node: NodeValveStateView) -> Seq<u8> {
    spec_u32_le(node.position.x) + spec_u32_le(node.position.y) + spec_channel_bytes(
        node.material_channel,
    ) + spec_u64_le(node.valves.len() as u64) + spec_valve_bytes(node.valves)
}

/// The bytes that stand for a valve pattern: its nodes, in order.
pub open spec fn spec_pattern_bytes(nodes: Seq<NodeValveStateView>) -> Seq<u8>
    decreases nodes.len(),
{
    if nodes.len() == 0 {
        Seq::empty()
    } else {
        spec_pattern_bytes(nodes.drop_last()) + spec_node_bytes(nodes.last())
    }
}

/// The checksum of a valve pattern. Equal patterns have equal checksums.
pub open spec fn spec_pattern_hash(nodes: Seq<NodeValveStateView>) -> u64 {
    crc32(spec_pattern_bytes(nodes)) as u64
}

fn push_node_bytes(out: &mut Vec<u8>, node: &NodeValveState)
    ensures
        final(out)@ == old(out)@ + spec_node_bytes(node@),
{
    push_u32(out, node.position.x);
    push_u32(out, node.position.y);
    match node.material_channel {
        Some(c) => {
            out.push(1u8);
            out.push(c);
        },
        None => {
            out.push(0u8);
            out.push(0u8);
        },
    }
    push_u64(out, node.valves.len() as u64);
    let ghost head = out@;
    assert(head =~= old(out)@ + spec_u32_le(node.position.x) + spec_u32_le(node.position.y)
        + spec_channel_bytes(node.material_channel) + spec_u64_le(node.valves@.len() as u64));
    let mut i: usize = 0;
    while i < node.valves.len()
        invariant
            i <= node.valves@.len(),
            out@ == head + spec_valve_bytes(node.valves@.take(i as int)),
        decreases node.valves@.len() - i,
    {
        let v = node.valves[i];
        proof {
            assert(node.valves@.take(i as int + 1).drop_last() =~= node.valves@.take(i as int));
        }
        out.push(v.index);
        out.push(if v.open { 1u8 } else { 0u8 });
        assert(out@ =~= head + spec_valve_bytes(node.valves@.take(i as int + 1)));
        i = i + 1;
    }
    assert(node.valves@.take(i as int) =~= node.valves@);
    assert(out@ =~= old(out)@ + spec_node_bytes(node@));
}

/// Computes the checksum of a valve pattern.
pub fn pattern_hash(nodes: &Vec<NodeValveState>) -> (h: u64)
    ensures
        h == spec_pattern_hash(node_views(nodes@)),
{
    let ghost views = node_views(nodes@);
    let mut bytes: Vec<u8> = Vec::new();
    let mut i: usize = 0;
    while i < nodes.len()
        invariant
            i <= nodes@.len(),
            views == node_views(nodes@),
            bytes@ == spec_pattern_bytes(views.take(i as int)),
        decreases nodes@.len() - i,
    {
        proof {
            assert(views.take(i as int + 1).drop_last() =~= views.take(i as int));
        }
        push_node_bytes(&mut bytes, &nodes[i]);
        i = i + 1;
    }
    proof {
        assert(views.take(i as int) =~= views);
    }
    crc32_of(bytes.as_slice()) as u64
}

} // verus!
