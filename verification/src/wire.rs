//! The binary encoding of commands.
//!
//! A command is a tag byte followed by its fields in declaration order.
//! Integers are little-endian, a quantity takes eight bytes, an optional
//! field is a flag byte followed by the value when the flag is 1, a list
//! is its length in four bytes followed by its items, and text is its
//! length in bytes followed by its UTF-8 encoding.

use vstd::prelude::*;
use vstd::slice::slice_subrange;
use vstd::utf8::{decode_utf8, encode_utf8, valid_utf8};
use crate::checksum::{
    lemma_u32_le_round_trip, lemma_u64_le_round_trip, push_u32, push_u64, read_u32_le,
    read_u64_le, spec_le_u32, spec_le_u64, spec_u32_le, spec_u64_le,
};
use crate::gcode_types::{
    Color, Command, CommandError, CommandView, Coordinate, G4CCommand, G4DCommand, G4HCommand,
    G4LCommand, G4PCommand, G4SCommand, G4WCommand, ValveState, WaitType,
};

verus! {

/// What a decoder gives: the value and the bytes that follow it.
pub type Decoded<T> = Option<(T, Seq<u8>)>;

/// The byte that stands for a truth value.
pub open spec fn enc_bool(v: bool) -> Seq<u8> {
    seq![if v { 1u8 } else { 0u8 }]
}

/// Reads a truth value: 0 or 1, nothing else.
pub open spec fn dec_bool(b: Seq<u8>) -> Decoded<bool> {
    if b.len() >= 1 && b[0] <= 1 {
        Some((b[0] == 1, b.skip(1)))
    } else {
        None
    }
}

/// Reads one byte.
pub open spec fn dec_u8(b: Seq<u8>) -> Decoded<u8> {
    if b.len() >= 1 {
        Some((b[0], b.skip(1)))
    } else {
        None
    }
}

/// The four bytes of a 32-bit integer, least significant first.
#[verifier::opaque]
pub open spec fn enc_u32(v: u32) -> Seq<u8> {
    spec_u32_le(v)
}

/// The 32-bit integer that the first four bytes stand for.
#[verifier::opaque]
pub open spec fn le_u32(b: Seq<u8>) -> u32 {
    spec_le_u32(b) as u32
}

/// Reads a 32-bit integer.
pub open spec fn dec_u32(b: Seq<u8>) -> Decoded<u32> {
    if b.len() >= 4 {
        Some((le_u32(b), b.skip(4)))
    } else {
        None
    }
}

/// The eight bytes of a quantity: its two's complement, least significant
/// byte first.
#[verifier::opaque]
pub open spec fn enc_i64(v: i64) -> Seq<u8> {
    spec_u64_le(v as u64)
}

/// The quantity that the first eight bytes stand for.
#[verifier::opaque]
pub open spec fn le_i64(b: Seq<u8>) -> i64 {
    (spec_le_u64(b) as u64) as i64
}

/// Reads a quantity.
pub open spec fn dec_i64(b: Seq<u8>) -> Decoded<i64> {
    if b.len() >= 8 {
        Some((le_i64(b), b.skip(8)))
    } else {
        None
    }
}

/// The eight bytes of a 64-bit integer, least significant first.
#[verifier::opaque]
pub open spec fn enc_u64(v: u64) -> Seq<u8> {
    spec_u64_le(v)
}

/// The 64-bit integer that the first eight bytes stand for.
#[verifier::opaque]
pub open spec fn le_u64(b: Seq<u8>) -> u64 {
    spec_le_u64(b) as u64
}

/// Reads a 64-bit integer.
pub open spec fn dec_u64(b: Seq<u8>) -> Decoded<u64> {
    if b.len() >= 8 {
        Some((le_u64(b), b.skip(8)))
    } else {
        None
    }
}

/// A 64-bit integer that was written is read back, and the bytes that
/// follow it are left.
pub proof fn lemma_u64_round_trip(v: u64, rest: Seq<u8>)
    ensures
        enc_u64(v).len() == 8,
        dec_u64(enc_u64(v) + rest) == Some((v, rest)),
{
    reveal(enc_u64);
    reveal(le_u64);
    lemma_u64_le_round_trip(v);
    let b = enc_u64(v) + rest;
    assert(b.skip(8) =~= rest);
    assert(b.skip(4) =~= enc_u64(v).skip(4) + rest);
    assert(spec_le_u32(b) == spec_le_u32(enc_u64(v)));
    assert(spec_le_u32(b.skip(4)) == spec_le_u32(enc_u64(v).skip(4)));
}

/// The bytes of an optional byte.
pub open spec fn enc_opt_u8(v: Option<u8>) -> Seq<u8> {
    match v {
        Some(x) => seq![1u8, x],
        None => seq![0u8],
    }
}

/// Reads an optional byte.
pub open spec fn dec_opt_u8(b: Seq<u8>) -> Decoded<Option<u8>> {
    match dec_bool(b) {
        Some((true, rest)) => match dec_u8(rest) {
            Some((x, after)) => Some((Some(x), after)),
            None => None,
        },
        Some((false, rest)) => Some((None, rest)),
        None => None,
    }
}

/// The bytes of an optional 32-bit integer.
pub open spec fn enc_opt_u32(v: Option<u32>) -> Seq<u8> {
    match v {
        Some(x) => seq![1u8] + enc_u32(x),
        None => seq![0u8],
    }
}

/// Reads an optional 32-bit integer.
pub open spec fn dec_opt_u32(b: Seq<u8>) -> Decoded<Option<u32>> {
    match dec_bool(b) {
        Some((true, rest)) => match dec_u32(rest) {
            Some((x, after)) => Some((Some(x), after)),
            None => None,
        },
        Some((false, rest)) => Some((None, rest)),
        None => None,
    }
}

/// The bytes of an optional quantity.
pub open spec fn enc_opt_i64(v: Option<i64>) -> Seq<u8> {
    match v {
        Some(x) => seq![1u8] + enc_i64(x),
        None => seq![0u8],
    }
}

/// Reads an optional quantity.
pub open spec fn dec_opt_i64(b: Seq<u8>) -> Decoded<Option<i64>> {
    match dec_bool(b) {
        Some((true, rest)) => match dec_i64(rest) {
            Some((x, after)) => Some((Some(x), after)),
            None => None,
        },
        Some((false, rest)) => Some((None, rest)),
        None => None,
    }
}

/// A quantity that was written is read back, and the bytes that follow it
/// are left.
pub proof fn lemma_i64_round_trip(v: i64, rest: Seq<u8>)
    ensures
        enc_i64(v).len() == 8,
        dec_i64(enc_i64(v) + rest) == Some((v, rest)),
{
    reveal(enc_i64);
    reveal(le_i64);
    lemma_u64_le_round_trip(v as u64);
    let b = enc_i64(v) + rest;
    assert(b.skip(8) =~= rest);
    assert(b.skip(4) =~= enc_i64(v).skip(4) + rest);
    assert(spec_le_u32(b) == spec_le_u32(enc_i64(v)));
    assert(spec_le_u32(b.skip(4)) == spec_le_u32(enc_i64(v).skip(4)));
    assert(((v as u64) as i64) == v) by (bit_vector);
}

/// A 32-bit integer that was written is read back, and the bytes that
/// follow it are left.
pub proof fn lemma_u32_round_trip(v: u32, rest: Seq<u8>)
    ensures
        enc_u32(v).len() == 4,
        dec_u32(enc_u32(v) + rest) == Some((v, rest)),
{
    reveal(enc_u32);
    reveal(le_u32);
    lemma_u32_le_round_trip(v);
    let b = enc_u32(v) + rest;
    assert(b.skip(4) =~= rest);
    assert(spec_le_u32(b) == spec_le_u32(spec_u32_le(v)));
}

/// An optional byte that was written is read back.
pub proof fn lemma_opt_u8_round_trip(v: Option<u8>, rest: Seq<u8>)
    ensures
        dec_opt_u8(enc_opt_u8(v) + rest) == Some((v, rest)),
{
    let b = enc_opt_u8(v) + rest;
    match v {
        Some(x) => {
            assert(b.skip(1) =~= seq![x] + rest);
            assert(b.skip(1).skip(1) =~= rest);
        },
        None => {
            assert(b.skip(1) =~= rest);
        },
    }
}

/// An optional 32-bit integer that was written is read back.
pub proof fn lemma_opt_u32_round_trip(v: Option<u32>, rest: Seq<u8>)
    ensures
        dec_opt_u32(enc_opt_u32(v) + rest) == Some((v, rest)),
{
    let b = enc_opt_u32(v) + rest;
    match v {
        Some(x) => {
            assert(b.skip(1) =~= enc_u32(x) + rest);
            lemma_u32_round_trip(x, rest);
        },
        None => {
            assert(b.skip(1) =~= rest);
        },
    }
}

/// An optional quantity that was written is read back.
pub proof fn lemma_opt_i64_round_trip(v: Option<i64>, rest: Seq<u8>)
    ensures
        dec_opt_i64(enc_opt_i64(v) + rest) == Some((v, rest)),
{
    let b = enc_opt_i64(v) + rest;
    match v {
        Some(x) => {
            assert(b.skip(1) =~= enc_i64(x) + rest);
            lemma_i64_round_trip(x, rest);
        },
        None => {
            assert(b.skip(1) =~= rest);
        },
    }
}

/// A reader over a run of bytes.
pub struct Reader<'a> {
    bytes: &'a [u8],
    pos: usize,
}

impl<'a> Reader<'a> {
    /// The reader has not run past the end of its bytes.
    pub closed spec fn wf(self) -> bool {
        self.pos <= self.bytes@.len()
    }

    /// The bytes that are still to be read.
    pub closed spec fn rest(self) -> Seq<u8> {
        self.bytes@.skip(self.pos as int)
    }

    /// A reader at the start of `bytes`.
    pub fn new(bytes: &'a [u8]) -> (r: Self)
        ensures
            r.wf(),
            r.rest() == bytes@,
    {
        let r = Reader { bytes, pos: 0 };
        assert(bytes@.skip(0) =~= bytes@);
        r
    }

    /// Tells whether every byte has been read.
    pub fn at_end(&self) -> (b: bool)
        requires
            self.wf(),
        ensures
            b == (self.rest().len() == 0),
    {
        self.pos == self.bytes.len()
    }

    /// Number of bytes that are still to be read.
    pub fn remaining(&self) -> (n: usize)
        requires
            self.wf(),
        ensures
            n == self.rest().len(),
    {
        self.bytes.len() - self.pos
    }

    /// Reads one byte.
    pub fn u8(&mut self) -> (r: Option<u8>)
        requires
            old(self).wf(),
        ensures
            final(self).wf(),
            match dec_u8(old(self).rest()) {
                Some((v, rest)) => r == Some(v) && final(self).rest() == rest,
                None => r.is_none(),
            },
    {
        if self.pos < self.bytes.len() {
            let v = self.bytes[self.pos];
            proof {
                assert(self.bytes@.skip(self.pos as int).skip(1) =~= self.bytes@.skip(
                    self.pos as int + 1,
                ));
            }
            self.pos = self.pos + 1;
            Some(v)
        } else {
            None
        }
    }

    /// Reads a truth value.
    pub fn bool(&mut self) -> (r: Option<bool>)
        requires
            old(self).wf(),
        ensures
            final(self).wf(),
            match dec_bool(old(self).rest()) {
                Some((v, rest)) => r == Some(v) && final(self).rest() == rest,
                None => r.is_none(),
            },
    {
        if self.pos < self.bytes.len() && self.bytes[self.pos] <= 1 {
            let v = self.bytes[self.pos] == 1;
            proof {
                assert(self.bytes@.skip(self.pos as int).skip(1) =~= self.bytes@.skip(
                    self.pos as int + 1,
                ));
            }
            self.pos = self.pos + 1;
            Some(v)
        } else {
            None
        }
    }

    /// Reads a 32-bit integer.
    pub fn u32(&mut self) -> (r: Option<u32>)
        requires
            old(self).wf(),
        ensures
            final(self).wf(),
            match dec_u32(old(self).rest()) {
                Some((v, rest)) => r == Some(v) && final(self).rest() == rest,
                None => r.is_none(),
            },
    {
        if self.bytes.len() - self.pos >= 4 {
            let window = slice_subrange(self.bytes, self.pos, self.pos + 4);
            let v = read_u32_le(window);
            proof {
                reveal(le_u32);
                let rest = self.bytes@.skip(self.pos as int);
                assert(rest.skip(4) =~= self.bytes@.skip(self.pos as int + 4));
                assert(window@ =~= rest.take(4));
                assert(spec_le_u32(window@) == spec_le_u32(rest));
            }
            self.pos = self.pos + 4;
            Some(v)
        } else {
            None
        }
    }

    /// Reads a quantity.
    pub fn i64(&mut self) -> (r: Option<i64>)
        requires
            old(self).wf(),
        ensures
            final(self).wf(),
            match dec_i64(old(self).rest()) {
                Some((v, rest)) => r == Some(v) && final(self).rest() == rest,
                None => r.is_none(),
            },
    {
        if self.bytes.len() - self.pos >= 8 {
            let window = slice_subrange(self.bytes, self.pos, self.pos + 8);
            let v = read_u64_le(window);
            proof {
                reveal(le_i64);
                let rest = self.bytes@.skip(self.pos as int);
                assert(rest.skip(8) =~= self.bytes@.skip(self.pos as int + 8));
                assert(window@ =~= rest.take(8));
                assert(window@.skip(4) =~= rest.skip(4).take(4));
                assert(spec_le_u32(window@) == spec_le_u32(rest));
                assert(spec_le_u32(window@.skip(4)) == spec_le_u32(rest.skip(4)));
            }
            self.pos = self.pos + 8;
            Some(v as i64)
        } else {
            None
        }
    }

    /// Reads a 64-bit integer.
    pub fn u64(&mut self) -> (r: Option<u64>)
        requires
            old(self).wf(),
        ensures
            final(self).wf(),
            match dec_u64(old(self).rest()) {
                Some((v, rest)) => r == Some(v) && final(self).rest() == rest,
                None => r.is_none(),
            },
    {
        if self.bytes.len() - self.pos >= 8 {
            let window = slice_subrange(self.bytes, self.pos, self.pos + 8);
            let v = read_u64_le(window);
            proof {
                reveal(le_u64);
                let rest = self.bytes@.skip(self.pos as int);
                assert(rest.skip(8) =~= self.bytes@.skip(self.pos as int + 8));
                assert(window@ =~= rest.take(8));
                assert(window@.skip(4) =~= rest.skip(4).take(4));
                assert(spec_le_u32(window@) == spec_le_u32(rest));
                assert(spec_le_u32(window@.skip(4)) == spec_le_u32(rest.skip(4)));
            }
            self.pos = self.pos + 8;
            Some(v)
        } else {
            None
        }
    }

    /// Reads an optional byte.
    pub fn opt_u8(&mut self) -> (r: Option<Option<u8>>)
        requires
            old(self).wf(),
        ensures
            final(self).wf(),
            match dec_opt_u8(old(self).rest()) {
                Some((v, rest)) => r == Some(v) && final(self).rest() == rest,
                None => r.is_none(),
            },
    {
        match self.bool() {
            Some(true) => match self.u8() {
                Some(v) => Some(Some(v)),
                None => None,
            },
            Some(false) => Some(None),
            None => None,
        }
    }

    /// Reads an optional 32-bit integer.
    pub fn opt_u32(&mut self) -> (r: Option<Option<u32>>)
        requires
            old(self).wf(),
        ensures
            final(self).wf(),
            match dec_opt_u32(old(self).rest()) {
                Some((v, rest)) => r == Some(v) && final(self).rest() == rest,
                None => r.is_none(),
            },
    {
        match self.bool() {
            Some(true) => match self.u32() {
                Some(v) => Some(Some(v)),
                None => None,
            },
            Some(false) => Some(None),
            None => None,
        }
    }

    /// Reads an optional quantity.
    pub fn opt_i64(&mut self) -> (r: Option<Option<i64>>)
        requires
            old(self).wf(),
        ensures
            final(self).wf(),
            match dec_opt_i64(old(self).rest()) {
                Some((v, rest)) => r == Some(v) && final(self).rest() == rest,
                None => r.is_none(),
            },
    {
        match self.bool() {
            Some(true) => match self.i64() {
                Some(v) => Some(Some(v)),
                None => None,
            },
            Some(false) => Some(None),
            None => None,
        }
    }

    /// Takes the next `n` bytes.
    pub fn take(&mut self, n: usize) -> (r: Option<&'a [u8]>)
        requires
            old(self).wf(),
        ensures
            final(self).wf(),
            old(self).rest().len() >= n ==> r is Some && r->Some_0@ == old(self).rest().take(
                n as int,
            ) && final(self).rest() == old(self).rest().skip(n as int),
            old(self).rest().len() < n ==> r.is_none(),
    {
        if self.bytes.len() - self.pos >= n {
            let window = slice_subrange(self.bytes, self.pos, self.pos + n);
            proof {
                let rest = self.bytes@.skip(self.pos as int);
                assert(rest.skip(n as int) =~= self.bytes@.skip(self.pos as int + n as int));
                assert(window@ =~= rest.take(n as int));
            }
            self.pos = self.pos + n;
            Some(window)
        } else {
            None
        }
    }
}

/// Appends a quantity.
pub fn push_i64(out: &mut Vec<u8>, v: i64)
    ensures
        final(out)@ == old(out)@ + enc_i64(v),
{
    reveal(enc_i64);
    push_u64(out, v as u64);
}

/// Appends a 64-bit integer.
pub fn put_u64(out: &mut Vec<u8>, v: u64)
    ensures
        final(out)@ == old(out)@ + enc_u64(v),
{
    reveal(enc_u64);
    push_u64(out, v);
}

/// Appends a 32-bit integer.
pub fn put_u32(out: &mut Vec<u8>, v: u32)
    ensures
        final(out)@ == old(out)@ + enc_u32(v),
{
    reveal(enc_u32);
    push_u32(out, v);
}

/// Appends a truth value.
pub fn push_bool(out: &mut Vec<u8>, v: bool)
    ensures
        final(out)@ == old(out)@ + enc_bool(v),
{
    out.push(if v { 1u8 } else { 0u8 });
    assert(out@ =~= old(out)@ + enc_bool(v));
}

/// Appends an optional byte.
pub fn push_opt_u8(out: &mut Vec<u8>, v: Option<u8>)
    ensures
        final(out)@ == old(out)@ + enc_opt_u8(v),
{
    match v {
        Some(x) => {
            out.push(1u8);
            out.push(x);
        },
        None => {
            out.push(0u8);
        },
    }
    assert(out@ =~= old(out)@ + enc_opt_u8(v));
}

/// Appends an optional 32-bit integer.
pub fn push_opt_u32(out: &mut Vec<u8>, v: Option<u32>)
    ensures
        final(out)@ == old(out)@ + enc_opt_u32(v),
{
    match v {
        Some(x) => {
            out.push(1u8);
            put_u32(out, x);
        },
        None => {
            out.push(0u8);
        },
    }
    assert(out@ =~= old(out)@ + enc_opt_u32(v));
}

/// Appends an optional quantity.
pub fn push_opt_i64(out: &mut Vec<u8>, v: Option<i64>)
    ensures
        final(out)@ == old(out)@ + enc_opt_i64(v),
{
    match v {
        Some(x) => {
            out.push(1u8);
            push_i64(out, x);
        },
        None => {
            out.push(0u8);
        },
    }
    assert(out@ =~= old(out)@ + enc_opt_i64(v));
}

/// The bytes of a list of valve states: the length, then two bytes for
/// each valve, its index and whether it is open.
#[verifier::opaque]
pub open spec fn enc_valves(vs: Seq<ValveState>) -> Seq<u8> {
    enc_u32(vs.len() as u32) + Seq::new(
        2 * vs.len(),
        |j: int|
            if j % 2 == 0 {
                vs[j / 2].index
            } else if vs[j / 2].open {
                1u8
            } else {
                0u8
            },
    )
}

/// The valve states that `n` pairs of bytes stand for.
pub open spec fn valves_at(b: Seq<u8>, n: int) -> Seq<ValveState> {
    Seq::new(n as nat, |i: int| ValveState { index: b[2 * i], open: b[2 * i + 1] == 1 })
}

/// Reads a list of valve states.
pub open spec fn dec_valves(b: Seq<u8>) -> Decoded<Seq<ValveState>> {
    match dec_u32(b) {
        Some((n, rest)) => if rest.len() >= 2 * n && (forall|i: int|
            0 <= i < n ==> #[trigger] rest[2 * i + 1] <= 1) {
            Some((valves_at(rest, n as int), rest.skip(2 * n)))
        } else {
            None
        },
        None => None,
    }
}

/// The bytes of a list of mixing ratios: the length, then nine bytes for
/// each entry, its channel and its ratio.
#[verifier::opaque]
pub open spec fn enc_ratios(rs: Seq<(u8, i64)>) -> Seq<u8> {
    enc_u32(rs.len() as u32) + Seq::new(
        9 * rs.len(),
        |j: int|
            if j % 9 == 0 {
                rs[j / 9].0
            } else {
                enc_i64(rs[j / 9].1)[j % 9 - 1]
            },
    )
}

/// The mixing ratios that `n` runs of nine bytes stand for.
pub open spec fn ratios_at(b: Seq<u8>, n: int) -> Seq<(u8, i64)> {
    Seq::new(
        n as nat,
        |i: int| (b[9 * i], le_i64(b.subrange(9 * i + 1, 9 * i + 9))),
    )
}

/// Reads a list of mixing ratios.
pub open spec fn dec_ratios(b: Seq<u8>) -> Decoded<Seq<(u8, i64)>> {
    match dec_u32(b) {
        Some((n, rest)) => if rest.len() >= 9 * n {
            Some((ratios_at(rest, n as int), rest.skip(9 * n)))
        } else {
            None
        },
        None => None,
    }
}

/// The bytes of an optional list of mixing ratios.
pub open spec fn enc_opt_ratios(v: Option<Seq<(u8, i64)>>) -> Seq<u8> {
    match v {
        Some(rs) => seq![1u8] + enc_ratios(rs),
        None => seq![0u8],
    }
}

/// Reads an optional list of mixing ratios.
pub open spec fn dec_opt_ratios(b: Seq<u8>) -> Decoded<Option<Seq<(u8, i64)>>> {
    match dec_bool(b) {
        Some((true, rest)) => match dec_ratios(rest) {
            Some((rs, after)) => Some((Some(rs), after)),
            None => None,
        },
        Some((false, rest)) => Some((None, rest)),
        None => None,
    }
}

/// The bytes of an optional colour.
pub open spec fn enc_opt_color(v: Option<Color>) -> Seq<u8> {
    match v {
        Some(c) => seq![1u8, c.r, c.g, c.b],
        None => seq![0u8],
    }
}

/// Reads an optional colour.
pub open spec fn dec_opt_color(b: Seq<u8>) -> Decoded<Option<Color>> {
    match dec_bool(b) {
        Some((true, rest)) => if rest.len() >= 3 {
            Some((Some(Color { r: rest[0], g: rest[1], b: rest[2] }), rest.skip(3)))
        } else {
            None
        },
        Some((false, rest)) => Some((None, rest)),
        None => None,
    }
}

/// The bytes of what a barrier waits for.
pub open spec fn enc_wait_type(w: WaitType) -> Seq<u8> {
    match w {
        WaitType::Valves => seq![0u8],
        WaitType::Pressure => seq![1u8],
        WaitType::Temperature => seq![2u8],
        WaitType::Duration(ms) => seq![3u8] + enc_u32(ms),
    }
}

/// Reads what a barrier waits for.
pub open spec fn dec_wait_type(b: Seq<u8>) -> Decoded<WaitType> {
    match dec_u8(b) {
        Some((tag, rest)) => if tag == 0 {
            Some((WaitType::Valves, rest))
        } else if tag == 1 {
            Some((WaitType::Pressure, rest))
        } else if tag == 2 {
            Some((WaitType::Temperature, rest))
        } else if tag == 3 {
            match dec_u32(rest) {
                Some((ms, after)) => Some((WaitType::Duration(ms), after)),
                None => None,
            }
        } else {
            None
        },
        None => None,
    }
}

/// The bytes of a text: the length of its UTF-8 encoding, then the
/// encoding.
pub open spec fn enc_text(t: Seq<char>) -> Seq<u8> {
    enc_u32(encode_utf8(t).len() as u32) + encode_utf8(t)
}

/// Reads a text.
pub open spec fn dec_text(b: Seq<u8>) -> Decoded<Seq<char>> {
    match dec_u32(b) {
        Some((n, rest)) => if rest.len() >= n && valid_utf8(rest.take(n as int)) {
            Some((decode_utf8(rest.take(n as int)), rest.skip(n as int)))
        } else {
            None
        },
        None => None,
    }
}

impl CommandView {
    /// Every list and text of the command is short enough for its length
    /// to fit in four bytes.
    pub open spec fn encodable(self) -> bool {
        match self {
            CommandView::G4D { position, valves, extrusion } => valves.len() <= u32::MAX,
            CommandView::G4C { color, material_channel, mixing_ratios } => match mixing_ratios {
                Some(rs) => rs.len() <= u32::MAX,
                None => true,
            },
            CommandView::Comment(t) => encode_utf8(t).len() <= u32::MAX,
            _ => true,
        }
    }

    /// The binary encoding of the command.
    pub open spec fn encoding(self) -> Seq<u8> {
        match self {
            CommandView::G4D { position, valves, extrusion } => seq![0u8] + enc_i64(position.x)
                + enc_i64(position.y) + enc_i64(position.z) + enc_valves(valves) + enc_opt_i64(
                extrusion,
            ),
            CommandView::G4L(c) => seq![1u8] + enc_i64(c.z_height) + enc_opt_i64(c.feed_rate),
            CommandView::G4C { color, material_channel, mixing_ratios } => seq![2u8]
                + enc_opt_color(color) + enc_opt_u8(material_channel) + enc_opt_ratios(
                mixing_ratios,
            ),
            CommandView::G4S(c) => seq![3u8] + enc_i64(c.speed_percentage) + enc_opt_u8(
                c.material_channel,
            ),
            CommandView::G4H(c) => seq![4u8] + enc_i64(c.temperature) + enc_opt_u8(c.zone)
                + enc_bool(c.wait),
            CommandView::G4W(c) => seq![5u8] + enc_wait_type(c.wait_type) + enc_opt_u32(
                c.timeout_ms,
            ),
            CommandView::G4P(c) => seq![6u8] + enc_i64(c.pressure) + enc_opt_u8(
                c.material_channel,
            ),
            CommandView::Comment(t) => seq![7u8] + enc_text(t),
        }
    }
}

/// Reads a deposit command, after its tag.
pub open spec fn dec_g4d(b: Seq<u8>) -> Decoded<CommandView> {
    match dec_i64(b) {
        Some((x, b1)) => match dec_i64(b1) {
            Some((y, b2)) => match dec_i64(b2) {
                Some((z, b3)) => match dec_valves(b3) {
                    Some((valves, b4)) => match dec_opt_i64(b4) {
                        Some((extrusion, b5)) => Some(
                            (
                                CommandView::G4D {
                                    position: Coordinate { x, y, z },
                                    valves,
                                    extrusion,
                                },
                                b5,
                            ),
                        ),
                        None => None,
                    },
                    None => None,
                },
                None => None,
            },
            None => None,
        },
        None => None,
    }
}

/// Reads a colour and material command, after its tag.
pub open spec fn dec_g4c(b: Seq<u8>) -> Decoded<CommandView> {
    match dec_opt_color(b) {
        Some((color, b1)) => match dec_opt_u8(b1) {
            Some((material_channel, b2)) => match dec_opt_ratios(b2) {
                Some((mixing_ratios, b3)) => Some(
                    (CommandView::G4C { color, material_channel, mixing_ratios }, b3),
                ),
                None => None,
            },
            None => None,
        },
        None => None,
    }
}

/// Reads a quantity and an optional byte: the fields of a flow command
/// and of a pressure command.
pub open spec fn dec_quantity_channel(b: Seq<u8>) -> Decoded<(i64, Option<u8>)> {
    match dec_i64(b) {
        Some((v, b1)) => match dec_opt_u8(b1) {
            Some((channel, b2)) => Some(((v, channel), b2)),
            None => None,
        },
        None => None,
    }
}

/// Reads a command of any kind.
pub open spec fn dec_command(b: Seq<u8>) -> Decoded<CommandView> {
    match dec_u8(b) {
        Some((tag, rest)) => if tag == 0 {
            dec_g4d(rest)
        } else if tag == 1 {
            match dec_i64(rest) {
                Some((z_height, b1)) => match dec_opt_i64(b1) {
                    Some((feed_rate, b2)) => Some(
                        (CommandView::G4L(G4LCommand { z_height, feed_rate }), b2),
                    ),
                    None => None,
                },
                None => None,
            }
        } else if tag == 2 {
            dec_g4c(rest)
        } else if tag == 3 {
            match dec_quantity_channel(rest) {
                Some(((speed_percentage, material_channel), b2)) => Some(
                    (CommandView::G4S(G4SCommand { speed_percentage, material_channel }), b2),
                ),
                None => None,
            }
        } else if tag == 4 {
            match dec_quantity_channel(rest) {
                Some(((temperature, zone), b2)) => match dec_bool(b2) {
                    Some((wait, b3)) => Some(
                        (CommandView::G4H(G4HCommand { temperature, zone, wait }), b3),
                    ),
                    None => None,
                },
                None => None,
            }
        } else if tag == 5 {
            match dec_wait_type(rest) {
                Some((wait_type, b1)) => match dec_opt_u32(b1) {
                    Some((timeout_ms, b2)) => Some(
                        (CommandView::G4W(G4WCommand { wait_type, timeout_ms }), b2),
                    ),
                    None => None,
                },
                None => None,
            }
        } else if tag == 6 {
            match dec_quantity_channel(rest) {
                Some(((pressure, material_channel), b2)) => Some(
                    (CommandView::G4P(G4PCommand { pressure, material_channel }), b2),
                ),
                None => None,
            }
        } else if tag == 7 {
            match dec_text(rest) {
                Some((t, b1)) => Some((CommandView::Comment(t), b1)),
                None => None,
            }
        } else {
            None
        },
        None => None,
    }
}

/// The command that a run of bytes encodes, if it encodes one and nothing
/// follows it.
pub open spec fn spec_from_bytes(b: Seq<u8>) -> Option<CommandView> {
    match dec_command(b) {
        Some((c, rest)) => if rest.len() == 0 {
            Some(c)
        } else {
            None
        },
        None => None,
    }
}

/// A list of valve states that was written is read back.
pub proof fn lemma_valves_round_trip(vs: Seq<ValveState>, rest: Seq<u8>)
    requires
        vs.len() <= u32::MAX,
    ensures
        dec_valves(enc_valves(vs) + rest) == Some((vs, rest)),
{
    reveal(enc_valves);
    let n = vs.len() as u32;
    let body = enc_valves(vs).skip(4);
    let tail = body + rest;
    lemma_u32_round_trip(n, tail);
    assert(enc_valves(vs) + rest =~= enc_u32(n) + tail);
    assert(body.len() == 2 * n);
    assert forall|i: int| 0 <= i < n implies #[trigger] tail[2 * i + 1] <= 1 by {
        assert(tail[2 * i + 1] == body[2 * i + 1]);
    }
    assert(valves_at(tail, n as int) =~= vs) by {
        assert forall|i: int| 0 <= i < n implies valves_at(tail, n as int)[i] == vs[i] by {
            assert(tail[2 * i] == body[2 * i]);
            assert(tail[2 * i + 1] == body[2 * i + 1]);
        }
    }
    assert(tail.skip(2 * n) =~= rest);
}

/// The eight bytes of a quantity stand for that quantity.
pub proof fn lemma_i64_bytes(v: i64)
    ensures
        enc_i64(v).len() == 8,
        le_i64(enc_i64(v)) == v,
{
    lemma_i64_round_trip(v, Seq::empty());
    assert(enc_i64(v) + Seq::<u8>::empty() =~= enc_i64(v));
}

/// Where the bytes of entry `i` of a list of mixing ratios stand.
proof fn lemma_ratio_slot(rs: Seq<(u8, i64)>, i: int, k: int)
    requires
        0 <= i < rs.len(),
        0 <= k < 9,
    ensures
        enc_ratios(rs).len() == 4 + 9 * rs.len(),
        enc_ratios(rs)[4 + 9 * i + k] == if k == 0 {
            rs[i].0
        } else {
            enc_i64(rs[i].1)[k - 1]
        },
{
    reveal(enc_ratios);
    let j = 9 * i + k;
    assert(j % 9 == k && j / 9 == i);
    lemma_u32_round_trip(rs.len() as u32, Seq::empty());
}

/// A list of mixing ratios that was written is read back.
pub proof fn lemma_ratios_round_trip(rs: Seq<(u8, i64)>, rest: Seq<u8>)
    requires
        rs.len() <= u32::MAX,
    ensures
        dec_ratios(enc_ratios(rs) + rest) == Some((rs, rest)),
{
    let n = rs.len() as u32;
    let whole = enc_ratios(rs) + rest;
    lemma_u32_round_trip(n, Seq::empty());
    assert(enc_ratios(rs).len() == 4 + 9 * n) by {
        reveal(enc_ratios);
    }
    assert(enc_ratios(rs).take(4) =~= enc_u32(n)) by {
        reveal(enc_ratios);
    }
    let tail = whole.skip(4);
    assert(whole =~= enc_u32(n) + tail);
    lemma_u32_round_trip(n, tail);
    let got = ratios_at(tail, n as int);
    assert forall|i: int| 0 <= i < n implies got[i] == rs[i] by {
        lemma_i64_bytes(rs[i].1);
        lemma_ratio_slot(rs, i, 0);
        assert(tail[9 * i] == enc_ratios(rs)[4 + 9 * i + 0]);
        let window = tail.subrange(9 * i + 1, 9 * i + 9);
        assert forall|k: int| 0 <= k < 8 implies window[k] == enc_i64(rs[i].1)[k] by {
            lemma_ratio_slot(rs, i, k + 1);
            assert(window[k] == enc_ratios(rs)[4 + 9 * i + (k + 1)]);
        }
        assert(window =~= enc_i64(rs[i].1));
    }
    assert(got =~= rs);
    assert(tail.skip(9 * n) =~= rest);
}

/// An optional list of mixing ratios that was written is read back.
pub proof fn lemma_opt_ratios_round_trip(v: Option<Seq<(u8, i64)>>, rest: Seq<u8>)
    requires
        v is Some ==> v->Some_0.len() <= u32::MAX,
    ensures
        dec_opt_ratios(enc_opt_ratios(v) + rest) == Some((v, rest)),
{
    let b = enc_opt_ratios(v) + rest;
    match v {
        Some(rs) => {
            assert(b.skip(1) =~= enc_ratios(rs) + rest);
            lemma_ratios_round_trip(rs, rest);
        },
        None => {
            assert(b.skip(1) =~= rest);
        },
    }
}

/// An optional colour that was written is read back.
pub proof fn lemma_opt_color_round_trip(v: Option<Color>, rest: Seq<u8>)
    ensures
        dec_opt_color(enc_opt_color(v) + rest) == Some((v, rest)),
{
    let b = enc_opt_color(v) + rest;
    match v {
        Some(c) => {
            assert(b.skip(1) =~= seq![c.r, c.g, c.b] + rest);
            assert(b.skip(1).skip(3) =~= rest);
        },
        None => {
            assert(b.skip(1) =~= rest);
        },
    }
}

/// What a barrier waits for is read back as it was written.
pub proof fn lemma_wait_type_round_trip(w: WaitType, rest: Seq<u8>)
    ensures
        dec_wait_type(enc_wait_type(w) + rest) == Some((w, rest)),
{
    let b = enc_wait_type(w) + rest;
    match w {
        WaitType::Duration(ms) => {
            assert(b.skip(1) =~= enc_u32(ms) + rest);
            lemma_u32_round_trip(ms, rest);
        },
        _ => {
            assert(b.skip(1) =~= rest);
        },
    }
}

/// A text that was written is read back.
pub proof fn lemma_text_round_trip(t: Seq<char>, rest: Seq<u8>)
    requires
        encode_utf8(t).len() <= u32::MAX,
    ensures
        dec_text(enc_text(t) + rest) == Some((t, rest)),
{
    broadcast use vstd::utf8::encode_utf8_valid_utf8, vstd::utf8::encode_utf8_decode_utf8;

    let body = encode_utf8(t);
    let n = body.len() as u32;
    let tail = body + rest;
    lemma_u32_round_trip(n, tail);
    assert(enc_text(t) + rest =~= enc_u32(n) + tail);
    assert(tail.take(n as int) =~= body);
    assert(tail.skip(n as int) =~= rest);
}

/// A truth value that was written is read back.
pub proof fn lemma_bool_round_trip(v: bool, rest: Seq<u8>)
    ensures
        dec_bool(enc_bool(v) + rest) == Some((v, rest)),
{
    assert((enc_bool(v) + rest).skip(1) =~= rest);
}

/// A quantity followed by an optional byte is read back as it was written.
pub proof fn lemma_quantity_channel_round_trip(v: i64, channel: Option<u8>, rest: Seq<u8>)
    ensures
        dec_quantity_channel(enc_i64(v) + enc_opt_u8(channel) + rest) == Some(
            ((v, channel), rest),
        ),
{
    assert(enc_i64(v) + enc_opt_u8(channel) + rest =~= enc_i64(v) + (enc_opt_u8(channel) + rest));
    lemma_i64_round_trip(v, enc_opt_u8(channel) + rest);
    lemma_opt_u8_round_trip(channel, rest);
}

proof fn lemma_g4d_round_trip(
    position: Coordinate,
    valves: Seq<ValveState>,
    extrusion: Option<i64>,
    rest: Seq<u8>,
)
    requires
        valves.len() <= u32::MAX,
    ensures
        dec_g4d(
            enc_i64(position.x) + enc_i64(position.y) + enc_i64(position.z) + enc_valves(valves)
                + enc_opt_i64(extrusion) + rest,
        ) == Some((CommandView::G4D { position, valves, extrusion }, rest)),
{
    let f5 = enc_opt_i64(extrusion) + rest;
    let f4 = enc_valves(valves) + f5;
    let f3 = enc_i64(position.z) + f4;
    let f2 = enc_i64(position.y) + f3;
    assert(enc_i64(position.x) + enc_i64(position.y) + enc_i64(position.z) + enc_valves(valves)
        + enc_opt_i64(extrusion) + rest =~= enc_i64(position.x) + f2);
    lemma_i64_round_trip(position.x, f2);
    lemma_i64_round_trip(position.y, f3);
    lemma_i64_round_trip(position.z, f4);
    lemma_valves_round_trip(valves, f5);
    lemma_opt_i64_round_trip(extrusion, rest);
}

proof fn lemma_g4c_round_trip(
    color: Option<Color>,
    material_channel: Option<u8>,
    mixing_ratios: Option<Seq<(u8, i64)>>,
    rest: Seq<u8>,
)
    requires
        mixing_ratios is Some ==> mixing_ratios->Some_0.len() <= u32::MAX,
    ensures
        dec_g4c(
            enc_opt_color(color) + enc_opt_u8(material_channel) + enc_opt_ratios(mixing_ratios)
                + rest,
        ) == Some((CommandView::G4C { color, material_channel, mixing_ratios }, rest)),
{
    let f3 = enc_opt_ratios(mixing_ratios) + rest;
    let f2 = enc_opt_u8(material_channel) + f3;
    assert(enc_opt_color(color) + enc_opt_u8(material_channel) + enc_opt_ratios(mixing_ratios)
        + rest =~= enc_opt_color(color) + f2);
    lemma_opt_color_round_trip(color, f2);
    lemma_opt_u8_round_trip(material_channel, f3);
    lemma_opt_ratios_round_trip(mixing_ratios, rest);
}

proof fn lemma_tag(tag: u8, body: Seq<u8>)
    ensures
        dec_u8(seq![tag] + body) == Some((tag, body)),
{
    assert((seq![tag] + body).skip(1) =~= body);
}

proof fn lemma_g4d_command(position: Coordinate, valves: Seq<ValveState>, extrusion: Option<i64>, rest: Seq<u8>)
    requires
        valves.len() <= u32::MAX,
    ensures
        dec_command((CommandView::G4D { position, valves, extrusion }).encoding() + rest) == Some((CommandView::G4D { position, valves, extrusion }, rest)),
{
    let c = CommandView::G4D { position, valves, extrusion };
    let body = enc_i64(position.x) + enc_i64(position.y) + enc_i64(position.z) + enc_valves(valves)
        + enc_opt_i64(extrusion) + rest;
    assert(c.encoding() + rest =~= seq![0u8] + body);
    lemma_tag(0, body);
    lemma_g4d_round_trip(position, valves, extrusion, rest);
}

proof fn lemma_g4l_command(l: G4LCommand, rest: Seq<u8>)
    ensures
        dec_command((CommandView::G4L(l)).encoding() + rest) == Some((CommandView::G4L(l), rest)),
{
    let c = CommandView::G4L(l);
    let f2 = enc_opt_i64(l.feed_rate) + rest;
    let body = enc_i64(l.z_height) + f2;
    assert(c.encoding() + rest =~= seq![1u8] + body);
    lemma_tag(1, body);
    lemma_i64_round_trip(l.z_height, f2);
    lemma_opt_i64_round_trip(l.feed_rate, rest);
}

proof fn lemma_g4c_command(color: Option<Color>, material_channel: Option<u8>, mixing_ratios: Option<Seq<(u8, i64)>>, rest: Seq<u8>)
    requires
        mixing_ratios is Some ==> mixing_ratios->Some_0.len() <= u32::MAX,
    ensures
        dec_command((CommandView::G4C { color, material_channel, mixing_ratios }).encoding() + rest) == Some((CommandView::G4C { color, material_channel, mixing_ratios }, rest)),
{
    let c = CommandView::G4C { color, material_channel, mixing_ratios };
    let body = enc_opt_color(color) + enc_opt_u8(material_channel) + enc_opt_ratios(mixing_ratios)
        + rest;
    assert(c.encoding() + rest =~= seq![2u8] + body);
    lemma_tag(2, body);
    lemma_g4c_round_trip(color, material_channel, mixing_ratios, rest);
}

proof fn lemma_g4s_command(x: G4SCommand, rest: Seq<u8>)
    ensures
        dec_command((CommandView::G4S(x)).encoding() + rest) == Some((CommandView::G4S(x), rest)),
{
    let c = CommandView::G4S(x);
    let body = enc_i64(x.speed_percentage) + enc_opt_u8(x.material_channel) + rest;
    assert(c.encoding() + rest =~= seq![3u8] + body);
    lemma_tag(3, body);
    lemma_quantity_channel_round_trip(x.speed_percentage, x.material_channel, rest);
}

proof fn lemma_g4h_command(h: G4HCommand, rest: Seq<u8>)
    ensures
        dec_command((CommandView::G4H(h)).encoding() + rest) == Some((CommandView::G4H(h), rest)),
{
    let c = CommandView::G4H(h);
    let f3 = enc_bool(h.wait) + rest;
    let body = enc_i64(h.temperature) + enc_opt_u8(h.zone) + f3;
    assert(c.encoding() + rest =~= seq![4u8] + body);
    lemma_tag(4, body);
    lemma_quantity_channel_round_trip(h.temperature, h.zone, f3);
    lemma_bool_round_trip(h.wait, rest);
}

proof fn lemma_g4w_command(w: G4WCommand, rest: Seq<u8>)
    ensures
        dec_command((CommandView::G4W(w)).encoding() + rest) == Some((CommandView::G4W(w), rest)),
{
    let c = CommandView::G4W(w);
    let f2 = enc_opt_u32(w.timeout_ms) + rest;
    let body = enc_wait_type(w.wait_type) + f2;
    assert(c.encoding() + rest =~= seq![5u8] + body);
    lemma_tag(5, body);
    lemma_wait_type_round_trip(w.wait_type, f2);
    lemma_opt_u32_round_trip(w.timeout_ms, rest);
}

proof fn lemma_g4p_command(x: G4PCommand, rest: Seq<u8>)
    ensures
        dec_command((CommandView::G4P(x)).encoding() + rest) == Some((CommandView::G4P(x), rest)),
{
    let c = CommandView::G4P(x);
    let body = enc_i64(x.pressure) + enc_opt_u8(x.material_channel) + rest;
    assert(c.encoding() + rest =~= seq![6u8] + body);
    lemma_tag(6, body);
    lemma_quantity_channel_round_trip(x.pressure, x.material_channel, rest);
}

proof fn lemma_comment_command(t: Seq<char>, rest: Seq<u8>)
    requires
        encode_utf8(t).len() <= u32::MAX,
    ensures
        dec_command((CommandView::Comment(t)).encoding() + rest) == Some((CommandView::Comment(t), rest)),
{
    let c = CommandView::Comment(t);
    let body = enc_text(t) + rest;
    assert(c.encoding() + rest =~= seq![7u8] + body);
    lemma_tag(7, body);
    lemma_text_round_trip(t, rest);
}

/// Decoding inverts encoding: the bytes of a command, whatever follows
/// them, decode to that command and leave what follows.
pub proof fn lemma_command_round_trip(c: CommandView, rest: Seq<u8>)
    requires
        c.encodable(),
    ensures
        dec_command(c.encoding() + rest) == Some((c, rest)),
{
    match c {
        CommandView::G4D { position, valves, extrusion } => {
            lemma_g4d_command(position, valves, extrusion, rest);
        },
        CommandView::G4L(l) => {
            lemma_g4l_command(l, rest);
        },
        CommandView::G4C { color, material_channel, mixing_ratios } => {
            lemma_g4c_command(color, material_channel, mixing_ratios, rest);
        },
        CommandView::G4S(x) => {
            lemma_g4s_command(x, rest);
        },
        CommandView::G4H(h) => {
            lemma_g4h_command(h, rest);
        },
        CommandView::G4W(w) => {
            lemma_g4w_command(w, rest);
        },
        CommandView::G4P(x) => {
            lemma_g4p_command(x, rest);
        },
        CommandView::Comment(t) => {
            lemma_comment_command(t, rest);
        },
    }
}

/// Every command that can be encoded is decoded from its encoding:
/// `decode(encode(c)) == c`, for every variant.
pub proof fn lemma_decode_encode(c: CommandView)
    requires
        c.encodable(),
    ensures
        spec_from_bytes(c.encoding()) == Some(c),
{
    lemma_command_round_trip(c, Seq::empty());
    assert(c.encoding() + Seq::<u8>::empty() =~= c.encoding());
}

/// `std::str::from_utf8` of the standard library: the text of a run of
/// bytes that is valid UTF-8, and nothing for any other run.
#[verifier::external_body]
pub(crate) fn text_of_utf8(bytes: &[u8]) -> (r: Option<String>)
    ensures
        match r {
            Some(s) => valid_utf8(bytes@) && s@ == decode_utf8(bytes@),
            None => !valid_utf8(bytes@),
        },
{
    match std::str::from_utf8(bytes) {
        Ok(s) => Some(s.to_owned()),
        Err(_) => None,
    }
}

pub(crate) fn push_bytes(out: &mut Vec<u8>, bytes: &[u8])
    ensures
        final(out)@ == old(out)@ + bytes@,
{
    let mut i: usize = 0;
    while i < bytes.len()
        invariant
            i <= bytes@.len(),
            out@ == old(out)@ + bytes@.take(i as int),
        decreases bytes@.len() - i,
    {
        out.push(bytes[i]);
        assert(out@ =~= old(out)@ + bytes@.take(i as int + 1));
        i = i + 1;
    }
    assert(bytes@.take(i as int) =~= bytes@);
}

pub(crate) fn push_valves(out: &mut Vec<u8>, valves: &Vec<ValveState>)
    requires
        valves@.len() <= u32::MAX,
    ensures
        final(out)@ == old(out)@ + enc_valves(valves@),
{
    put_u32(out, valves.len() as u32);
    let ghost head = out@;
    let ghost body = enc_valves(valves@).skip(4);
    proof {
        reveal(enc_valves);
        lemma_u32_round_trip(valves@.len() as u32, Seq::empty());
        assert(enc_valves(valves@) =~= enc_u32(valves@.len() as u32) + body);
    }
    let mut i: usize = 0;
    while i < valves.len()
        invariant
            i <= valves@.len(),
            body.len() == 2 * valves@.len(),
            body == enc_valves(valves@).skip(4),
            enc_u32(valves@.len() as u32).len() == 4,
            out@ == head + body.take(2 * i as int),
        decreases valves@.len() - i,
    {
        let v = valves[i];
        out.push(v.index);
        out.push(if v.open { 1u8 } else { 0u8 });
        proof {
            reveal(enc_valves);
            let j0 = 2 * i as int;
            assert(j0 % 2 == 0 && j0 / 2 == i as int);
            assert((j0 + 1) % 2 == 1 && (j0 + 1) / 2 == i as int);
            assert(body[j0] == v.index);
            assert(body[j0 + 1] == if v.open { 1u8 } else { 0u8 });
            assert(out@ =~= head + body.take(2 * (i as int + 1)));
        }
        i = i + 1;
    }
    assert(body.take(2 * i as int) =~= body);
    assert(out@ =~= old(out)@ + enc_valves(valves@));
}

fn push_ratios(out: &mut Vec<u8>, ratios: &Vec<(u8, i64)>)
    requires
        ratios@.len() <= u32::MAX,
    ensures
        final(out)@ == old(out)@ + enc_ratios(ratios@),
{
    put_u32(out, ratios.len() as u32);
    let ghost head = out@;
    let ghost body = enc_ratios(ratios@).skip(4);
    proof {
        reveal(enc_ratios);
        lemma_u32_round_trip(ratios@.len() as u32, Seq::empty());
        assert(enc_ratios(ratios@) =~= enc_u32(ratios@.len() as u32) + body);
    }
    let mut i: usize = 0;
    while i < ratios.len()
        invariant
            i <= ratios@.len(),
            body.len() == 9 * ratios@.len(),
            body == enc_ratios(ratios@).skip(4),
            out@ == head + body.take(9 * i as int),
        decreases ratios@.len() - i,
    {
        let r = ratios[i];
        let ghost before = out@;
        out.push(r.0);
        push_i64(out, r.1);
        proof {
            lemma_i64_bytes(r.1);
            assert(out@ =~= before + (seq![r.0] + enc_i64(r.1)));
            assert(body.subrange(9 * i as int, 9 * i as int + 9) =~= seq![r.0] + enc_i64(r.1)) by {
                assert forall|k: int| 0 <= k < 9 implies body.subrange(
                    9 * i as int,
                    9 * i as int + 9,
                )[k] == (seq![r.0] + enc_i64(r.1))[k] by {
                    lemma_ratio_slot(ratios@, i as int, k);
                }
            }
            assert(body.take(9 * (i as int + 1)) =~= body.take(9 * i as int) + body.subrange(
                9 * i as int,
                9 * i as int + 9,
            ));
        }
        i = i + 1;
    }
    assert(body.take(9 * i as int) =~= body);
    assert(out@ =~= old(out)@ + enc_ratios(ratios@));
}

pub(crate) fn push_wait_type(out: &mut Vec<u8>, w: WaitType)
    ensures
        final(out)@ == old(out)@ + enc_wait_type(w),
{
    match w {
        WaitType::Valves => {
            out.push(0u8);
        },
        WaitType::Pressure => {
            out.push(1u8);
        },
        WaitType::Temperature => {
            out.push(2u8);
        },
        WaitType::Duration(ms) => {
            out.push(3u8);
            put_u32(out, ms);
        },
    }
    assert(out@ =~= old(out)@ + enc_wait_type(w));
}

fn push_opt_color(out: &mut Vec<u8>, c: Option<Color>)
    ensures
        final(out)@ == old(out)@ + enc_opt_color(c),
{
    match c {
        Some(c) => {
            out.push(1u8);
            out.push(c.r);
            out.push(c.g);
            out.push(c.b);
        },
        None => {
            out.push(0u8);
        },
    }
    assert(out@ =~= old(out)@ + enc_opt_color(c));
}

fn too_long() -> (e: CommandError)
    ensures
        e matches CommandError::SerializationError(m) && m@ == "length exceeds four bytes"@,
{
    CommandError::SerializationError(String::from_str("length exceeds four bytes"))
}

fn malformed() -> (e: CommandError)
    ensures
        e matches CommandError::DeserializationError(m) && m@ == "malformed command"@,
{
    CommandError::DeserializationError(String::from_str("malformed command"))
}

impl Command {
    /// Encodes the command. The encoding fails only for a list or a text
    /// whose length does not fit in four bytes.
    pub fn to_bytes(&self) -> (r: Result<Vec<u8>, CommandError>)
        ensures
            self@.encodable() ==> r is Ok && r->Ok_0@ == self@.encoding(),
            !self@.encodable() ==> (r matches Err(CommandError::SerializationError(m)) && m@
                == "length exceeds four bytes"@),
    {
        let mut out: Vec<u8> = Vec::new();
        match self {
            Command::G4D(c) => {
                if c.valves.len() > u32::MAX as usize {
                    return Err(too_long());
                }
                out.push(0u8);
                push_i64(&mut out, c.position.x);
                push_i64(&mut out, c.position.y);
                push_i64(&mut out, c.position.z);
                push_valves(&mut out, &c.valves);
                push_opt_i64(&mut out, c.extrusion);
            },
            Command::G4L(c) => {
                out.push(1u8);
                push_i64(&mut out, c.z_height);
                push_opt_i64(&mut out, c.feed_rate);
            },
            Command::G4C(c) => {
                out.push(2u8);
                push_opt_color(&mut out, c.color);
                push_opt_u8(&mut out, c.material_channel);
                match &c.mixing_ratios {
                    Some(rs) => {
                        if rs.len() > u32::MAX as usize {
                            return Err(too_long());
                        }
                        out.push(1u8);
                        push_ratios(&mut out, rs);
                        assert(out@ =~= seq![2u8] + enc_opt_color(c.color) + enc_opt_u8(
                            c.material_channel,
                        ) + enc_opt_ratios(Some(rs@)));
                    },
                    None => {
                        out.push(0u8);
                    },
                }
            },
            Command::G4S(c) => {
                out.push(3u8);
                push_i64(&mut out, c.speed_percentage);
                push_opt_u8(&mut out, c.material_channel);
            },
            Command::G4H(c) => {
                out.push(4u8);
                push_i64(&mut out, c.temperature);
                push_opt_u8(&mut out, c.zone);
                push_bool(&mut out, c.wait);
            },
            Command::G4W(c) => {
                out.push(5u8);
                push_wait_type(&mut out, c.wait_type);
                push_opt_u32(&mut out, c.timeout_ms);
            },
            Command::G4P(c) => {
                out.push(6u8);
                push_i64(&mut out, c.pressure);
                push_opt_u8(&mut out, c.material_channel);
            },
            Command::Comment(t) => {
                let bytes = t.as_str().as_bytes();
                if bytes.len() > u32::MAX as usize {
                    return Err(too_long());
                }
                out.push(7u8);
                put_u32(&mut out, bytes.len() as u32);
                push_bytes(&mut out, bytes);
            },
        }
        assert(out@ =~= self@.encoding());
        Ok(out)
    }
}

pub(crate) fn read_valves(r: &mut Reader) -> (v: Option<Vec<ValveState>>)
    requires
        old(r).wf(),
    ensures
        final(r).wf(),
        match dec_valves(old(r).rest()) {
            Some((vs, rest)) => v is Some && v->Some_0@ == vs && final(r).rest() == rest,
            None => v.is_none(),
        },
{
    let n = match r.u32() {
        Some(n) => n,
        None => {
            return None;
        },
    };
    let ghost body = r.rest();
    if (r.remaining() as u64) < 2 * (n as u64) {
        return None;
    }
    let mut out: Vec<ValveState> = Vec::new();
    let mut i: u32 = 0;
    while i < n
        invariant
            i <= n,
            r.wf(),
            body.len() >= 2 * n,
            dec_u32(old(r).rest()) == Some((n, body)),
            r.rest() == body.skip(2 * i as int),
            out@ == valves_at(body, i as int),
            forall|j: int| 0 <= j < i ==> #[trigger] body[2 * j + 1] <= 1,
        decreases n - i,
    {
        let ghost here = r.rest();
        let index = match r.u8() {
            Some(b) => b,
            None => {
                return None;
            },
        };
        assert(index == body[2 * i as int]);
        assert(r.rest() =~= body.skip(2 * i as int + 1));
        let open = match r.bool() {
            Some(b) => b,
            None => {
                assert(body[2 * i as int + 1] > 1);
                return None;
            },
        };
        assert(body[2 * i as int + 1] <= 1 && open == (body[2 * i as int + 1] == 1));
        assert(r.rest() =~= body.skip(2 * (i as int + 1)));
        out.push(ValveState { index, open });
        assert(out@ =~= valves_at(body, i as int + 1));
        i = i + 1;
    }
    Some(out)
}

fn read_ratios(r: &mut Reader) -> (v: Option<Vec<(u8, i64)>>)
    requires
        old(r).wf(),
    ensures
        final(r).wf(),
        match dec_ratios(old(r).rest()) {
            Some((rs, rest)) => v is Some && v->Some_0@ == rs && final(r).rest() == rest,
            None => v.is_none(),
        },
{
    let n = match r.u32() {
        Some(n) => n,
        None => {
            return None;
        },
    };
    let ghost body = r.rest();
    if (r.remaining() as u64) < 9 * (n as u64) {
        return None;
    }
    let mut out: Vec<(u8, i64)> = Vec::new();
    let mut i: u32 = 0;
    while i < n
        invariant
            i <= n,
            r.wf(),
            body.len() >= 9 * n,
            r.rest() == body.skip(9 * i as int),
            out@ == ratios_at(body, i as int),
        decreases n - i,
    {
        let channel = match r.u8() {
            Some(b) => b,
            None => {
                return None;
            },
        };
        assert(channel == body[9 * i as int]);
        assert(r.rest() =~= body.skip(9 * i as int + 1));
        let ghost here = r.rest();
        let ratio = match r.i64() {
            Some(q) => q,
            None => {
                return None;
            },
        };
        proof {
            let window = body.subrange(9 * i as int + 1, 9 * i as int + 9);
            lemma_le_i64_prefix(here, window);
            assert(r.rest() =~= body.skip(9 * (i as int + 1)));
        }
        out.push((channel, ratio));
        assert(out@ =~= ratios_at(body, i as int + 1));
        i = i + 1;
    }
    Some(out)
}

/// The quantity that eight bytes stand for does not depend on what
/// follows them.
proof fn lemma_le_i64_prefix(b: Seq<u8>, window: Seq<u8>)
    requires
        b.len() >= 8,
        window =~= b.take(8),
    ensures
        le_i64(b) == le_i64(window),
{
    reveal(le_i64);
    assert(window.skip(4) =~= b.skip(4).take(4));
    assert(spec_le_u32(window) == spec_le_u32(b));
    assert(spec_le_u32(window.skip(4)) == spec_le_u32(b.skip(4)));
}

fn read_opt_ratios(r: &mut Reader) -> (v: Option<Option<Vec<(u8, i64)>>>)
    requires
        old(r).wf(),
    ensures
        final(r).wf(),
        match dec_opt_ratios(old(r).rest()) {
            Some((Some(rs), rest)) => v is Some && v->Some_0 is Some && v->Some_0->Some_0@ == rs
                && final(r).rest() == rest,
            Some((None, rest)) => v == Some(None::<Vec<(u8, i64)>>) && final(r).rest() == rest,
            None => v.is_none(),
        },
{
    match r.bool() {
        Some(true) => match read_ratios(r) {
            Some(rs) => Some(Some(rs)),
            None => None,
        },
        Some(false) => Some(None),
        None => None,
    }
}

fn read_opt_color(r: &mut Reader) -> (v: Option<Option<Color>>)
    requires
        old(r).wf(),
    ensures
        final(r).wf(),
        match dec_opt_color(old(r).rest()) {
            Some((c, rest)) => v == Some(c) && final(r).rest() == rest,
            None => v.is_none(),
        },
{
    match r.bool() {
        Some(true) => {
            let ghost here = r.rest();
            match r.take(3) {
                Some(w) => {
                    assert(w@[0] == here[0] && w@[1] == here[1] && w@[2] == here[2]);
                    Some(Some(Color { r: w[0], g: w[1], b: w[2] }))
                },
                None => None,
            }
        },
        Some(false) => Some(None),
        None => None,
    }
}

pub(crate) fn read_wait_type(r: &mut Reader) -> (v: Option<WaitType>)
    requires
        old(r).wf(),
    ensures
        final(r).wf(),
        match dec_wait_type(old(r).rest()) {
            Some((w, rest)) => v == Some(w) && final(r).rest() == rest,
            None => v.is_none(),
        },
{
    match r.u8() {
        Some(0) => Some(WaitType::Valves),
        Some(1) => Some(WaitType::Pressure),
        Some(2) => Some(WaitType::Temperature),
        Some(3) => match r.u32() {
            Some(ms) => Some(WaitType::Duration(ms)),
            None => None,
        },
        _ => None,
    }
}

fn read_text(r: &mut Reader) -> (v: Option<String>)
    requires
        old(r).wf(),
    ensures
        final(r).wf(),
        match dec_text(old(r).rest()) {
            Some((t, rest)) => v is Some && v->Some_0@ == t && final(r).rest() == rest,
            None => v.is_none(),
        },
{
    let n = match r.u32() {
        Some(n) => n,
        None => {
            return None;
        },
    };
    if (r.remaining() as u64) < n as u64 {
        return None;
    }
    match r.take(n as usize) {
        Some(w) => text_of_utf8(w),
        None => None,
    }
}

fn read_quantity_channel(r: &mut Reader) -> (v: Option<(i64, Option<u8>)>)
    requires
        old(r).wf(),
    ensures
        final(r).wf(),
        match dec_quantity_channel(old(r).rest()) {
            Some((q, rest)) => v == Some(q) && final(r).rest() == rest,
            None => v.is_none(),
        },
{
    let q = match r.i64() {
        Some(q) => q,
        None => {
            return None;
        },
    };
    match r.opt_u8() {
        Some(c) => Some((q, c)),
        None => None,
    }
}

fn read_g4d(r: &mut Reader) -> (v: Option<Command>)
    requires
        old(r).wf(),
    ensures
        final(r).wf(),
        match dec_g4d(old(r).rest()) {
            Some((c, rest)) => v is Some && v->Some_0@ == c && final(r).rest() == rest,
            None => v.is_none(),
        },
{
    let x = match r.i64() {
        Some(q) => q,
        None => {
            return None;
        },
    };
    let y = match r.i64() {
        Some(q) => q,
        None => {
            return None;
        },
    };
    let z = match r.i64() {
        Some(q) => q,
        None => {
            return None;
        },
    };
    let valves = match read_valves(r) {
        Some(v) => v,
        None => {
            return None;
        },
    };
    let extrusion = match r.opt_i64() {
        Some(e) => e,
        None => {
            return None;
        },
    };
    Some(Command::G4D(G4DCommand { position: Coordinate { x, y, z }, valves, extrusion }))
}

fn read_g4c(r: &mut Reader) -> (v: Option<Command>)
    requires
        old(r).wf(),
    ensures
        final(r).wf(),
        match dec_g4c(old(r).rest()) {
            Some((c, rest)) => v is Some && v->Some_0@ == c && final(r).rest() == rest,
            None => v.is_none(),
        },
{
    let color = match read_opt_color(r) {
        Some(c) => c,
        None => {
            return None;
        },
    };
    let material_channel = match r.opt_u8() {
        Some(c) => c,
        None => {
            return None;
        },
    };
    let mixing_ratios = match read_opt_ratios(r) {
        Some(m) => m,
        None => {
            return None;
        },
    };
    Some(Command::G4C(G4CCommand { color, material_channel, mixing_ratios }))
}

fn read_command(r: &mut Reader) -> (v: Option<Command>)
    requires
        old(r).wf(),
    ensures
        final(r).wf(),
        match dec_command(old(r).rest()) {
            Some((c, rest)) => v is Some && v->Some_0@ == c && final(r).rest() == rest,
            None => v.is_none(),
        },
{
    let tag = match r.u8() {
        Some(t) => t,
        None => {
            return None;
        },
    };
    if tag == 0 {
        read_g4d(r)
    } else if tag == 1 {
        let z_height = match r.i64() {
            Some(q) => q,
            None => {
                return None;
            },
        };
        match r.opt_i64() {
            Some(feed_rate) => Some(Command::G4L(G4LCommand { z_height, feed_rate })),
            None => None,
        }
    } else if tag == 2 {
        read_g4c(r)
    } else if tag == 3 {
        match read_quantity_channel(r) {
            Some((speed_percentage, material_channel)) => Some(
                Command::G4S(G4SCommand { speed_percentage, material_channel }),
            ),
            None => None,
        }
    } else if tag == 4 {
        let (temperature, zone) = match read_quantity_channel(r) {
            Some(q) => q,
            None => {
                return None;
            },
        };
        match r.bool() {
            Some(wait) => Some(Command::G4H(G4HCommand { temperature, zone, wait })),
            None => None,
        }
    } else if tag == 5 {
        let wait_type = match read_wait_type(r) {
            Some(w) => w,
            None => {
                return None;
            },
        };
        match r.opt_u32() {
            Some(timeout_ms) => Some(Command::G4W(G4WCommand { wait_type, timeout_ms })),
            None => None,
        }
    } else if tag == 6 {
        match read_quantity_channel(r) {
            Some((pressure, material_channel)) => Some(
                Command::G4P(G4PCommand { pressure, material_channel }),
            ),
            None => None,
        }
    } else if tag == 7 {
        match read_text(r) {
            Some(t) => Some(Command::Comment(t)),
            None => None,
        }
    } else {
        None
    }
}

impl Command {
    /// Decodes a command. The bytes must hold the encoding of one command
    /// and nothing after it.
    pub fn from_bytes(bytes: &[u8]) -> (r: Result<Command, CommandError>)
        ensures
            match spec_from_bytes(bytes@) {
                Some(c) => r is Ok && r->Ok_0@ == c,
                None => r matches Err(CommandError::DeserializationError(m)) && m@
                    == "malformed command"@,
            },
    {
        let mut reader = Reader::new(bytes);
        match read_command(&mut reader) {
            Some(c) => {
                if reader.at_end() {
                    Ok(c)
                } else {
                    Err(malformed())
                }
            },
            None => Err(malformed()),
        }
    }
}

/// A command that is encoded and decoded again is the command it was.
pub fn round_trip(c: &Command) -> (r: Option<Command>)
    ensures
        c@.encodable() ==> r is Some && r->Some_0@ == c@,
        !c@.encodable() ==> r.is_none(),
{
    match c.to_bytes() {
        Ok(bytes) => {
            proof {
                lemma_decode_encode(c@);
            }
            match Command::from_bytes(bytes.as_slice()) {
                Ok(d) => Some(d),
                Err(_) => None,
            }
        },
        Err(_) => None,
    }
}

} // verus!
