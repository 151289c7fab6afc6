//! Fixed-point arithmetic on quantities held in thousandths of a unit.

use vstd::prelude::*;

verus! {

/// Distance between two integers, as a mathematical integer.
pub open spec fn spec_abs_diff(a: int, b: int) -> int {
    if a >= b {
        a - b
    } else {
        b - a
    }
}

/// `|current - target| < tolerance`, over mathematical integers.
pub open spec fn spec_within(current: int, target: int, tolerance: int) -> bool {
    spec_abs_diff(current, target) < tolerance
}

/// Distance between two fixed-point readings. The result always fits in a
/// `u64`, whatever the operands.
pub fn abs_diff(a: i64, b: i64) -> (d: u64)
    ensures
        d as int == spec_abs_diff(a as int, b as int),
{
    if a >= b {
        let wide: i128 = a as i128 - b as i128;
        wide as u64
    } else {
        let wide: i128 = b as i128 - a as i128;
        wide as u64
    }
}

/// Tells whether a reading lies strictly within `tolerance` of its target.
/// A tolerance of zero or less admits nothing.
pub fn within(current: i64, target: i64, tolerance: i64) -> (ok: bool)
    ensures
        ok == spec_within(current as int, target as int, tolerance as int),
{
    if tolerance <= 0 {
        false
    } else {
        abs_diff(current, target) < tolerance as u64
    }
}

/// The decimal digit `d` as a character, for `0 <= d <= 9`.
pub open spec fn spec_digit(d: int) -> char {
    ((48 + d) as u8) as char
}

/// Decimal text of a natural number, without leading zeros.
pub open spec fn spec_decimal(n: nat) -> Seq<char>
    decreases n,
{
    if n < 10 {
        seq![spec_digit(n as int)]
    } else {
        spec_decimal(n / 10).push(spec_digit((n % 10) as int))
    }
}

/// The sign that precedes a negative quantity.
pub open spec fn spec_sign(v: int) -> Seq<char> {
    if v < 0 {
        seq!['-']
    } else {
        Seq::empty()
    }
}

/// Text of a fixed-point quantity with all three decimals, as in `1.500` for
/// 1500 and `-0.040` for -40.
pub open spec fn spec_fixed3(v: int) -> Seq<char> {
    let m = spec_abs_diff(v, 0);
    spec_sign(v) + spec_decimal((m / 1000) as nat) + seq![
        '.',
        spec_digit((m / 100) % 10),
        spec_digit((m / 10) % 10),
        spec_digit(m % 10),
    ]
}

/// Text of a fixed-point quantity rounded to one decimal, halves away from
/// zero, as in `10.0` for 10000 and `0.1` for 50.
pub open spec fn spec_fixed1(v: int) -> Seq<char> {
    let r = (spec_abs_diff(v, 0) + 50) / 100;
    spec_sign(v) + spec_decimal((r / 10) as nat) + seq!['.', spec_digit(r % 10)]
}

/// `String::push` of the standard library: the character is appended to the
/// text and nothing else changes.
#[verifier::external_body]
pub(crate) fn push_char(out: &mut String, c: char)
    ensures
        final(out)@ == old(out)@.push(c),
{
    out.push(c);
}

fn digit(d: u8) -> (c: char)
    requires
        d <= 9,
    ensures
        c == spec_digit(d as int),
{
    (48u8 + d) as char
}

/// Appends the decimal text of `n`.
pub fn push_decimal(out: &mut String, n: u64)
    ensures
        final(out)@ == old(out)@ + spec_decimal(n as nat),
    decreases n,
{
    if n < 10 {
        push_char(out, digit(n as u8));
        assert(out@ =~= old(out)@ + spec_decimal(n as nat));
    } else {
        push_decimal(out, n / 10);
        push_char(out, digit((n % 10) as u8));
        assert(out@ =~= old(out)@ + spec_decimal(n as nat));
    }
}

fn push_sign(out: &mut String, v: i64)
    ensures
        final(out)@ == old(out)@ + spec_sign(v as int),
{
    if v < 0 {
        push_char(out, '-');
        assert(out@ =~= old(out)@ + spec_sign(v as int));
    } else {
        assert(out@ =~= old(out)@ + spec_sign(v as int));
    }
}

/// Appends a fixed-point quantity with all three decimals.
pub fn push_fixed3(out: &mut String, v: i64)
    ensures
        final(out)@ == old(out)@ + spec_fixed3(v as int),
{
    let m: u64 = abs_diff(v, 0);
    push_sign(out, v);
    push_decimal(out, m / 1000);
    push_char(out, '.');
    push_char(out, digit(((m / 100) % 10) as u8));
    push_char(out, digit(((m / 10) % 10) as u8));
    push_char(out, digit((m % 10) as u8));
    assert(out@ =~= old(out)@ + spec_fixed3(v as int));
}

/// Appends a fixed-point quantity rounded to one decimal.
pub fn push_fixed1(out: &mut String, v: i64)
    ensures
        final(out)@ == old(out)@ + spec_fixed1(v as int),
{
    let m: u64 = abs_diff(v, 0);
    let r: u64 = (m + 50) / 100;
    push_sign(out, v);
    push_decimal(out, r / 10);
    push_char(out, '.');
    push_char(out, digit((r % 10) as u8));
    assert(out@ =~= old(out)@ + spec_fixed1(v as int));
}

} // verus!
