//! Decimal text of a rounded tempo.
use vstd::prelude::*;

use crate::estimator::{pow10, pow10_exec, rounded_scaled, Bpm};

verus! {

/// The character of a decimal digit below ten.
pub open spec fn digit_char(d: nat) -> char {
    if d < 10 {
        (('0' as nat) + d) as char
    } else {
        '?'
    }
}

/// The decimal digits of `v`, without leading zeros (`0` for zero).
pub open spec fn digits(v: nat) -> Seq<char>
    decreases v,
{
    if v < 10 {
        seq![digit_char(v)]
    } else {
        digits(v / 10).push(digit_char(v % 10))
    }
}

/// The last `width` decimal digits of `v`, zeros in front where `v` has
/// fewer.
pub open spec fn padded_digits(v: nat, width: nat) -> Seq<char>
    decreases width,
{
    if width == 0 {
        Seq::empty()
    } else {
        padded_digits(v / 10, (width - 1) as nat).push(digit_char(v % 10))
    }
}

/// The text of `v / 10^precision` with `precision` digits after the point,
/// and no point when there are none.
pub open spec fn fixed_text(v: nat, precision: nat) -> Seq<char> {
    if precision == 0 {
        digits(v)
    } else {
        digits(v / pow10(precision)) + seq!['.'] + padded_digits(
            v % pow10(precision),
            precision,
        )
    }
}

fn digit(d: u128) -> (c: char)
    requires
        d < 10,
    ensures
        c == digit_char(d as nat),
{
    let b = (d as u8) + 48u8;
    b as char
}

/// Appends the decimal digits of `v`.
fn push_digits(out: &mut Vec<char>, v: u128)
    ensures
        final(out)@ == old(out)@ + digits(v as nat),
    decreases v,
{
    if v >= 10 {
        push_digits(out, v / 10);
    }
    out.push(digit(v % 10));
    proof {
        if v >= 10 {
            assert(final(out)@ =~= old(out)@ + digits(v as nat));
        } else {
            assert(final(out)@ =~= old(out)@ + digits(v as nat));
        }
    }
}

/// Appends the last `width` decimal digits of `v`, zeros in front.
fn push_padded(out: &mut Vec<char>, v: u128, width: usize)
    ensures
        final(out)@ == old(out)@ + padded_digits(v as nat, width as nat),
    decreases width,
{
    if width > 0 {
        push_padded(out, v / 10, width - 1);
        out.push(digit(v % 10));
        assert(final(out)@ =~= old(out)@ + padded_digits(v as nat, width as nat));
    } else {
        assert(final(out)@ =~= old(out)@ + padded_digits(v as nat, width as nat));
    }
}

/// The text of `v / 10^precision` with `precision` digits after the point.
pub fn fixed_point_text(v: u128, precision: usize) -> (r: Vec<char>)
    requires
        precision <= crate::config::MAX_PRECISION,
    ensures
        r@ == fixed_text(v as nat, precision as nat),
{
    let mut out: Vec<char> = Vec::new();
    if precision == 0 {
        push_digits(&mut out, v);
        assert(out@ =~= fixed_text(v as nat, precision as nat));
    } else {
        let scale = pow10_exec(precision);
        push_digits(&mut out, v / scale);
        out.push('.');
        push_padded(&mut out, v % scale, precision);
        assert(out@ =~= fixed_text(v as nat, precision as nat));
    }
    out
}

impl Bpm {
    /// The tempo in beats per minute as decimal text with `precision` digits
    /// after the point, rounded half up: `"112.5"`, `"120"`.
    pub fn to_text(&self, precision: usize) -> (r: Vec<char>)
        requires
            self.elapsed_nanos > 0,
            precision <= crate::config::MAX_PRECISION,
        ensures
            r@ == fixed_text(
                rounded_scaled(
                    self.sample_count as nat,
                    self.elapsed_nanos as nat,
                    precision as nat,
                ),
                precision as nat,
            ),
    {
        let v = self.rounded(precision);
        fixed_point_text(v, precision)
    }
}

} // verus!
