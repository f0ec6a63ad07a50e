//! The deterministic rounding policy of the stat engine.
//!
//! A raw value `x` stands for the rational `x / SCALE`. Conversion to an
//! integer truncates toward zero and then rounds up when the fractional
//! part is at least one half ("round half up"). Because fixed-point
//! arithmetic is exact, the half boundary is an exact comparison here.

use vstd::prelude::*;
use crate::limits::{SCALE, HALF_SCALE};

verus! {

/// Truncating division by a positive divisor (toward zero), the behaviour
/// of the executable `/` on signed integers.
pub open spec fn trunc_div(a: int, b: int) -> int {
    if a >= 0 {
        a / b
    } else {
        -((-a) / b)
    }
}

/// What `round` returns on the raw value `x`: the integer nearest to
/// `x / SCALE`, with fractional parts of exactly one half rounded up
/// (toward positive infinity) and everything below one half truncated
/// toward zero.
pub open spec fn round_cy(x: int) -> int {
    let q = trunc_div(x, SCALE as int);
    let f = x - q * SCALE;
    if 2 * f >= SCALE {
        q + 1
    } else {
        q
    }
}

/// Mathematical ceiling of `x / SCALE`.
pub open spec fn ceil_scale(x: int) -> int {
    if x % (SCALE as int) == 0 {
        x / (SCALE as int)
    } else {
        x / (SCALE as int) + 1
    }
}

/// Round a raw fixed-point value to the integer it displays as.
pub fn round_scaled(x: i128) -> (r: i128)
    ensures
        r == round_cy(x as int),
{
    if x >= 0 {
        let q = x / SCALE;
        let f = x % SCALE;
        if f >= HALF_SCALE {
            q + 1
        } else {
            q
        }
    } else {
        x / SCALE
    }
}

/// Ceiling of `x / SCALE`, as used by the equipment enhancement formula.
pub fn ceil_scaled(x: i128) -> (r: i128)
    ensures
        r == ceil_scale(x as int),
{
    if x >= 0 {
        let q = x / SCALE;
        let f = x % SCALE;
        if f == 0 {
            q
        } else {
            q + 1
        }
    } else {
        proof {
            vstd::arithmetic::div_mod::lemma_fundamental_div_mod(x as int, SCALE as int);
        }
        x / SCALE
    }
}

/// A bound on the input gives a bound on the rounded value.
pub proof fn lemma_round_cy_bound(x: int, b: int)
    requires
        0 <= b,
        -b <= x <= b,
    ensures
        -(b / (SCALE as int) + 1) <= round_cy(x) <= b / (SCALE as int) + 1,
{
    vstd::arithmetic::div_mod::lemma_fundamental_div_mod(x, SCALE as int);
    vstd::arithmetic::div_mod::lemma_fundamental_div_mod(-x, SCALE as int);
    if x >= 0 {
        vstd::arithmetic::div_mod::lemma_div_is_ordered(x, b, SCALE as int);
        vstd::arithmetic::div_mod::lemma_div_pos_is_pos(x, SCALE as int);
    } else {
        vstd::arithmetic::div_mod::lemma_div_is_ordered(-x, b, SCALE as int);
        vstd::arithmetic::div_mod::lemma_div_pos_is_pos(-x, SCALE as int);
    }
    vstd::arithmetic::div_mod::lemma_div_pos_is_pos(b, SCALE as int);
}

/// A bound on the input gives a bound on `SCALE` times the ceiling.
pub proof fn lemma_ceil_scale_bound(x: int, b: int)
    requires
        0 <= b,
        -b <= x <= b,
    ensures
        -(b + SCALE) <= SCALE * ceil_scale(x) <= b + SCALE,
{
    vstd::arithmetic::div_mod::lemma_fundamental_div_mod(x, SCALE as int);
}

/// The larger of two values under a partial order, biased toward the
/// second argument on ties.
pub fn partial_max(a: i128, b: i128) -> (r: i128)
    ensures
        r == if a > b { a as int } else { b as int },
{
    if a > b {
        a
    } else {
        b
    }
}

/// Conversion from a raw fixed-point value to its rounded integer form.
pub trait CyRound<T>: Sized {
    /// The value the conversion must return.
    spec fn cy_round_spec(self) -> T;

    /// Whether the conversion is allowed on this value.
    spec fn cy_round_wf(self) -> bool;

    fn cy_round(self) -> (r: T)
        requires
            self.cy_round_wf(),
        ensures
            r == self.cy_round_spec(),
    ;
}

impl CyRound<i128> for i128 {
    open spec fn cy_round_spec(self) -> i128 {
        round_cy(self as int) as i128
    }

    open spec fn cy_round_wf(self) -> bool {
        true
    }

    fn cy_round(self) -> (r: i128) {
        let r = round_scaled(self);
        assert(-(i128::MAX as int) <= round_cy(self as int) <= i128::MAX as int);
        r
    }
}

} // verus!
