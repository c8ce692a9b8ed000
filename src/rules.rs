//! What the two trapezoid rules decide: the order of an interval's bounds,
//! the acceptance of a step size, the neutralising of degenerate derivative
//! estimates, and the bounds of an adaptive step.

use vstd::prelude::*;
use crate::binary64::{Binary64, ZERO_BITS, clamp_spec, lemma_clamp_within, lemma_lt_asymmetric};

verus! {

/// Bit pattern of 1e-6: the spacing of the finite differences and the
/// smallest adaptive step.
pub const DELTA_BITS: u64 = 0x3eb0_c6f7_a0b5_ed8d;

/// Bit pattern of 1e-3: the largest adaptive step.
pub const MAX_STEP_BITS: u64 = 0x3f50_624d_d2f1_a9fc;

/// A fixed step size that is not greater than zero.
#[derive(Clone, Copy, Debug, PartialEq, Eq, Structural)]
pub struct InvalidStep;

pub open spec fn zero_spec() -> Binary64 {
    Binary64 { bits: ZERO_BITS }
}

pub open spec fn delta_spec() -> Binary64 {
    Binary64 { bits: DELTA_BITS }
}

pub open spec fn max_step_spec() -> Binary64 {
    Binary64 { bits: MAX_STEP_BITS }
}

/// Positive zero.
pub fn zero() -> (r: Binary64)
    ensures
        r == zero_spec(),
{
    Binary64 { bits: ZERO_BITS }
}

/// The finite-difference spacing, which is also the smallest adaptive step.
pub fn delta() -> (r: Binary64)
    ensures
        r == delta_spec(),
{
    Binary64 { bits: DELTA_BITS }
}

/// The largest adaptive step.
pub fn max_step() -> (r: Binary64)
    ensures
        r == max_step_spec(),
{
    Binary64 { bits: MAX_STEP_BITS }
}

/// The bounds in the order in which they are integrated: swapped where the
/// first is greater than the second, else as given.
pub open spec fn normalized(range: (Binary64, Binary64)) -> (Binary64, Binary64) {
    if range.1.lt_spec(range.0) {
        (range.1, range.0)
    } else {
        range
    }
}

/// Orders the bounds of an interval by swapping them, never by negating.
pub fn normalize(range: (Binary64, Binary64)) -> (r: (Binary64, Binary64))
    ensures
        r == normalized(range),
        !r.1.lt_spec(r.0),
        !range.0.is_nan_spec() && !range.1.is_nan_spec() ==> r.0.le_spec(r.1),
{
    proof {
        lemma_lt_asymmetric(range.1, range.0);
    }
    if range.1.lt(&range.0) {
        (range.1, range.0)
    } else {
        range
    }
}

/// An interval given high bound first is integrated exactly as the same
/// interval given low bound first.
pub proof fn lemma_normalize_order_independent(lo: Binary64, hi: Binary64)
    requires
        hi.lt_spec(lo),
    ensures
        normalized((lo, hi)) == normalized((hi, lo)),
{
    lemma_lt_asymmetric(hi, lo);
}

/// The adaptive sweep takes another step from `x` while the ordered
/// interval has nonzero length and `x` has not passed its upper bound.
pub open spec fn sweep_continues_spec(x: Binary64, range: (Binary64, Binary64)) -> bool {
    range.0.lt_spec(range.1) && x.le_spec(range.1)
}

/// Decides whether the adaptive sweep takes another step from `x` over the
/// ordered interval `range`.
pub fn sweep_continues(x: Binary64, range: (Binary64, Binary64)) -> (r: bool)
    ensures
        r == sweep_continues_spec(x, range),
{
    range.0.lt(&range.1) && x.le(&range.1)
}

/// Over an interval of zero length the adaptive sweep takes no step, from
/// any position, so its sum stays at zero.
pub proof fn lemma_zero_length_sweep_takes_no_step(lo: Binary64, hi: Binary64, x: Binary64)
    requires
        lo.le_spec(hi),
        hi.le_spec(lo),
    ensures
        !sweep_continues_spec(x, normalized((lo, hi))),
        !sweep_continues_spec(x, normalized((hi, lo))),
{
}

/// A fixed step size is acceptable where it is greater than zero; a NaN is
/// not.
pub open spec fn step_accepted(step: Binary64) -> bool {
    zero_spec().lt_spec(step)
}

/// Accepts a fixed step size that is greater than zero; rejects every other,
/// a NaN included.
pub fn check_step(step: Binary64) -> (r: Result<Binary64, InvalidStep>)
    ensures
        r == (if step_accepted(step) {
            Ok::<Binary64, InvalidStep>(step)
        } else {
            Err::<Binary64, InvalidStep>(InvalidStep)
        }),
{
    if zero().lt(&step) {
        Ok(step)
    } else {
        Err(InvalidStep)
    }
}

/// A step size that is zero or negative is always rejected.
pub proof fn lemma_nonpositive_step_rejected(step: Binary64)
    requires
        step.le_spec(zero_spec()),
    ensures
        !step_accepted(step),
{
}

/// Replaces a NaN estimate by positive zero and keeps any other value.
pub fn nan_to_zero(v: Binary64) -> (r: Binary64)
    ensures
        r == (if v.is_nan_spec() {
            zero_spec()
        } else {
            v
        }),
        !r.is_nan_spec(),
{
    if v.is_nan() {
        zero()
    } else {
        v
    }
}

/// The adaptive step that a raw quotient gives: clamped to
/// `[delta, max_step]`, with `delta` in place of a NaN.
pub open spec fn bounded_step_spec(q: Binary64) -> Binary64 {
    if q.is_nan_spec() {
        delta_spec()
    } else {
        clamp_spec(q, delta_spec(), max_step_spec())
    }
}

/// Restricts a raw step quotient to `[delta, max_step]`, falling back to
/// `delta` where the quotient is a NaN.
pub fn bound_step(q: Binary64) -> (r: Binary64)
    ensures
        r == bounded_step_spec(q),
        delta_spec().le_spec(r),
        r.le_spec(max_step_spec()),
        zero_spec().lt_spec(r),
        !r.is_nan_spec(),
{
    let lo = delta();
    let hi = max_step();
    assert(lo.le_spec(hi));
    let c = q.clamp(lo, hi);
    proof {
        if !q.is_nan_spec() {
            lemma_clamp_within(q, lo, hi);
        }
    }
    if c.is_nan() {
        lo
    } else {
        c
    }
}

} // verus!
