//! Interpolation between fixed-point values.
use vstd::prelude::*;
use crate::fixed::{UNIT, clamped, div_toward_zero, magnitude, quotient, quotient_bounds, product_bounds};

verus! {

/// `current` moved toward `target` by `max_delta`, stopping at `target` where
/// it is no farther away than that.
pub open spec fn moved_towards(current: int, target: int, max_delta: int) -> int {
    if magnitude(target - current) <= max_delta {
        target
    } else if target > current {
        current + max_delta
    } else if target < current {
        current - max_delta
    } else {
        current
    }
}

/// The value that lies the fraction `by` of the way from `from` to `to`, with
/// `by` held between zero and `UNIT` (the whole way).
pub open spec fn lerped(from: int, to: int, by: int) -> int {
    from + quotient((to - from) * clamped(by, 0, UNIT as int), UNIT as int)
}

/// The fraction of the way from `a` to `b` at which `value` lies, held between
/// zero and `UNIT`; zero where `a` and `b` coincide.
pub open spec fn inverse_lerped(a: int, b: int, value: int) -> int {
    if a != b {
        clamped(quotient((value - a) * UNIT, b - a), 0, UNIT as int)
    } else {
        0
    }
}

/// With a step that is not negative, moving toward a target never passes it
/// and never moves away from it: the result lies between `current` and `target`.
pub proof fn moved_towards_stays_between(current: int, target: int, max_delta: int)
    requires
        max_delta >= 0,
    ensures
        current <= target ==> current <= moved_towards(current, target, max_delta) <= target,
        current >= target ==> target <= moved_towards(current, target, max_delta) <= current,
        magnitude(moved_towards(current, target, max_delta) - current) <= max_delta,
{
}

/// Interpolating stays between the two ends.
pub proof fn lerped_stays_between(from: int, to: int, by: int)
    ensures
        from <= to ==> from <= lerped(from, to, by) <= to,
        from >= to ==> to <= lerped(from, to, by) <= from,
{
    let t = clamped(by, 0, UNIT as int);
    let span = to - from;
    let part = quotient(span * t, UNIT as int);
    product_bounds(span, t, magnitude(span), UNIT as int);
    quotient_bounds(span * t, UNIT as int);
    assert(magnitude(UNIT as int) == 10_000);
    assert(magnitude(span * t) <= magnitude(span) * 10_000);
    assert(magnitude(span * t) / 10_000 <= magnitude(span));
    assert(magnitude(part) <= magnitude(span));
    assert(span >= 0 ==> span * t >= 0) by (nonlinear_arith)
        requires
            0 <= t,
    ;
    assert(span <= 0 ==> span * t <= 0) by (nonlinear_arith)
        requires
            0 <= t,
    ;
}

/// Moves `current` toward `target` by at most `max_delta`.
pub fn move_towards(current: i64, target: i64, max_delta: i64) -> (moved: i64)
    requires
        max_delta >= 0 || i64::MIN <= moved_towards(
            current as int,
            target as int,
            max_delta as int,
        ) <= i64::MAX,
    ensures
        moved == moved_towards(current as int, target as int, max_delta as int),
{
    let diff: i128 = target as i128 - current as i128;
    let distance: i128 = if diff < 0 { -diff } else { diff };
    if distance <= max_delta as i128 {
        target
    } else {
        proof {
            if max_delta >= 0 {
                moved_towards_stays_between(current as int, target as int, max_delta as int);
            }
        }
        let step: i128 = if diff < 0 {
            -(max_delta as i128)
        } else if diff > 0 {
            max_delta as i128
        } else {
            0
        };
        (current as i128 + step) as i64
    }
}

/// Interpolates from `from` to `to` by the fraction `by`.
pub fn lerp(from: i64, to: i64, by: i64) -> (value: i64)
    ensures
        value == lerped(from as int, to as int, by as int),
{
    let t: i64 = if by < 0 { 0 } else if by > UNIT { UNIT } else { by };
    let span: i128 = to as i128 - from as i128;
    proof {
        lerped_stays_between(from as int, to as int, by as int);
        product_bounds(span as int, t as int, 0x1_0000_0000_0000_0000, UNIT as int);
    }
    let part: i128 = div_toward_zero(span * (t as i128), UNIT as i128);
    (from as i128 + part) as i64
}

/// Finds the fraction of the way from `a` to `b` at which `value` lies.
pub fn inverse_lerp(a: i64, b: i64, value: i64) -> (fraction: i64)
    ensures
        fraction == inverse_lerped(a as int, b as int, value as int),
{
    if a != b {
        let offset: i128 = value as i128 - a as i128;
        let span: i128 = b as i128 - a as i128;
        proof {
            product_bounds(offset as int, UNIT as int, 0x1_0000_0000_0000_0000, UNIT as int);
        }
        let raw: i128 = div_toward_zero(offset * (UNIT as i128), span);
        if raw < 0 {
            0
        } else if raw > UNIT as i128 {
            UNIT
        } else {
            raw as i64
        }
    } else {
        0
    }
}

} // verus!
