//! Fixed-point scalars: every length, speed and time of the kernel is an `i64`
//! count of sub-units, `UNIT` of which make one world unit (or one second).
use vstd::prelude::*;

verus! {

/// Sub-units in one world unit, and ticks in one second.
pub const UNIT: i64 = 10_000;

/// Largest magnitude, in sub-units, that the kernel accepts for a coordinate, a
/// margin, a displacement, a speed or a time step. Sums and products of values
/// within it stay inside the machine integers the kernel computes with.
pub const LIMIT: i64 = 500_000_000;

/// Whether `v` lies within `LIMIT` on either side of zero.
pub open spec fn within_limit(v: int) -> bool {
    -LIMIT <= v <= LIMIT
}

/// The absolute value of `v`.
pub open spec fn magnitude(v: int) -> int {
    if v < 0 { -v } else { v }
}

/// The sign of `v`: -1, 0 or 1.
pub open spec fn sign_of(v: int) -> int {
    if v < 0 { -1 } else if v > 0 { 1 } else { 0 }
}

/// `n / d` rounded toward zero.
pub open spec fn quotient(n: int, d: int) -> int
    recommends
        d != 0,
{
    if n >= 0 && d > 0 {
        n / d
    } else if n >= 0 {
        -(n / (-d))
    } else if d > 0 {
        -((-n) / d)
    } else {
        (-n) / (-d)
    }
}

/// `v` held between `lo` and `hi`.
pub open spec fn clamped(v: int, lo: int, hi: int) -> int
    recommends
        lo <= hi,
{
    if v < lo { lo } else if v > hi { hi } else { v }
}

/// A point or a displacement of the plane, in sub-units.
#[derive(Clone, Copy, Debug, PartialEq, Eq, Structural)]
pub struct Vec2 {
    pub x: i64,
    pub y: i64,
}

impl Vec2 {
    /// Both coordinates lie within `LIMIT`.
    pub open spec fn within_limit(&self) -> bool {
        within_limit(self.x as int) && within_limit(self.y as int)
    }

    /// Tells whether both coordinates lie within `LIMIT`.
    pub fn is_within_limit(&self) -> (ok: bool)
        ensures
            ok == self.within_limit(),
    {
        -LIMIT <= self.x && self.x <= LIMIT && -LIMIT <= self.y && self.y <= LIMIT
    }
}

/// The quotient toward zero is as large as the quotient of the magnitudes, so
/// no larger than the numerator, and it has the sign of the fraction or is zero.
pub proof fn quotient_bounds(n: int, d: int)
    requires
        d != 0,
    ensures
        magnitude(quotient(n, d)) == magnitude(n) / magnitude(d),
        magnitude(quotient(n, d)) <= magnitude(n),
        (n >= 0) == (d > 0) ==> quotient(n, d) >= 0,
        (n <= 0) == (d > 0) ==> quotient(n, d) <= 0,
{
    vstd::arithmetic::div_mod::lemma_div_nonincreasing(magnitude(n), magnitude(d));
    vstd::arithmetic::div_mod::lemma_div_pos_is_pos(magnitude(n), magnitude(d));
}

/// The magnitude of a product is the product of the magnitudes, and grows
/// with the magnitudes of the factors.
pub proof fn product_bounds(a: int, b: int, a_bound: int, b_bound: int)
    by (nonlinear_arith)
    requires
        magnitude(a) <= a_bound,
        magnitude(b) <= b_bound,
    ensures
        magnitude(a * b) == magnitude(a) * magnitude(b),
        magnitude(a * b) <= a_bound * b_bound,
        (a * b < 0) == ((a < 0) != (b < 0) && a != 0 && b != 0),
{
}

/// A quotient toward zero grows with the magnitude of its numerator and is
/// largest where the divisor is one.
pub proof fn quotient_within(n: int, d: int, n_bound: int)
    requires
        d != 0,
        magnitude(n) <= n_bound,
    ensures
        magnitude(quotient(n, d)) <= n_bound,
        magnitude(quotient(n, d)) <= n_bound / magnitude(d),
{
    quotient_bounds(n, d);
    vstd::arithmetic::div_mod::lemma_div_is_ordered(magnitude(n), n_bound, magnitude(d));
}

/// A product divided toward zero stays within the product of the factors'
/// bounds, divided by the least magnitude of the divisor.
pub proof fn mul_div_within(a: int, b: int, d: int, a_bound: int, b_bound: int, d_least: int)
    requires
        magnitude(a) <= a_bound,
        magnitude(b) <= b_bound,
        0 < d_least <= magnitude(d),
    ensures
        magnitude(quotient(a * b, d)) <= (a_bound * b_bound) / d_least,
{
    product_bounds(a, b, a_bound, b_bound);
    quotient_within(a * b, d, a_bound * b_bound);
    vstd::arithmetic::div_mod::lemma_div_is_ordered_by_denominator(
        a_bound * b_bound,
        d_least,
        magnitude(d),
    );
}

/// The magnitude of a 128-bit integer other than the least.
fn magnitude_of(v: i128) -> (m: u128)
    requires
        v != i128::MIN,
    ensures
        m == magnitude(v as int),
{
    if v < 0 {
        let w: i128 = -v;
        w as u128
    } else {
        v as u128
    }
}

/// Divides `n` by `d` and rounds toward zero.
pub fn div_toward_zero(n: i128, d: i128) -> (q: i128)
    requires
        d != 0,
        n != i128::MIN,
        d != i128::MIN,
    ensures
        q == quotient(n as int, d as int),
{
    let mn: u128 = magnitude_of(n);
    let md: u128 = magnitude_of(d);
    let mq: u128 = mn / md;
    proof {
        quotient_bounds(n as int, d as int);
    }
    if (n < 0) == (d < 0) {
        mq as i128
    } else {
        -(mq as i128)
    }
}

/// The product `a * b` divided by `d`, rounded toward zero. The product is
/// formed in 128 bits, so only the quotient has to fit.
pub fn mul_div(a: i64, b: i64, d: i64) -> (q: i64)
    requires
        d != 0,
        i64::MIN <= quotient(a * b, d as int) <= i64::MAX,
    ensures
        q == quotient(a * b, d as int),
{
    proof {
        product_bounds(a as int, b as int, 0x8000_0000_0000_0000, 0x8000_0000_0000_0000);
    }
    let wide: i128 = div_toward_zero((a as i128) * (b as i128), d as i128);
    wide as i64
}

} // verus!
