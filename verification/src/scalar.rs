//! Fixed-point scalars.
//!
//! A [`Scalar`] counts 1/65536ths of a unit. Sums and differences are plain
//! integer arithmetic; a product of two scalars is rescaled by [`ONE`] and
//! rounded toward zero.

use vstd::prelude::*;

verus! {

/// A fixed-point quantity with sixteen fractional bits.
pub type Scalar = i64;

/// The scalar that stands for one whole unit.
pub const ONE: i64 = 65536;

/// Whether a mathematical integer can be held in a [`Scalar`].
pub open spec fn representable(x: int) -> bool {
    i64::MIN <= x <= i64::MAX
}

/// The quotient of `a` by a positive `b`, rounded toward zero.
pub open spec fn quotient_toward_zero(a: int, b: int) -> int
    recommends
        b > 0,
{
    if a >= 0 {
        a / b
    } else {
        -((-a) / b)
    }
}

/// The fixed-point product of two scalars: their integer product, rescaled by
/// [`ONE`] and rounded toward zero.
pub open spec fn scaled_product(a: int, b: int) -> int {
    quotient_toward_zero(a * b, ONE as int)
}

/// The scalar for a whole number of units.
pub fn whole(units: i32) -> (r: Scalar)
    ensures
        r == units * ONE,
{
    let wide: i64 = units as i64;
    wide * ONE
}

proof fn lemma_product_bounds(a: int, b: int)
    requires
        representable(a),
        representable(b),
    ensures
        -0x4000_0000_0000_0000_0000_0000_0000_0000 <= a * b
            <= 0x4000_0000_0000_0000_0000_0000_0000_0000,
{
    assert(a * b <= 0x4000_0000_0000_0000_0000_0000_0000_0000) by (nonlinear_arith)
        requires
            -0x8000_0000_0000_0000 <= a <= 0x7fff_ffff_ffff_ffff,
            -0x8000_0000_0000_0000 <= b <= 0x7fff_ffff_ffff_ffff,
    ;
    assert(a * b >= -0x4000_0000_0000_0000_0000_0000_0000_0000) by (nonlinear_arith)
        requires
            -0x8000_0000_0000_0000 <= a <= 0x7fff_ffff_ffff_ffff,
            -0x8000_0000_0000_0000 <= b <= 0x7fff_ffff_ffff_ffff,
    ;
}

/// The integer product of two scalars, in units of 1/65536² with no rescaling.
pub fn raw_product(a: Scalar, b: Scalar) -> (r: i128)
    ensures
        r == a * b,
        -0x4000_0000_0000_0000_0000_0000_0000_0000 <= r
            <= 0x4000_0000_0000_0000_0000_0000_0000_0000,
{
    proof {
        lemma_product_bounds(a as int, b as int);
    }
    (a as i128) * (b as i128)
}

/// The fixed-point product `a · b`, or `None` where it cannot be represented.
pub fn checked_scale(a: Scalar, b: Scalar) -> (r: Option<Scalar>)
    ensures
        r == if representable(scaled_product(a as int, b as int)) {
            Some(scaled_product(a as int, b as int) as i64)
        } else {
            None
        },
{
    let wide: i128 = raw_product(a, b);
    let quotient: i128 = wide / (ONE as i128);
    if quotient < (i64::MIN as i128) || quotient > (i64::MAX as i128) {
        None
    } else {
        Some(quotient as i64)
    }
}

/// The sum `a + b`, or `None` where it cannot be represented.
pub fn checked_sum(a: Scalar, b: Scalar) -> (r: Option<Scalar>)
    ensures
        r == if representable(a + b) {
            Some((a + b) as i64)
        } else {
            None
        },
{
    let wide: i128 = (a as i128) + (b as i128);
    if wide < (i64::MIN as i128) || wide > (i64::MAX as i128) {
        None
    } else {
        Some(wide as i64)
    }
}

} // verus!
