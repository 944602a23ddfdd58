//! Fixed-point arithmetic.
//!
//! Every plane coordinate, box size, smooth value and interpolation fraction
//! in this crate is a fixed-point number: an `i64` raw value `r` stands for
//! the real number `r / 2^32`.  Products are rescaled with truncation toward
//! zero, which is what the sign-magnitude division below computes.

use vstd::prelude::*;

verus! {

use vstd::arithmetic::div_mod::{lemma_div_is_ordered, lemma_div_pos_is_pos, lemma_div_by_multiple};
use vstd::arithmetic::mul::lemma_mul_upper_bound;

/// The raw value that stands for the real number one.
pub const FIX_ONE: i64 = 0x1_0000_0000;

/// A pair of fixed-point coordinates: a point of the complex plane, a box
/// size, or a sub-pixel screen position.
#[derive(Clone, Copy, Debug, PartialEq, Eq, Structural)]
pub struct FixVec {
    pub x: i64,
    pub y: i64,
}

impl FixVec {
    /// The origin.
    pub fn zero() -> (r: FixVec)
        ensures
            r.x == 0 && r.y == 0,
    {
        FixVec { x: 0, y: 0 }
    }

    pub fn new(x: i64, y: i64) -> (r: FixVec)
        ensures
            r.x == x && r.y == y,
    {
        FixVec { x, y }
    }
}

/// Division truncated toward zero (the rounding of a hardware division),
/// for a positive divisor.
pub open spec fn div_trunc(a: int, d: int) -> int {
    if a >= 0 {
        a / d
    } else {
        -((-a) / d)
    }
}

/// The product of two fixed-point values, rescaled back to fixed point:
/// the exact product `a * b / 2^32`, truncated toward zero.
pub open spec fn fix_mul_spec(a: int, b: int) -> int {
    div_trunc(a * b, FIX_ONE as int)
}

/// Truncated division maps an exact multiple of the divisor back to the
/// multiplier, whatever its sign.
pub proof fn lemma_div_trunc_exact(k: int, d: int)
    requires
        d >= 1,
    ensures
        div_trunc(k * d, d) == k,
{
    if k >= 0 {
        lemma_div_by_multiple(k, d);
    } else {
        lemma_div_by_multiple(-k, d);
        assert(-(k * d) == (-k) * d) by (nonlinear_arith);
    }
}

/// Truncated division by a positive divisor keeps a magnitude bound.
pub proof fn lemma_div_trunc_mag(a: int, cap: int, d: int)
    requires
        d >= 1,
        0 <= cap,
        -cap <= a <= cap,
    ensures
        -(cap / d) <= div_trunc(a, d) <= cap / d,
{
    if a >= 0 {
        lemma_div_pos_is_pos(a, d);
        lemma_div_is_ordered(a, cap, d);
    } else {
        lemma_div_pos_is_pos(-a, d);
        lemma_div_is_ordered(-a, cap, d);
    }
}

/// A magnitude bound for the rescaled product.
pub proof fn lemma_fix_mul_mag(a: int, b: int, ca: int, cb: int)
    requires
        0 <= ca,
        0 <= cb,
        -ca <= a <= ca,
        -cb <= b <= cb,
    ensures
        -((ca * cb) / (FIX_ONE as int)) <= fix_mul_spec(a, b) <= (ca * cb) / (FIX_ONE as int),
{
    assert(-(ca * cb) <= a * b <= ca * cb) by (nonlinear_arith)
        requires
            0 <= ca,
            0 <= cb,
            -ca <= a <= ca,
            -cb <= b <= cb,
    ;
    lemma_mul_upper_bound(ca, ca, cb, cb);
    lemma_div_trunc_mag(a * b, ca * cb, FIX_ONE as int);
}

/// The rescaled product of a value with itself is never negative.
pub proof fn lemma_fix_sq_nonneg(a: int)
    ensures
        fix_mul_spec(a, a) >= 0,
{
    assert(a * a >= 0) by (nonlinear_arith);
    lemma_div_pos_is_pos(a * a, FIX_ONE as int);
}

/// The rescaled product of two fixed-point values.
pub fn fix_mul(a: i64, b: i64) -> (r: i64)
    requires
        -0x7fff_ffff_ffff_ffff <= fix_mul_spec(a as int, b as int) <= 0x7fff_ffff_ffff_ffff,
    ensures
        r as int == fix_mul_spec(a as int, b as int),
{
    let p: i128 = (a as i128) * (b as i128);
    if p >= 0 {
        let q: u128 = (p as u128) / (FIX_ONE as u128);
        assert(q == div_trunc(p as int, FIX_ONE as int));
        q as i64
    } else {
        let m: u128 = ((-p) as u128) / (FIX_ONE as u128);
        assert(-(m as int) == div_trunc(p as int, FIX_ONE as int));
        -(m as i64)
    }
}

/// A product rescaled by an arbitrary positive divisor, truncated toward
/// zero, computed through a 128-bit intermediate.
pub fn mul_div(a: i64, b: i64, d: i64) -> (r: i64)
    requires
        d >= 1,
        -0x7fff_ffff_ffff_ffff <= div_trunc(a * b, d as int) <= 0x7fff_ffff_ffff_ffff,
    ensures
        r as int == div_trunc(a as int * b as int, d as int),
{
    proof {
        lemma_mul_upper_bound(
            if a as int >= 0 { a as int } else { -(a as int) },
            0x8000_0000_0000_0000,
            if b as int >= 0 { b as int } else { -(b as int) },
            0x8000_0000_0000_0000,
        );
        assert((a as int) * (b as int) <= (if a as int >= 0 { a as int } else { -(a as int) })
            * (if b as int >= 0 { b as int } else { -(b as int) })
            && -((if a as int >= 0 { a as int } else { -(a as int) })
            * (if b as int >= 0 { b as int } else { -(b as int) })) <= (a as int) * (b as int)) by (nonlinear_arith);
    }
    let p: i128 = (a as i128) * (b as i128);
    if p >= 0 {
        let q: u128 = (p as u128) / (d as u128);
        assert(q == div_trunc(p as int, d as int));
        q as i64
    } else {
        let m: u128 = ((-p) as u128) / (d as u128);
        assert(-(m as int) == div_trunc(p as int, d as int));
        -(m as i64)
    }
}

/// The squared magnitude of a fixed-point pair, as a 128-bit value, so
/// that it can be compared against an escape threshold even for points far
/// outside the plane window that a 64-bit square would overflow on.
pub fn fix_mag2(x: i64, y: i64) -> (r: u128)
    requires
        -0x100_0000_0000_0000 <= x <= 0x100_0000_0000_0000,
        -0x100_0000_0000_0000 <= y <= 0x100_0000_0000_0000,
    ensures
        r == fix_mul_spec(x as int, x as int) + fix_mul_spec(y as int, y as int),
{
    let ux: u128 = (if x >= 0 { x } else { -x }) as u128;
    let uy: u128 = (if y >= 0 { y } else { -y }) as u128;
    proof {
        assert(ux * ux == (x as int) * (x as int) && uy * uy == (y as int) * (y as int)) by (nonlinear_arith)
            requires
                ux == (if x as int >= 0 { x as int } else { -(x as int) }),
                uy == (if y as int >= 0 { y as int } else { -(y as int) }),
        ;
        lemma_mul_upper_bound(ux as int, 0x100_0000_0000_0000, ux as int, 0x100_0000_0000_0000);
        lemma_mul_upper_bound(uy as int, 0x100_0000_0000_0000, uy as int, 0x100_0000_0000_0000);
    }
    (ux * ux) / (FIX_ONE as u128) + (uy * uy) / (FIX_ONE as u128)
}

/// Division of one raw value by a positive raw value, truncated toward zero.
pub fn div_trunc_i64(a: i64, d: i64) -> (r: i64)
    requires
        d >= 1,
        a > i64::MIN,
    ensures
        r as int == div_trunc(a as int, d as int),
{
    proof {
        lemma_div_trunc_mag(a as int, if a >= 0 { a as int } else { -(a as int) }, d as int);
        if a >= 0 {
            lemma_div_is_ordered(0, a as int, d as int);
        }
    }
    if a >= 0 {
        a / d
    } else {
        let m: i64 = -a;
        -(m / d)
    }
}

} // verus!
