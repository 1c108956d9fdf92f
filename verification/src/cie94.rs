//! Parameters of the CIE94 colour distance.
//!
//! CIE94 weighs the lightness, chroma and hue differences of two samples
//! with three coefficients.  The formula is a quasimetric: the chroma of the
//! *reference* sample alone scales the chroma and hue terms, so swapping the
//! two samples changes the result in general.  Its weight presets are exact
//! decimals, so they are carried here in thousandths; the floating-point
//! evaluation of the formula itself lives in the unverified front end.

use vstd::prelude::*;

use crate::math::sq;

verus! {

/// `k` parameters adjusting what effect lightness, chroma and hue difference
/// have on the calculated distance, each in thousandths.
///
/// `l` holds 1000 times the k_L coefficient; `c` and `h` hold 1000 times the
/// K_1 and K_2 coefficients (named for the terms they scale).
#[derive(Clone, Copy, Debug, PartialEq, Eq, Structural)]
pub struct Params {
    /// 1000 times the k_L parameter.
    pub l: u32,
    /// 1000 times the K_1 parameter.
    pub c: u32,
    /// 1000 times the K_2 parameter.
    pub h: u32,
}

impl Params {
    /// Returns parameters weighted for graphic arts:
    /// k_L = 1.0, K_1 = 0.045, K_2 = 0.015.
    pub fn graphic() -> (r: Params)
        ensures
            r == (Params { l: 1000u32, c: 45u32, h: 15u32 }),
    {
        Params { l: 1000, c: 45, h: 15 }
    }

    /// Returns parameters weighted for textiles:
    /// k_L = 2.0, K_1 = 0.048, K_2 = 0.014.
    pub fn textiles() -> (r: Params)
        ensures
            r == (Params { l: 2000u32, c: 48u32, h: 14u32 }),
    {
        Params { l: 2000, c: 48, h: 14 }
    }
}

impl Default for Params {
    /// Returns the graphic-arts parameters, the usual choice for computer
    /// graphics.
    fn default() -> (r: Params)
        ensures
            r == (Params { l: 1000u32, c: 45u32, h: 15u32 }),
    {
        Params::graphic()
    }
}

/// The quantity under the hue term's square root is non-negative in exact
/// arithmetic.
///
/// The hue difference of CIE94 (and of CMC) is computed as
/// sqrt(da^2 + db^2 - dC^2) with dC the difference of the two chromas, and
/// only floating-point cancellation can push the operand below zero.  The
/// exact reason is the Cauchy-Schwarz inequality for the two chroma
/// vectors, proved here through the Lagrange identity: the slack between
/// the two sides is itself a perfect square.
pub proof fn lemma_hue_square_nonnegative(a1: int, b1: int, a2: int, b2: int)
    ensures
        sq(a1 * a2 + b1 * b2) <= (sq(a1) + sq(b1)) * (sq(a2) + sq(b2)),
{
    let p = a1 * a2;
    let q = b1 * b2;
    let r = a1 * b2;
    let s = a2 * b1;
    let sa1 = a1 * a1;
    let sb1 = b1 * b1;
    let sa2 = a2 * a2;
    let sb2 = b2 * b2;
    assert(p * p == sa1 * sa2) by (nonlinear_arith)
        requires
            p == a1 * a2,
            sa1 == a1 * a1,
            sa2 == a2 * a2,
    ;
    assert(q * q == sb1 * sb2) by (nonlinear_arith)
        requires
            q == b1 * b2,
            sb1 == b1 * b1,
            sb2 == b2 * b2,
    ;
    assert(r * r == sa1 * sb2) by (nonlinear_arith)
        requires
            r == a1 * b2,
            sa1 == a1 * a1,
            sb2 == b2 * b2,
    ;
    assert(s * s == sa2 * sb1) by (nonlinear_arith)
        requires
            s == a2 * b1,
            sa2 == a2 * a2,
            sb1 == b1 * b1,
    ;
    assert(p * q == r * s) by (nonlinear_arith)
        requires
            p == a1 * a2,
            q == b1 * b2,
            r == a1 * b2,
            s == a2 * b1,
    ;
    assert((sa1 + sb1) * (sa2 + sb2) == sa1 * sa2 + sa1 * sb2 + sb1 * sa2 + sb1 * sb2)
        by (nonlinear_arith);
    assert((p + q) * (p + q) == p * p + 2 * (p * q) + q * q) by (nonlinear_arith);
    assert((r - s) * (r - s) == r * r - 2 * (r * s) + s * s) by (nonlinear_arith);
    assert((r - s) * (r - s) >= 0) by (nonlinear_arith);
    assert(sq(a1 * a2 + b1 * b2) == (p + q) * (p + q));
    assert((sq(a1) + sq(b1)) * (sq(a2) + sq(b2)) == (sa1 + sb1) * (sa2 + sb2));
}

} // verus!
