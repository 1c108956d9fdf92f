//! Implementations of the [`ToLab`] capability, and the grey fast path's
//! exact skeleton.
//!
//! A colour sample can be handed to the formulas as a [`Lab`] record, as a
//! plain coordinate triple or as a fixed three-element array; every
//! representation reads back exactly the coordinates it holds.  The module
//! also models the single-channel grey conversion: which of its three
//! arithmetic segments applies to each 8-bit grey value, and why the two
//! breakpoints of that choice are the right ones.

use vstd::arithmetic::power::pow;
use vstd::prelude::*;

use crate::{Lab, ToLab};

verus! {

impl ToLab for Lab {
    open spec fn lab_spec(&self) -> Lab {
        *self
    }

    fn to_lab(&self) -> (r: Lab)
        ensures
            r == self.lab_spec(),
    {
        *self
    }
}

impl ToLab for (i64, i64, i64) {
    open spec fn lab_spec(&self) -> Lab {
        Lab { l: self.0, a: self.1, b: self.2 }
    }

    fn to_lab(&self) -> (r: Lab)
        ensures
            r == self.lab_spec(),
    {
        Lab { l: self.0, a: self.1, b: self.2 }
    }
}

impl ToLab for [i64; 3] {
    open spec fn lab_spec(&self) -> Lab {
        Lab { l: self[0], a: self[1], b: self[2] }
    }

    fn to_lab(&self) -> (r: Lab)
        ensures
            r == self.lab_spec(),
    {
        Lab { l: self[0], a: self[1], b: self[2] }
    }
}

/// The arithmetic segment that computes L* for an 8-bit grey value.
///
/// A grey pixel has r = g = b, so the sRGB-to-L*a*b* pipeline collapses to a
/// single channel with a* = b* = 0, and its two piecewise functions (the
/// sRGB gamma decoding, then the CIE lightness mapping) collapse to three
/// segments over the grey value itself.
#[derive(Clone, Copy, Debug, PartialEq, Eq, Structural)]
pub enum GreySegment {
    /// Linear gamma segment, dark lightness segment: L* is a fixed multiple
    /// of the grey value.
    Linear,
    /// Power-law gamma segment, still the dark lightness segment.
    DarkPower,
    /// Power-law gamma segment and the cube-root lightness segment.
    LightPower,
}

/// The segment that the grey fast path uses for `grey`.
pub open spec fn grey_segment_spec(grey: u8) -> GreySegment {
    if grey <= 10 {
        GreySegment::Linear
    } else if grey <= 23 {
        GreySegment::DarkPower
    } else {
        GreySegment::LightPower
    }
}

/// Returns which arithmetic segment computes L* for the grey value `grey`.
pub fn grey_segment(grey: u8) -> (s: GreySegment)
    ensures
        s == grey_segment_spec(grey),
{
    if grey <= 10 {
        GreySegment::Linear
    } else if grey <= 23 {
        GreySegment::DarkPower
    } else {
        GreySegment::LightPower
    }
}

/// First breakpoint: the sRGB standard decodes a signal linearly while it is
/// at most 0.04045 of full scale.  On the 0..=255 integer scale, the signals
/// in the linear segment are exactly the greys up to 10, since
/// 10 <= 255 * 0.04045 < 11; both sides of the breakpoint test are stated
/// here with the fraction cleared (0.04045 = 4045 / 100000).
pub proof fn lemma_linear_breakpoint(grey: u8)
    ensures
        100000 * grey <= 255 * 4045 <==> grey <= 10,
{
}

/// The CIE lightness mapping's threshold constant is (6/29)^3 = 216/24389,
/// and the kappa constant of its dark segment is (29/3)^3 = 24389/27.
pub proof fn lemma_lightness_constants()
    ensures
        pow(6, 3) == 216,
        pow(29, 3) == 24389,
        pow(3, 3) == 27,
{
    crate::math::lemma_pow3_value(6, 36);
    crate::math::lemma_pow3_value(29, 841);
    crate::math::lemma_pow3_value(3, 9);
}

/// The linear segment's collapsed constant: kappa / (12.92 * 255), reduced
/// in the source to 243890 / 889542.  With kappa = 24389 / 27 and
/// 12.92 * 255 = 329460 / 100, the reduction is exact: the two fractions are
/// equal once cross-multiplied.
pub proof fn lemma_linear_grey_constant()
    ensures
        24389 * 100 * 889542 == 243890 * (27 * 329460),
{
}

/// Whether the decoded reflectance of `grey` is at most the CIE threshold:
/// the condition ((g / 255 + 0.055) / 1.055)^2.4 <= 216 / 24389, raised to
/// the fifth power so that both sides are integers (2.4 * 5 == 12), with
/// the inner fraction cleared and reduced by 25 to (40 g + 561) / 10761.
pub open spec fn dark_reflectance(grey: int) -> bool {
    pow(40 * grey + 561, 12) * pow(24389, 5) <= pow(216, 5) * pow(10761, 12)
}

/// Second breakpoint: after the power-law gamma decoding, the reflectance
/// of an integer grey value sits in the dark lightness segment exactly when
/// the grey value is at most 23.
///
/// [`dark_reflectance`] states the comparison in integers; this proof pins
/// the powers at the two greys beside the breakpoint with square-and-
/// multiply ladders, compares them against the threshold side, and lets
/// monotonicity of the twelfth power carry the two endpoint computations to
/// every other grey value.
pub proof fn lemma_dark_breakpoint(grey: int)
    requires
        0 <= grey < 256,
    ensures
        dark_reflectance(grey) <==> grey <= 23,
{
    crate::math::lemma_pow12_value(1481, 2193361, 3248367641, 10551892331095904881);
    crate::math::lemma_pow12_value(1521, 2313441, 3518743761, 12381557655576425121);
    crate::math::lemma_pow12_value(10761, 115799121, 1246114341081, 1552800951047734804248561);
    crate::math::lemma_pow5_value(24389, 594823321, 353814783205469041);
    crate::math::lemma_pow5_value(216, 46656, 2176782336);
    let base = (40 * grey + 561) as nat;
    if grey <= 23 {
        lemma_pow_le_base(base, 1481, 12);
        lemma_mul_le_right(pow(base as int, 12), pow(1481, 12), pow(24389, 5));
    } else {
        lemma_pow_le_base(1521, base, 12);
        lemma_mul_le_right(pow(1521, 12), pow(base as int, 12), pow(24389, 5));
    }
}

/// Raising to any power is monotone in a non-negative base.
proof fn lemma_pow_le_base(x: nat, y: nat, e: nat)
    requires
        x <= y,
    ensures
        0 <= pow(x as int, e) <= pow(y as int, e),
    decreases e,
{
    reveal(pow);
    if e > 0 {
        lemma_pow_le_base(x, y, (e - 1) as nat);
        assert(0 <= x * pow(x as int, (e - 1) as nat) && x * pow(x as int, (e - 1) as nat) <= y
            * pow(y as int, (e - 1) as nat))
            by (nonlinear_arith)
            requires
                0 <= x <= y,
                0 <= pow(x as int, (e - 1) as nat) <= pow(y as int, (e - 1) as nat),
        ;
        assert(pow(x as int, e) == x * pow(x as int, (e - 1) as nat));
        assert(pow(y as int, e) == y * pow(y as int, (e - 1) as nat));
    }
}

/// Multiplying both sides of an inequality by a non-negative factor keeps it.
proof fn lemma_mul_le_right(x: int, y: int, m: int)
    by (nonlinear_arith)
    requires
        x <= y,
        0 <= m,
    ensures
        x * m <= y * m,
{
}

} // verus!
