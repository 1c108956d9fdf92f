//! The CIEDE2000 colour distance: parameters and exact angle bookkeeping.
//!
//! CIEDE2000 corrects the a* axis, scales each of its three terms, and adds
//! an interpolated hue rotation term.  Most of that is transcendental
//! arithmetic and lives in the unverified floating-point front end; what is
//! proved here is the part that is exact whatever the number format: the
//! hue-angle bookkeeping (normalisation to a full turn, the
//! shortest-angular-path difference, the wrapped mean) together with the
//! laws that make the formula symmetric, the weight presets, and the
//! formula's fixed constant 25^7.

use vstd::arithmetic::power::pow;
use vstd::prelude::*;

verus! {

/// Legacy name of the CIEDE2000 formula, kept as a handle for callers that
/// still address the formula by its historical type.
pub struct DE2000;

/// The constant 25^7 that CIEDE2000's a*-axis correction and hue rotation
/// term divide by; [`lemma_twenty_five_to_seventh`] checks the power.
pub const TWENTY_FIVE_TO_SEVENTH: u64 = 6103515625;

/// The named constant really is the seventh power of 25.
pub proof fn lemma_twenty_five_to_seventh()
    ensures
        pow(25, 7) == TWENTY_FIVE_TO_SEVENTH,
{
    crate::math::lemma_pow7_value(25, 625, 15625, 244140625);
}

/// `k` parameters adjusting what effect lightness, chroma and hue
/// difference have on the calculated distance, each in thousandths.
///
/// The default weights are all 1.0; the larger a value, the smaller the
/// impact of its component.  A zero weight makes the corresponding
/// floating-point term infinite.
#[derive(Clone, Copy, Debug, PartialEq, Eq, Structural)]
pub struct Params {
    /// 1000 times the k_L parameter.
    pub l: u32,
    /// 1000 times the k_C parameter.
    pub c: u32,
    /// 1000 times the k_H parameter.
    pub h: u32,
}

impl Params {
    /// Returns the parameters determined in (Yang, 2012):
    /// k_L = 0.65, k_C = 1.0, k_H = 4.0.
    pub fn yang2012() -> (r: Params)
        ensures
            r == (Params { l: 650u32, c: 1000u32, h: 4000u32 }),
    {
        Params { l: 650, c: 1000, h: 4000 }
    }
}

impl Default for Params {
    /// Returns the canonical weights, all equal to one.
    fn default() -> (r: Params)
        ensures
            r == (Params { l: 1000u32, c: 1000u32, h: 1000u32 }),
    {
        Params { l: 1000, c: 1000, h: 1000 }
    }
}

/// Largest angle scale the exact angle functions accept: a full turn must
/// fit an `i64` with room for one more turn of headroom.
pub const TAU_LIMIT: i64 = 0x2000_0000_0000_0000;

/// An angle in (-tau/2, tau/2] wrapped into [0, tau): a negative angle has
/// one full turn added.
pub open spec fn wrap_hue_spec(rad: int, tau: int) -> int {
    if rad < 0 {
        rad + tau
    } else {
        rad
    }
}

/// The shortest-angular-path hue difference of CIEDE2000, for hue angles
/// `h1` and `h2` in [0, tau) of two samples with chromas `c1` and `c2`:
/// zero when either sample has no chroma (its hue is undefined), otherwise
/// the raw difference moved by a full turn towards zero when it exceeds half
/// a turn in magnitude.
pub open spec fn hue_diff_spec(c1: int, c2: int, h1: int, h2: int, tau: int) -> int {
    if c1 == 0 || c2 == 0 {
        0
    } else {
        let d = h2 - h1;
        if -(tau / 2) <= d <= tau / 2 {
            d
        } else if h2 <= h1 {
            d + tau
        } else {
            d - tau
        }
    }
}

/// The mean hue angle of CIEDE2000: the plain mean of `h1` and `h2`, pushed
/// to the far side of the circle by half a turn when the two angles are
/// more than half a turn apart.
pub open spec fn hue_mean_spec(h1: int, h2: int, tau: int) -> int {
    if h1 - h2 > tau / 2 || h2 - h1 > tau / 2 {
        (h1 + h2) / 2 + tau / 2
    } else {
        (h1 + h2) / 2
    }
}

/// Returns the hue angle `rad` of a chromatic sample, normalised from the
/// arctangent's half-open turn (-tau/2, tau/2] into [0, tau).  A sample
/// with no chroma never reaches this: its hue is defined as zero outright.
pub fn wrap_hue(rad: i64, tau: i64) -> (r: i64)
    requires
        0 < tau <= TAU_LIMIT,
        -(tau / 2) < rad <= tau / 2,
    ensures
        r == wrap_hue_spec(rad as int, tau as int),
        0 <= r < tau,
{
    if rad < 0 {
        rad + tau
    } else {
        rad
    }
}

/// Returns the CIEDE2000 hue difference of two samples whose hue angles in
/// [0, tau) are `h1` and `h2` and whose chromas are `c1` and `c2`: the exact
/// shortest-angular-path rule of [`hue_diff_spec`].
pub fn hue_diff(c1: u64, c2: u64, h1: i64, h2: i64, tau: i64) -> (d: i64)
    requires
        0 < tau <= TAU_LIMIT,
        tau % 2 == 0,
        0 <= h1 < tau,
        0 <= h2 < tau,
    ensures
        d == hue_diff_spec(c1 as int, c2 as int, h1 as int, h2 as int, tau as int),
        -(tau / 2) <= d <= tau / 2,
{
    if c1 == 0 || c2 == 0 {
        return 0;
    }
    let d = h2 - h1;
    let half = tau / 2;
    if -half <= d && d <= half {
        d
    } else if h2 <= h1 {
        d + tau
    } else {
        d - tau
    }
}

/// Returns the CIEDE2000 mean hue of two hue angles in [0, tau), wrapped to
/// the correct side of the circle as [`hue_mean_spec`] states.
pub fn hue_mean(h1: i64, h2: i64, tau: i64) -> (m: i64)
    requires
        0 < tau <= TAU_LIMIT,
        tau % 2 == 0,
        0 <= h1 < tau,
        0 <= h2 < tau,
    ensures
        m == hue_mean_spec(h1 as int, h2 as int, tau as int),
{
    let half = tau / 2;
    let gap = if h1 >= h2 {
        h1 - h2
    } else {
        h2 - h1
    };
    let m = (h1 + h2) / 2;
    if gap > half {
        m + half
    } else {
        m
    }
}

/// Swapping the two samples flips the sign of the hue difference and
/// nothing more.  This is the heart of the formula's symmetry: the hue
/// difference enters the distance through an odd function and a square, so
/// an exact sign flip leaves the distance unchanged.
pub proof fn lemma_hue_diff_antisymmetric(c1: int, c2: int, h1: int, h2: int, tau: int)
    requires
        0 < tau,
        tau % 2 == 0,
        0 <= h1 < tau,
        0 <= h2 < tau,
    ensures
        hue_diff_spec(c1, c2, h1, h2, tau) == -hue_diff_spec(c2, c1, h2, h1, tau),
{
}

/// A sample compared with itself has no hue difference: together with the
/// vanishing lightness and chroma differences this is why the formula's
/// distance from a sample to itself is zero.
pub proof fn lemma_hue_diff_of_equal(c: int, h: int, tau: int)
    requires
        0 < tau,
        tau % 2 == 0,
        0 <= h < tau,
    ensures
        hue_diff_spec(c, c, h, h, tau) == 0,
{
}

/// The hue difference is congruent to the raw difference of the two hue
/// angles modulo a full turn: the rule only ever moves it by whole turns.
pub proof fn lemma_hue_diff_congruent(c1: int, c2: int, h1: int, h2: int, tau: int)
    requires
        0 < tau,
        tau % 2 == 0,
        0 <= h1 < tau,
        0 <= h2 < tau,
        c1 != 0,
        c2 != 0,
    ensures
        (hue_diff_spec(c1, c2, h1, h2, tau) - (h2 - h1)) % tau == 0,
{
    let d = hue_diff_spec(c1, c2, h1, h2, tau);
    assert(d - (h2 - h1) == 0 || d - (h2 - h1) == tau || d - (h2 - h1) == -tau);
    vstd::arithmetic::div_mod::lemma_mod_multiples_basic(0, tau);
    vstd::arithmetic::div_mod::lemma_mod_multiples_basic(1, tau);
    vstd::arithmetic::div_mod::lemma_mod_multiples_basic(-1, tau);
    assert(0 * tau == 0 && 1 * tau == tau && (-1) * tau == -tau) by (nonlinear_arith);
}

/// The mean hue does not depend on the order of the two hue angles.
pub proof fn lemma_hue_mean_symmetric(h1: int, h2: int, tau: int)
    requires
        0 < tau,
        tau % 2 == 0,
        0 <= h1 < tau,
        0 <= h2 < tau,
    ensures
        hue_mean_spec(h1, h2, tau) == hue_mean_spec(h2, h1, tau),
{
}

} // verus!
