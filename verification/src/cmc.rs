//! Parameters and exact facts of the CMC l:c colour distance.
//!
//! CMC l:c weighs lightness and chroma differences with two tolerances `l`
//! and `c`, and its hue tolerance follows an empirical angular factor.  Like
//! CIE94 it is a quasimetric: every scale factor is computed from the
//! *reference* sample only.  The weight presets are exact decimals, carried
//! here in thousandths; the floating-point evaluation lives in the
//! unverified front end, while the exact rational facts behind its lightness
//! scale factor are proved here.

use vstd::prelude::*;

verus! {

/// CMC 1:1 tolerances (l = 1.0, c = 1.0), in thousandths.
pub const LC11: (u32, u32) = (1000, 1000);

/// CMC 2:1 tolerances (l = 2.0, c = 1.0), in thousandths.
pub const LC21: (u32, u32) = (2000, 1000);

/// Numerator of the exact rational value of the S_L lightness scale factor
/// at lightness `l`: S_L(l) = 0.040975 l / (1 + 0.01765 l), written with the
/// decimals cleared as 40975 l / (1000000 + 17650 l).
pub open spec fn s_l_num(l: int) -> int {
    40975 * l
}

/// Denominator of the exact rational value of the S_L lightness scale
/// factor at lightness `l`; see [`s_l_num`].
pub open spec fn s_l_den(l: int) -> int {
    1000000 + 17650 * l
}

/// The S_L factor is continuous at its breakpoint: below a reference
/// lightness of 16 the formula uses the constant 1639/3206, and that
/// constant is exactly the rational value of the general expression at
/// lightness 16 (the fractions agree once cross-multiplied).
pub proof fn lemma_s_l_continuous_at_sixteen()
    ensures
        s_l_num(16) * 3206 == 1639 * s_l_den(16),
{
}

/// The hue factor's angular window constants reduce exactly: the window
/// edges 164 and 345 degrees, wrapped by a full turn, are -196/360 and
/// -15/360 of a turn, which the formula writes as -49/90 and -1/24; and the
/// phase shifts 168 and 35 degrees are 7/15 of a turn and 7/36 of a half
/// turn.
pub proof fn lemma_hue_window_constants()
    ensures
        (164 - 360) * 90 == -49 * 360,
        (345 - 360) * 24 == -1 * 360,
        168 * 15 == 7 * 360,
        35 * 36 == 7 * 180,
{
}

/// Whether a reference hue angle, in hundredths of a degree, falls in the
/// tolerance window that selects the 0.56-based hue factor.  The window
/// edges are 164 and 345 degrees wrapped down by a full turn, as the
/// formula states them.
pub open spec fn in_hue_window_spec(h: int) -> bool {
    -19600 <= h <= -1500
}

/// Returns whether the reference hue angle `h`, in hundredths of a degree,
/// selects the 0.56-based hue tolerance factor.
pub fn in_hue_window(h: i64) -> (r: bool)
    ensures
        r == in_hue_window_spec(h as int),
{
    -19600 <= h && h <= -1500
}

/// The arctangent yields angles in a half-open turn, and the window's lower
/// edge (164 degrees less a full turn) lies below that range: for every
/// angle the arctangent can yield, only the window's upper edge decides.
pub proof fn lemma_hue_window_clipped(h: int)
    requires
        -18000 < h <= 18000,
    ensures
        in_hue_window_spec(h) <==> h <= -1500,
{
}

} // verus!
