//! The CIE76 colour distance: Euclidean distance in L*a*b* space.
//!
//! CIE76 is the plain Euclidean norm of the component-wise difference of two
//! colour samples, so it is a true metric: symmetric, and zero exactly on
//! equal samples.  Both laws are proved here ([`lemma_zero_property`],
//! [`lemma_symmetry`]).  With coordinates in thousandths of a unit the
//! difference comes out in thousandths as well, rounded down to an integer.

use vstd::prelude::*;

use crate::math::{is_sqrt_floor, isqrt, lemma_sq_bound, lemma_sqrt_floor_unique, sq};
use crate::{in_range, Lab, ToLab};

verus! {

/// The squared Euclidean distance between two samples' coordinate triples.
pub open spec fn dist_sq(c1: Lab, c2: Lab) -> int {
    sq(c1.l - c2.l) + sq(c1.a - c2.a) + sq(c1.b - c2.b)
}

/// Returns the CIE76 colour difference between two L*a*b* colours, in
/// thousandths of a unit rounded down: the integer square root of the
/// squared coordinate distance.
pub fn diff<A: ToLab, B: ToLab>(colour_1: &A, colour_2: &B) -> (r: u64)
    requires
        in_range(colour_1.lab_spec()),
        in_range(colour_2.lab_spec()),
    ensures
        is_sqrt_floor(dist_sq(colour_1.lab_spec(), colour_2.lab_spec()), r as int),
{
    let c1 = colour_1.to_lab();
    let c2 = colour_2.to_lab();
    let dl: i64 = c1.l - c2.l;
    let da: i64 = c1.a - c2.a;
    let db: i64 = c1.b - c2.b;
    proof {
        lemma_sq_bound(dl as int);
        lemma_sq_bound(da as int);
        lemma_sq_bound(db as int);
    }
    let sum: u64 = (dl * dl) as u64 + (da * da) as u64 + (db * db) as u64;
    isqrt(sum)
}

/// Zero property: the CIE76 difference of any sample with itself is zero.
pub proof fn lemma_zero_property(c: Lab, r: int)
    requires
        is_sqrt_floor(dist_sq(c, c), r),
    ensures
        r == 0,
{
    assert(dist_sq(c, c) == 0) by (nonlinear_arith);
    lemma_sqrt_floor_unique(0, r, 0);
}

/// Symmetry: the CIE76 difference does not depend on the order of its two
/// arguments.
pub proof fn lemma_symmetry(c1: Lab, c2: Lab, r12: int, r21: int)
    requires
        is_sqrt_floor(dist_sq(c1, c2), r12),
        is_sqrt_floor(dist_sq(c2, c1), r21),
    ensures
        r12 == r21,
{
    assert(dist_sq(c1, c2) == dist_sq(c2, c1)) by (nonlinear_arith);
    lemma_sqrt_floor_unique(dist_sq(c1, c2), r12, r21);
}

} // verus!
