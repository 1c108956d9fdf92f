//! Shared numeric primitives: exact integer square roots, and small
//! square-and-multiply ladders that pin the value of fixed powers.

use vstd::arithmetic::power::{lemma_pow1, lemma_pow_adds, pow};
use vstd::prelude::*;

verus! {

/// The square of `x`.
pub open spec fn sq(x: int) -> int {
    x * x
}

/// Whether `r` is the integer square root of `n` rounded down.
pub open spec fn is_sqrt_floor(n: int, r: int) -> bool {
    0 <= r && r * r <= n && n < (r + 1) * (r + 1)
}

/// The square of a coordinate difference is non-negative and, for samples
/// in range, small enough that three of them fit in a `u64` together.
pub(crate) proof fn lemma_sq_bound(d: int)
    by (nonlinear_arith)
    requires
        -2 * crate::COORD_LIMIT <= d <= 2 * crate::COORD_LIMIT,
    ensures
        0 <= sq(d) <= 4_000_000_000_000_000_000,
{
}

/// A number has at most one rounded-down square root.
pub proof fn lemma_sqrt_floor_unique(n: int, r1: int, r2: int)
    by (nonlinear_arith)
    requires
        is_sqrt_floor(n, r1),
        is_sqrt_floor(n, r2),
    ensures
        r1 == r2,
{
}

/// The third power of `b`, from its partial product: callers hand the
/// square of `b` as a checked literal and get the power pinned down.
pub proof fn lemma_pow3_value(b: int, b2: int)
    requires
        b2 == b * b,
    ensures
        pow(b, 3) == b2 * b,
{
    lemma_pow1(b);
    lemma_pow_adds(b, 1, 1);
    lemma_pow_adds(b, 2, 1);
}

/// The fifth power of `b`, from its second and fourth powers.
pub proof fn lemma_pow5_value(b: int, b2: int, b4: int)
    requires
        b2 == b * b,
        b4 == b2 * b2,
    ensures
        pow(b, 5) == b4 * b,
{
    lemma_pow1(b);
    lemma_pow_adds(b, 1, 1);
    lemma_pow_adds(b, 2, 2);
    lemma_pow_adds(b, 4, 1);
}

/// The seventh power of `b`, from its second, third and sixth powers.
pub proof fn lemma_pow7_value(b: int, b2: int, b3: int, b6: int)
    requires
        b2 == b * b,
        b3 == b2 * b,
        b6 == b3 * b3,
    ensures
        pow(b, 7) == b6 * b,
{
    lemma_pow1(b);
    lemma_pow_adds(b, 1, 1);
    lemma_pow_adds(b, 2, 1);
    lemma_pow_adds(b, 3, 3);
    lemma_pow_adds(b, 6, 1);
}

/// The twelfth power of `b`, from its second, third and sixth powers.
pub proof fn lemma_pow12_value(b: int, b2: int, b3: int, b6: int)
    requires
        b2 == b * b,
        b3 == b2 * b,
        b6 == b3 * b3,
    ensures
        pow(b, 12) == b6 * b6,
{
    lemma_pow1(b);
    lemma_pow_adds(b, 1, 1);
    lemma_pow_adds(b, 2, 1);
    lemma_pow_adds(b, 3, 3);
    lemma_pow_adds(b, 6, 6);
}

/// Returns the integer square root of `n`, rounded down.
pub fn isqrt(n: u64) -> (r: u64)
    ensures
        is_sqrt_floor(n as int, r as int),
{
    let mut lo: u64 = 0;
    let mut hi: u64 = 0xFFFF_FFFF;
    proof {
        assert((0xFFFF_FFFFu64 + 1) * (0xFFFF_FFFFu64 + 1) > u64::MAX) by (nonlinear_arith);
    }
    while lo < hi
        invariant
            lo <= hi <= 0xFFFF_FFFF,
            lo * lo <= n,
            n < (hi + 1) * (hi + 1),
        decreases hi - lo,
    {
        let mid: u64 = lo + (hi - lo + 1) / 2;
        proof {
            assert(mid * mid <= 0xFFFF_FFFFu64 * 0xFFFF_FFFFu64) by (nonlinear_arith)
                requires
                    mid <= 0xFFFF_FFFFu64,
            ;
        }
        let square: u128 = (mid as u128) * (mid as u128);
        if square <= n as u128 {
            lo = mid;
        } else {
            hi = mid - 1;
        }
    }
    lo
}

/// Returns the Euclidean magnitude of the vector (a, b), rounded down: the
/// shared two-dimensional helper behind every chroma computation.
pub fn hypot_floor(a: i64, b: i64) -> (r: u64)
    requires
        -2 * crate::COORD_LIMIT <= a <= 2 * crate::COORD_LIMIT,
        -2 * crate::COORD_LIMIT <= b <= 2 * crate::COORD_LIMIT,
    ensures
        is_sqrt_floor(sq(a as int) + sq(b as int), r as int),
{
    proof {
        lemma_sq_bound(a as int);
        lemma_sq_bound(b as int);
    }
    isqrt((a * a) as u64 + (b * b) as u64)
}

} // verus!
