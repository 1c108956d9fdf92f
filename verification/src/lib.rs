//! Colour difference metrics over the L*a*b* colour space.
//!
//! The crate models the exact arithmetic core of four colour-difference
//! formulas: CIE76 ([`cie76`]), CIE94 ([`cie94`]), CIEDE2000 ([`cie00`]) and
//! CMC l:c ([`cmc`]).  Colour coordinates are carried as fixed-point integers
//! in thousandths of a L*a*b* unit, so that every computation here is exact
//! and every contract can be checked.  The floating-point evaluators that
//! mirror this core live in the unverified front end.

use vstd::prelude::*;

pub mod cie00;
pub mod cie76;
pub mod cie94;
pub mod cmc;
pub mod math;
pub mod to_lab_impls;

verus! {

/// Largest magnitude, in thousandths of a unit, that a coordinate may carry.
///
/// The bound keeps every squared distance inside a `u64`; it admits any
/// colour whose coordinates lie within a million L*a*b* units of zero, far
/// beyond any gamut.
pub const COORD_LIMIT: i64 = 1_000_000_000;

/// A colour sample: L*, a* and b* in thousandths of a unit.
///
/// `l` holds 1000 times the L* coordinate, and likewise `a` and `b`; the
/// sample (50, 2.5, 0) is written `Lab { l: 50_000, a: 2_500, b: 0 }`.
#[derive(Clone, Copy, Debug, PartialEq, Eq, Structural)]
pub struct Lab {
    pub l: i64,
    pub a: i64,
    pub b: i64,
}

/// Whether every coordinate of `c` is within [`COORD_LIMIT`] of zero.
pub open spec fn in_range(c: Lab) -> bool {
    -COORD_LIMIT <= c.l <= COORD_LIMIT && -COORD_LIMIT <= c.a <= COORD_LIMIT
        && -COORD_LIMIT <= c.b <= COORD_LIMIT
}

/// Capability of a value that can be read as a L*a*b* colour sample.
///
/// The difference formulas are written once against this capability, so the
/// same colour gives the same difference whatever representation carried it:
/// each implementation promises to return exactly its [`ToLab::lab_spec`]
/// view, and the formulas' contracts speak only of that view.
pub trait ToLab {
    /// The L*a*b* coordinates this value stands for.
    spec fn lab_spec(&self) -> Lab;

    /// Returns the L*, a* and b* coordinates of the colour.
    fn to_lab(&self) -> (r: Lab)
        ensures
            r == self.lab_spec(),
    ;
}

} // verus!
