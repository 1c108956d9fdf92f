//! Tests of the CIE94 parameters and the hue term's exact bound.

use empfindung::cie94::Params;

#[test]
fn cie94_params_presets() {
    let graphic = Params::graphic();
    assert_eq!(1000, graphic.l);
    assert_eq!(45, graphic.c);
    assert_eq!(15, graphic.h);
    let textiles = Params::textiles();
    assert_eq!(2000, textiles.l);
    assert_eq!(48, textiles.c);
    assert_eq!(14, textiles.h);
    assert_eq!(graphic, Params::default());
}

#[test]
fn cie94_presets_differ() {
    // The two presets are distinct parameter sets and must not be confused.
    assert_ne!(Params::graphic(), Params::textiles());
}

#[test]
fn cie94_hue_square_nonnegative_concrete() {
    // The exact-arithmetic fact behind the hue term: da^2 + db^2 - dC^2 is
    // non-negative whenever the chromas are computed exactly, here checked
    // through the cross-product form on a sample pair.
    let (a1, b1, a2, b2): (i128, i128, i128, i128) = (58_991, 37_138, 42_416, 54_497);
    let cross = a1 * a2 + b1 * b2;
    let left = cross * cross;
    let right = (a1 * a1 + b1 * b1) * (a2 * a2 + b2 * b2);
    assert!(left <= right);
    // The slack is exactly the square of the cross determinant.
    let det = a1 * b2 - a2 * b1;
    assert_eq!(right - left, det * det);
}
