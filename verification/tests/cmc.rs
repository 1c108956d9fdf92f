//! Tests of the CMC l:c tolerances and the exact S_L facts.

use empfindung::cmc::{in_hue_window, LC11, LC21};

#[test]
fn cmc_tolerance_presets() {
    assert_eq!((1000, 1000), LC11);
    assert_eq!((2000, 1000), LC21);
}

#[test]
fn cmc_s_l_continuous_at_sixteen() {
    // Below lightness 16 the formula uses the constant 1639/3206; at
    // lightness 16 the general expression 40975 l / (1000000 + 17650 l)
    // takes exactly that value.
    let num: u64 = 40975 * 16;
    let den: u64 = 1_000_000 + 17650 * 16;
    assert_eq!(num * 3206, 1639 * den);
}

#[test]
fn cmc_hue_window_edges() {
    // Angles in hundredths of a degree, as the arctangent's half-open turn
    // yields them: the window covers -196.00 to -15.00 degrees inclusive.
    assert!(in_hue_window(-1500));
    assert!(in_hue_window(-8800));
    assert!(in_hue_window(-17999));
    assert!(!in_hue_window(-1499));
    assert!(!in_hue_window(0));
    assert!(!in_hue_window(16400));
    assert!(!in_hue_window(18000));
}

#[test]
fn cmc_hue_window_constants() {
    // The angular constants of the hue factor reduce exactly to the
    // fractions the formula is written with.
    assert_eq!((164 - 360) * 90, -49 * 360);
    assert_eq!((345 - 360) * 24, -1 * 360);
    assert_eq!(168 * 15, 7 * 360);
    assert_eq!(35 * 36, 7 * 180);
}
