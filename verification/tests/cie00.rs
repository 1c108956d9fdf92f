//! Tests of the CIEDE2000 parameters, constants and exact angle rules.

use empfindung::cie00::{
    hue_diff, hue_mean, wrap_hue, Params, DE2000, TWENTY_FIVE_TO_SEVENTH,
};

#[test]
fn cie00_params_presets() {
    let default = Params::default();
    assert_eq!(1000, default.l);
    assert_eq!(1000, default.c);
    assert_eq!(1000, default.h);
    let yang = Params::yang2012();
    assert_eq!(650, yang.l);
    assert_eq!(1000, yang.c);
    assert_eq!(4000, yang.h);
    let _legacy_handle = DE2000;
}

#[test]
fn cie00_constant_is_the_seventh_power() {
    assert_eq!(25u64.pow(7), TWENTY_FIVE_TO_SEVENTH);
    assert_eq!(6_103_515_625, TWENTY_FIVE_TO_SEVENTH);
}

#[test]
fn cie00_wrap_hue_values() {
    // Angles measured in 360ths of a turn, so the numbers read as degrees.
    assert_eq!(0, wrap_hue(0, 360));
    assert_eq!(45, wrap_hue(45, 360));
    assert_eq!(180, wrap_hue(180, 360));
    assert_eq!(270, wrap_hue(-90, 360));
    assert_eq!(359, wrap_hue(-1, 360));
}

#[test]
fn cie00_hue_diff_shortest_path() {
    // Within half a turn the raw difference is kept.
    assert_eq!(20, hue_diff(1, 1, 10, 30, 360));
    assert_eq!(-20, hue_diff(1, 1, 30, 10, 360));
    assert_eq!(180, hue_diff(1, 1, 0, 180, 360));
    // Across the wrap point the difference is moved by a full turn.
    assert_eq!(20, hue_diff(1, 1, 350, 10, 360));
    assert_eq!(-20, hue_diff(1, 1, 10, 350, 360));
    // A sample without chroma has no hue: the difference is defined as zero.
    assert_eq!(0, hue_diff(0, 1, 350, 10, 360));
    assert_eq!(0, hue_diff(1, 0, 350, 10, 360));
}

#[test]
fn cie00_hue_diff_antisymmetric_concrete() {
    for (h1, h2) in [(10, 30), (350, 10), (0, 180), (123, 321), (0, 0)] {
        assert_eq!(
            hue_diff(1, 1, h1, h2, 360),
            -hue_diff(1, 1, h2, h1, 360),
            "hues: {} {}",
            h1,
            h2
        );
    }
}

#[test]
fn cie00_hue_mean_values() {
    assert_eq!(20, hue_mean(10, 30, 360));
    assert_eq!(20, hue_mean(30, 10, 360));
    // Far-apart angles get pushed to the other side of the circle.
    assert_eq!(360, hue_mean(350, 10, 360));
    assert_eq!(360, hue_mean(10, 350, 360));
    assert_eq!(90, hue_mean(0, 180, 360));
}
