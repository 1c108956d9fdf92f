//! Tests of the grey fast path's segment choice.

use empfindung::to_lab_impls::{grey_segment, GreySegment};

#[test]
fn grey_segment_breakpoints() {
    assert_eq!(GreySegment::Linear, grey_segment(0));
    assert_eq!(GreySegment::Linear, grey_segment(10));
    assert_eq!(GreySegment::DarkPower, grey_segment(11));
    assert_eq!(GreySegment::DarkPower, grey_segment(23));
    assert_eq!(GreySegment::LightPower, grey_segment(24));
    assert_eq!(GreySegment::LightPower, grey_segment(255));
}

#[test]
fn grey_linear_breakpoint_is_exact() {
    // A signal is decoded linearly while it is at most 0.04045 of full
    // scale; on the 0..=255 scale the greys below the threshold are exactly
    // 0..=10.
    for grey in 0u64..=255 {
        let linear = 100_000 * grey <= 255 * 4045;
        assert_eq!(linear, grey <= 10, "grey: {}", grey);
    }
}
