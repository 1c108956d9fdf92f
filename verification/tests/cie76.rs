//! Tests of the exact CIE76 difference engine.

use empfindung::cie76::diff;
use empfindung::Lab;

/// Converts a triple of L*a*b* coordinates into thousandths of a unit.
fn milli(c: (f32, f32, f32)) -> Lab {
    Lab {
        l: (c.0 * 1000.0).round() as i64,
        a: (c.1 * 1000.0).round() as i64,
        b: (c.2 * 1000.0).round() as i64,
    }
}

/// Converts a difference in thousandths back into units.
fn units(d: u64) -> f32 {
    d as f32 / 1000.0
}

#[test]
fn cie76_test_difference() {
    let tests: [(f32, (f32, f32, f32), (f32, f32, f32)); 6] = [
        (5.0, (0.0, 0.0, 0.0), (3.0, 4.0, 0.0)),
        (5.0, (0.0, 0.0, 0.0), (3.0, -4.0, 0.0)),
        (5.0, (0.0, 0.0, 0.0), (-3.0, 4.0, 0.0)),
        (5.0, (0.0, 4.0, 0.0), (3.0, 0.0, 0.0)),
        (5.0, (0.0, 2.0, 0.0), (3.0, -2.0, 0.0)),
        (97.0, (0.0, 0.0, 0.0), (0.0, 65.0, -72.0)),
    ];
    for (want, colour_1, colour_2) in tests.iter() {
        let got = units(diff(&milli(*colour_1), &milli(*colour_2)));
        assert_eq!(*want, got, "colours: {:?}, {:?}", colour_1, colour_2);
    }
}

#[test]
fn cie76_test_zero() {
    // A deterministic sweep standing in for sampled colours: the difference
    // of every sample with itself must be exactly zero.
    let mut x: i64 = 12345;
    for _ in 0..1000 {
        x = (x.wrapping_mul(1103515245).wrapping_add(12347)) % 100_000_000;
        let c = Lab {
            l: x % 100_000,
            a: (x / 3) % 100_000 - 50_000,
            b: (x / 7) % 100_000 - 50_000,
        };
        assert_eq!(0, diff(&c, &c));
    }
}

#[test]
fn cie76_test_symmetric() {
    // A deterministic sweep of pairs: the difference must not depend on the
    // order of its arguments.
    let mut x: i64 = 98765;
    let mut prev = Lab { l: 0, a: 0, b: 0 };
    for _ in 0..1000 {
        x = (x.wrapping_mul(1103515245).wrapping_add(12347)) % 100_000_000;
        let c = Lab {
            l: x % 100_000,
            a: (x / 3) % 100_000 - 50_000,
            b: (x / 7) % 100_000 - 50_000,
        };
        assert_eq!(diff(&prev, &c), diff(&c, &prev));
        prev = c;
    }
}

#[test]
fn cie76_representations_agree() {
    // The same coordinates give the same difference whatever representation
    // carried them.
    let as_record = Lab { l: 38_972, a: 58_991, b: 37_138 };
    let as_tuple = (38_972i64, 58_991i64, 37_138i64);
    let as_array = [38_972i64, 58_991i64, 37_138i64];
    let target = Lab { l: 54_528, a: 42_416, b: 54_497 };
    let want = diff(&as_record, &target);
    assert_eq!(want, diff(&as_tuple, &target));
    assert_eq!(want, diff(&as_array, &target));
}

#[test]
fn cie76_end_to_end_milli() {
    // The end-to-end sample pair, in thousandths: 28.601656 units to f32
    // precision means 28601 thousandths once rounded down.
    let colour_1 = Lab { l: 38_972, a: 58_991, b: 37_138 };
    let colour_2 = Lab { l: 54_528, a: 42_416, b: 54_497 };
    assert_eq!(28_601, diff(&colour_1, &colour_2));
}
