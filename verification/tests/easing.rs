use route_transitions::easing::Easing;

const CURVES: [Easing; 6] = [
    Easing::Linear,
    Easing::QuadIn,
    Easing::QuadOut,
    Easing::CubicIn,
    Easing::CubicOut,
    Easing::CubicInOut,
];

#[test]
fn every_curve_starts_at_nothing_and_ends_at_one() {
    for curve in CURVES {
        assert_eq!(curve.apply(0), 0);
        assert_eq!(curve.apply(1_000_000), 1_000_000);
    }
}

#[test]
fn times_outside_the_run_count_as_its_ends() {
    for curve in CURVES {
        assert_eq!(curve.apply(-5), 0);
        assert_eq!(curve.apply(i64::MIN), 0);
        assert_eq!(curve.apply(2_000_000), 1_000_000);
        assert_eq!(curve.apply(i64::MAX), 1_000_000);
    }
}

#[test]
fn every_curve_stays_between_its_ends() {
    for curve in CURVES {
        let mut t: i64 = 0;
        while t <= 1_000_000 {
            let e = curve.apply(t);
            assert!(0 <= e && e <= 1_000_000, "{:?} at {} gave {}", curve, t, e);
            t += 997;
        }
    }
}

#[test]
fn every_curve_rises() {
    for curve in CURVES {
        let mut last: i64 = 0;
        let mut t: i64 = 0;
        while t <= 1_000_000 {
            let e = curve.apply(t);
            assert!(e >= last, "{:?} falls at {}", curve, t);
            last = e;
            t += 1_009;
        }
    }
}

#[test]
fn linear_is_the_time_itself() {
    assert_eq!(Easing::Linear.apply(1), 1);
    assert_eq!(Easing::Linear.apply(250_000), 250_000);
    assert_eq!(Easing::Linear.apply(999_999), 999_999);
}

#[test]
fn quadratic_curves() {
    assert_eq!(Easing::QuadIn.apply(250_000), 62_500);
    assert_eq!(Easing::QuadIn.apply(500_000), 250_000);
    assert_eq!(Easing::QuadIn.apply(750_000), 562_500);
    assert_eq!(Easing::QuadIn.apply(999_999), 999_998);
    assert_eq!(Easing::QuadOut.apply(1), 2);
    assert_eq!(Easing::QuadOut.apply(250_000), 437_500);
    assert_eq!(Easing::QuadOut.apply(500_000), 750_000);
    assert_eq!(Easing::QuadOut.apply(750_000), 937_500);
}

#[test]
fn cubic_curves() {
    assert_eq!(Easing::CubicIn.apply(250_000), 15_625);
    assert_eq!(Easing::CubicIn.apply(500_000), 125_000);
    assert_eq!(Easing::CubicIn.apply(750_000), 421_875);
    assert_eq!(Easing::CubicIn.apply(999_999), 999_997);
    assert_eq!(Easing::CubicOut.apply(1), 3);
    assert_eq!(Easing::CubicOut.apply(250_000), 578_125);
    assert_eq!(Easing::CubicOut.apply(500_000), 875_000);
    assert_eq!(Easing::CubicOut.apply(750_000), 984_375);
}

#[test]
fn cubic_in_out_is_slow_at_both_ends() {
    assert_eq!(Easing::CubicInOut.apply(1), 0);
    assert_eq!(Easing::CubicInOut.apply(250_000), 62_500);
    assert_eq!(Easing::CubicInOut.apply(500_000), 500_000);
    assert_eq!(Easing::CubicInOut.apply(750_000), 937_500);
    assert_eq!(Easing::CubicInOut.apply(999_999), 1_000_000);
}

#[test]
fn default_curve_is_cubic_in_out() {
    assert_eq!(Easing::default(), Easing::CubicInOut);
}
