use route_transitions::easing::Easing;
use route_transitions::model::{tween_at, MotionModel};
use route_transitions::motion::{add_time, Motion};

const HUNDRED: i64 = 100_000_000;

fn tween(duration_ms: u64, easing: Easing) -> MotionModel {
    MotionModel::Tween { duration_ms, easing }
}

#[test]
fn a_value_at_rest_does_not_run() {
    let mut m = Motion::new(7);
    assert!(!m.is_running());
    assert_eq!(m.value(), 7);
    assert_eq!(m.tick(1_000), 7);
    assert!(!m.is_running());
    assert_eq!(m, Motion::new(7));
}

#[test]
fn start_marks_running_and_resets_progress() {
    let mut m = Motion::new(7);
    m.start(0, HUNDRED, tween(300, Easing::Linear));
    assert!(m.is_running());
    assert_eq!(m.value(), 0);
    m.tick(150);
    assert_eq!(m.value(), 50_000_000);
    m.start(10, 20, tween(100, Easing::Linear));
    assert!(m.is_running());
    assert_eq!(m.value(), 10);
    assert_eq!(m.elapsed_ms, 0);
    assert_eq!(m.initial, 10);
    assert_eq!(m.target, 20);
}

#[test]
fn tween_tick_of_no_time_returns_initial() {
    let mut m = Motion::new(0);
    m.start(5, HUNDRED, tween(300, Easing::CubicInOut));
    assert_eq!(m.tick(0), 5);
    assert!(m.is_running());
}

#[test]
fn tween_at_duration_is_exactly_target_and_stops() {
    let mut m = Motion::new(0);
    m.start(0, HUNDRED, tween(300, Easing::CubicInOut));
    assert_eq!(m.tick(300), HUNDRED);
    assert!(!m.is_running());
}

#[test]
fn tween_reaches_target_by_cumulative_time() {
    let mut m = Motion::new(0);
    m.start(0, HUNDRED, tween(300, Easing::Linear));
    assert_eq!(m.tick(100), 33_333_300);
    assert!(m.is_running());
    assert_eq!(m.tick(100), 66_666_600);
    assert!(m.is_running());
    assert_eq!(m.tick(99), 99_666_600);
    assert!(m.is_running());
    assert_eq!(m.tick(1), HUNDRED);
    assert!(!m.is_running());
}

#[test]
fn tween_past_duration_does_not_overshoot() {
    let mut m = Motion::new(0);
    m.start(0, HUNDRED, tween(300, Easing::Linear));
    assert_eq!(m.tick(301), HUNDRED);
    assert!(!m.is_running());
    assert_eq!(m.tick(10_000), HUNDRED);
    assert_eq!(m.tick(u64::MAX), HUNDRED);
    assert!(!m.is_running());

    let mut far = Motion::new(0);
    far.start(0, HUNDRED, tween(300, Easing::Linear));
    assert_eq!(far.tick(u64::MAX), HUNDRED);
    assert!(!far.is_running());
}

#[test]
fn tween_of_no_duration_arrives_with_the_first_frame() {
    let mut m = Motion::new(0);
    m.start(3, 9, tween(0, Easing::Linear));
    assert!(m.is_running());
    assert_eq!(m.value(), 3);
    assert_eq!(m.tick(0), 9);
    assert!(!m.is_running());
}

#[test]
fn tween_follows_its_curve() {
    let at = |elapsed: u64| tween_at(0, HUNDRED, Easing::CubicInOut, elapsed, 300);
    assert_eq!(at(0), 0);
    assert_eq!(at(1), 0);
    assert_eq!(at(75), 6_250_000);
    assert_eq!(at(100), 14_814_400);
    assert_eq!(at(150), 50_000_000);
    assert_eq!(at(225), 93_750_000);
    assert_eq!(at(300), HUNDRED);
    assert_eq!(at(301), HUNDRED);
}

#[test]
fn tween_runs_downward_too() {
    let at = |elapsed: u64| tween_at(HUNDRED, -HUNDRED, Easing::Linear, elapsed, 400);
    assert_eq!(at(0), HUNDRED);
    assert_eq!(at(1), 99_500_000);
    assert_eq!(at(100), 50_000_000);
    assert_eq!(at(200), 0);
    assert_eq!(at(399), -99_500_000);
    assert_eq!(at(400), -HUNDRED);
    let out = |elapsed: u64| tween_at(0, -1_000_000, Easing::QuadOut, elapsed, 1_000);
    assert_eq!(out(1), -1_999);
    assert_eq!(out(333), -555_111);
    assert_eq!(out(500), -750_000);
    assert_eq!(out(999), -999_999);
}

#[test]
fn tween_never_leaves_the_stretch_between_its_ends() {
    let curves = [
        Easing::Linear,
        Easing::QuadIn,
        Easing::QuadOut,
        Easing::CubicIn,
        Easing::CubicOut,
        Easing::CubicInOut,
    ];
    for curve in curves {
        for (a, b) in [(0, HUNDRED), (HUNDRED, -HUNDRED), (i64::MIN, i64::MAX), (i64::MAX, i64::MIN)] {
            let (lo, hi) = if a <= b { (a, b) } else { (b, a) };
            let mut elapsed: u64 = 0;
            while elapsed <= 1_000 {
                let v = tween_at(a, b, curve, elapsed, 997);
                assert!(lo <= v && v <= hi);
                elapsed += 13;
            }
        }
    }
}

#[test]
fn tween_does_not_depend_on_how_time_is_cut() {
    let mut one = Motion::new(0);
    one.start(0, HUNDRED, tween(1_000, Easing::CubicOut));
    let mut many = one;
    one.tick(640);
    for _ in 0..40 {
        many.tick(16);
    }
    assert_eq!(one, many);
    assert_eq!(one.value(), tween_at(0, HUNDRED, Easing::CubicOut, 640, 1_000));
}

#[test]
fn time_adds_up_to_the_largest_time_at_most() {
    assert_eq!(add_time(1, 2), 3);
    assert_eq!(add_time(u64::MAX, 1), u64::MAX);
    assert_eq!(add_time(u64::MAX - 1, 1), u64::MAX);
    assert_eq!(add_time(u64::MAX / 2 + 1, u64::MAX / 2 + 1), u64::MAX);
}
