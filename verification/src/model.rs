//! Motion models: how a value travels from where it starts to its target,
//! either in a fixed time along an easing curve or as a damped spring.

use vstd::prelude::*;
use crate::easing::{lemma_curve_bounds, Easing};
use crate::fixed::{clamp, div_toward_zero, trunc_div, UNIT};

verus! {

/// The longest time, in milliseconds, that one step of a spring covers: a
/// longer frame counts as this long.
pub const MAX_STEP_MS: u64 = 64;

/// A spring has settled when it is nearer than this to its target and slower
/// than this, in millionths (per second).
pub const SETTLE_EPSILON: i64 = 1_000;

/// A damped spring. Stiffness, damping and mass are in thousandths, the
/// velocity it starts with in millionths per second. A mass of nothing counts
/// as the smallest mass there is.
#[derive(Clone, Copy, Debug, PartialEq, Eq, Structural)]
pub struct Spring {
    pub stiffness: u32,
    pub damping: u32,
    pub mass: u32,
    pub velocity: i64,
}

/// How a value travels to its target.
#[derive(Clone, Copy, Debug, PartialEq, Eq, Structural)]
pub enum MotionModel {
    /// Arrives after `duration_ms` milliseconds, along `easing`.
    Tween { duration_ms: u64, easing: Easing },
    /// Is pulled to the target by a damped spring.
    Spring(Spring),
}

impl Spring {
    /// The mass that the spring moves: at least the smallest one.
    pub open spec fn moved_mass(self) -> int {
        if self.mass == 0 {
            1
        } else {
            self.mass as int
        }
    }

    /// The velocity after a step of `dt` milliseconds at `current` with
    /// `velocity`: the force is the pull toward `target` less the damping,
    /// and the velocity gains the acceleration times the step.
    pub open spec fn next_velocity(self, current: i64, target: i64, velocity: i64, dt: int) -> int {
        let force = -(self.stiffness * (current - target) + self.damping * velocity);
        clamp(
            velocity + trunc_div(force * dt, self.moved_mass() * 1000),
            i64::MIN as int,
            i64::MAX as int,
        )
    }

    /// The value after a step of `dt` milliseconds at the new velocity.
    pub open spec fn next_value(current: i64, velocity: int, dt: int) -> int {
        clamp(current + trunc_div(velocity * dt, 1000), i64::MIN as int, i64::MAX as int)
    }

    /// Whether a spring at `current` with `velocity` has settled on `target`.
    pub open spec fn is_settled(current: int, target: int, velocity: int) -> bool {
        &&& -SETTLE_EPSILON < current - target < SETTLE_EPSILON
        &&& -SETTLE_EPSILON < velocity < SETTLE_EPSILON
    }

    /// A spring from its constants.
    pub fn new(stiffness: u32, damping: u32, mass: u32, velocity: i64) -> (s: Spring)
        ensures
            s == (Spring { stiffness, damping, mass, velocity }),
    {
        Spring { stiffness, damping, mass, velocity }
    }

    /// The spring that page transitions use: stiffness 160, damping 20,
    /// mass 1.5, starting from rest.
    pub open spec fn page_spring() -> Spring {
        Spring { stiffness: 160_000, damping: 20_000, mass: 1_500, velocity: 0 }
    }

    /// The spring that page transitions use.
    pub fn preset() -> (s: Spring)
        ensures
            s == Spring::page_spring(),
    {
        Spring { stiffness: 160_000, damping: 20_000, mass: 1_500, velocity: 0 }
    }

    /// One step of the spring: the new velocity and the new value.
    pub fn step(&self, current: i64, target: i64, velocity: i64, elapsed_ms: u64) -> (next: (
        i64,
        i64,
    ))
        ensures
            next.1 == self.next_velocity(current, target, velocity, step_length(elapsed_ms)),
            next.0 == Spring::next_value(current, next.1 as int, step_length(elapsed_ms)),
    {
        let dt: i128 = if elapsed_ms > MAX_STEP_MS {
            MAX_STEP_MS as i128
        } else {
            elapsed_ms as i128
        };
        let mass: i128 = if self.mass == 0 {
            1
        } else {
            self.mass as i128
        };
        let k: i128 = self.stiffness as i128;
        let c: i128 = self.damping as i128;
        let d: i128 = current as i128 - target as i128;
        let v: i128 = velocity as i128;
        proof {
            lemma_product_bounded(k as int, d as int, 0x1_0000_0000, 0x1_0000_0000_0000_0000);
            lemma_product_bounded(c as int, v as int, 0x1_0000_0000, 0x1_0000_0000_0000_0000);
        }
        let pull: i128 = k * d;
        let drag: i128 = c * v;
        let force: i128 = -(pull + drag);
        proof {
            lemma_product_bounded(
                dt as int,
                force as int,
                64,
                0x2_0000_0000_0000_0000_0000_0000,
            );
            assert(force * dt == dt * force) by (nonlinear_arith);
        }
        let gain: i128 = div_toward_zero(force * dt, mass * 1000);
        proof {
            lemma_trunc_div_bounded(force * dt, mass * 1000);
        }
        let new_velocity: i64 = clamp_to_i64(v + gain);
        proof {
            lemma_product_bounded(dt as int, new_velocity as int, 64, 0x1_0000_0000_0000_0000);
            assert(new_velocity * dt == dt * new_velocity) by (nonlinear_arith);
        }
        let travel: i128 = div_toward_zero(new_velocity as i128 * dt, 1000);
        proof {
            lemma_trunc_div_bounded(new_velocity * dt, 1000);
        }
        let new_value: i64 = clamp_to_i64(current as i128 + travel);
        (new_value, new_velocity)
    }
}

/// The fraction of the time gone after `elapsed` of `duration`, in millionths.
pub open spec fn time_fraction(elapsed: int, duration: int) -> int {
    (elapsed * UNIT) / duration
}

/// The value of a tween from `initial` to `target` after `elapsed` of
/// `duration` milliseconds: the target once the time is up, and before that
/// the part of the way that the easing curve gives for the time gone.
pub open spec fn tween_value(
    initial: i64,
    target: i64,
    easing: Easing,
    elapsed: int,
    duration: int,
) -> int {
    if elapsed >= duration {
        target as int
    } else {
        initial + trunc_div(
            (target - initial) * easing.eased(time_fraction(elapsed, duration)),
            UNIT as int,
        )
    }
}

/// Whether `value` lies between `a` and `b`, ends included, whichever is larger.
pub open spec fn between(value: int, a: int, b: int) -> bool {
    (a <= value <= b) || (b <= value <= a)
}

/// The value of a tween after `elapsed_ms` of `duration_ms` milliseconds.
pub fn tween_at(initial: i64, target: i64, easing: Easing, elapsed_ms: u64, duration_ms: u64) -> (value: i64)
    ensures
        value == tween_value(initial, target, easing, elapsed_ms as int, duration_ms as int),
        between(value as int, initial as int, target as int),
        elapsed_ms >= duration_ms ==> value == target,
        elapsed_ms == 0 && duration_ms > 0 ==> value == initial,
{
    if elapsed_ms >= duration_ms {
        return target;
    }
    proof {
        lemma_time_fraction_bounded(elapsed_ms as int, duration_ms as int);
    }
    let scaled: u128 = elapsed_ms as u128 * 1_000_000;
    let fraction: i64 = (scaled / duration_ms as u128) as i64;
    let eased: i64 = easing.apply(fraction);
    let distance: i128 = target as i128 - initial as i128;
    proof {
        lemma_part_of_distance(distance as int, eased as int);
        lemma_product_bounded(distance as int, eased as int, 0x1_0000_0000_0000_0000, 1_000_000);
    }
    let part: i128 = div_toward_zero(distance * eased as i128, 1_000_000);
    (initial as i128 + part) as i64
}

/// Before the time is up the fraction of the time gone is under one unit, and
/// it is nothing when no time has gone.
pub proof fn lemma_time_fraction_bounded(elapsed: int, duration: int)
    requires
        0 <= elapsed < duration,
    ensures
        0 <= time_fraction(elapsed, duration) < UNIT,
        0 <= elapsed * UNIT,
        time_fraction(0, duration) == 0,
{
    let n = elapsed * 1_000_000;
    assert(0 <= n < duration * 1_000_000) by (nonlinear_arith)
        requires
            0 <= elapsed < duration,
            n == elapsed * 1_000_000,
    ;
    assert(0 <= n / duration < 1_000_000) by (nonlinear_arith)
        requires
            0 <= n < duration * 1_000_000,
            duration > 0,
    ;
    assert(0int / duration == 0) by (nonlinear_arith)
        requires
            duration > 0,
    ;
}

/// A fraction of a distance is no longer than the distance and points the
/// same way; none of it is nothing, all of it is the distance.
pub proof fn lemma_part_of_distance(distance: int, fraction: int)
    requires
        0 <= fraction <= UNIT,
    ensures
        distance >= 0 ==> 0 <= trunc_div(distance * fraction, UNIT as int) <= distance,
        distance <= 0 ==> distance <= trunc_div(distance * fraction, UNIT as int) <= 0,
        trunc_div(distance * 0, UNIT as int) == 0,
        trunc_div(distance * UNIT, UNIT as int) == distance,
{
    let p = distance * fraction;
    if distance >= 0 {
        assert(0 <= p <= distance * 1_000_000) by (nonlinear_arith)
            requires
                p == distance * fraction,
                distance >= 0,
                0 <= fraction <= 1_000_000,
        ;
        assert(0 <= p / 1_000_000 <= distance) by (nonlinear_arith)
            requires
                0 <= p <= distance * 1_000_000,
        ;
    } else {
        let m = -p;
        assert(0 <= m <= (-distance) * 1_000_000) by (nonlinear_arith)
            requires
                m == -(distance * fraction),
                distance < 0,
                0 <= fraction <= 1_000_000,
        ;
        assert(0 <= m / 1_000_000 <= -distance) by (nonlinear_arith)
            requires
                0 <= m <= (-distance) * 1_000_000,
        ;
    }
    assert(distance * 0 == 0);
    let w = distance * 1_000_000;
    if distance >= 0 {
        assert(w / 1_000_000 == distance) by (nonlinear_arith)
            requires
                w == distance * 1_000_000,
        ;
    } else {
        assert((-w) / 1_000_000 == -distance) by (nonlinear_arith)
            requires
                w == distance * 1_000_000,
        ;
    }
}

/// A tween never leaves the stretch between where it started and its target:
/// it does not overshoot. With no time gone it is where it started, and once
/// its time is up it is on its target.
pub proof fn lemma_tween_value_between(
    initial: i64,
    target: i64,
    easing: Easing,
    elapsed: int,
    duration: int,
)
    requires
        0 <= elapsed,
    ensures
        between(
            tween_value(initial, target, easing, elapsed, duration),
            initial as int,
            target as int,
        ),
        elapsed >= duration ==> tween_value(initial, target, easing, elapsed, duration) == target,
        duration > 0 ==> tween_value(initial, target, easing, 0, duration) == initial,
{
    if elapsed < duration {
        lemma_time_fraction_bounded(elapsed, duration);
        let fraction = time_fraction(elapsed, duration);
        lemma_curve_bounds(easing, fraction);
        lemma_part_of_distance(target - initial, easing.eased(fraction));
    }
    if duration > 0 {
        lemma_time_fraction_bounded(0, duration);
        lemma_curve_bounds(easing, 0);
        lemma_part_of_distance(target - initial, 0);
    }
}

/// A spring that rests on its target stays there, whatever its constants and
/// however long the step; and a step of no time moves no spring.
pub proof fn lemma_spring_stays(spring: Spring, current: i64, target: i64, velocity: i64, dt: int)
    requires
        0 <= dt,
    ensures
        spring.next_velocity(target, target, 0, dt) == 0,
        Spring::next_value(target, 0, dt) == target,
        Spring::is_settled(target as int, target as int, 0),
        spring.next_velocity(current, target, velocity, 0) == velocity,
        Spring::next_value(current, velocity as int, 0) == current,
{
    let force = -(spring.stiffness * (current - target) + spring.damping * velocity);
    assert(force * 0 == 0);
    assert(velocity * 0 == 0);
    assert(spring.stiffness * (target - target) == 0);
    assert(spring.damping * 0 == 0);
    assert(0 * dt == 0);
    assert(0int / (spring.moved_mass() * 1000) == 0) by (nonlinear_arith)
        requires
            spring.moved_mass() * 1000 > 0,
    ;
}

/// The time that one step of a spring covers for a frame of `elapsed_ms`.
pub open spec fn step_length(elapsed_ms: u64) -> int {
    if elapsed_ms > MAX_STEP_MS {
        MAX_STEP_MS as int
    } else {
        elapsed_ms as int
    }
}

/// Holds a number to what an `i64` can take.
pub fn clamp_to_i64(x: i128) -> (r: i64)
    ensures
        r == clamp(x as int, i64::MIN as int, i64::MAX as int),
{
    if x < i64::MIN as i128 {
        i64::MIN
    } else if x > i64::MAX as i128 {
        i64::MAX
    } else {
        x as i64
    }
}

/// A product is no larger than the product of the bounds of its factors.
pub proof fn lemma_product_bounded(a: int, b: int, bound_a: int, bound_b: int)
    requires
        -bound_a <= a <= bound_a,
        -bound_b <= b <= bound_b,
    ensures
        -(bound_a * bound_b) <= a * b <= bound_a * bound_b,
{
    assert(-(bound_a * bound_b) <= a * b <= bound_a * bound_b) by (nonlinear_arith)
        requires
            -bound_a <= a <= bound_a,
            -bound_b <= b <= bound_b,
    ;
}

/// A quotient rounded toward zero is no larger than what was divided, and
/// has its sign.
pub proof fn lemma_trunc_div_bounded(a: int, d: int)
    requires
        d > 0,
    ensures
        a >= 0 ==> 0 <= trunc_div(a, d) <= a,
        a <= 0 ==> a <= trunc_div(a, d) <= 0,
{
    if a >= 0 {
        assert(0 <= a / d <= a) by (nonlinear_arith)
            requires
                a >= 0,
                d > 0,
        ;
    } else {
        let b = -a;
        assert(0 <= b / d <= b) by (nonlinear_arith)
            requires
                b >= 0,
                d > 0,
        ;
    }
}

} // verus!
