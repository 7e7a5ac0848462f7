//! Interpolation instances: one value on its way to a target, advanced frame
//! by frame until its model reports that it has arrived.

use vstd::prelude::*;
use crate::easing::Easing;
use crate::fixed::clamp;
use crate::model::{
    between, lemma_spring_stays, lemma_tween_value_between, step_length, tween_at, tween_value,
    MotionModel, Spring, SETTLE_EPSILON,
};

verus! {

/// The sum of two times, held to the largest time there is.
pub open spec fn time_sum(a: u64, b: u64) -> u64 {
    clamp(a + b, 0, u64::MAX as int) as u64
}

/// Adds two times; a sum too large to hold is the largest time.
pub fn add_time(a: u64, b: u64) -> (sum: u64)
    ensures
        sum == time_sum(a, b),
{
    if b > u64::MAX - a {
        u64::MAX
    } else {
        a + b
    }
}

/// One value on its way from `initial` to `target`.
#[derive(Clone, Copy, Debug, PartialEq, Eq, Structural)]
pub struct Motion {
    /// Where the value started.
    pub initial: i64,
    /// Where it is going.
    pub target: i64,
    /// Where it is now.
    pub current: i64,
    /// How fast it moves, in millionths per second; only a spring has a speed.
    pub velocity: i64,
    /// The time since the start, in milliseconds.
    pub elapsed_ms: u64,
    /// How it travels.
    pub model: MotionModel,
    /// Whether it is still on its way.
    pub running: bool,
}

impl Motion {
    /// A value at rest.
    pub open spec fn resting(value: i64) -> Motion {
        Motion {
            initial: value,
            target: value,
            current: value,
            velocity: 0,
            elapsed_ms: 0,
            model: MotionModel::Tween { duration_ms: 0, easing: Easing::CubicInOut },
            running: false,
        }
    }

    /// A value that has just set out from `initial` for `target`.
    pub open spec fn started(initial: i64, target: i64, model: MotionModel) -> Motion {
        Motion {
            initial,
            target,
            current: initial,
            velocity: match model {
                MotionModel::Tween { .. } => 0,
                MotionModel::Spring(spring) => spring.velocity,
            },
            elapsed_ms: 0,
            model,
            running: true,
        }
    }

    /// The motion once it has arrived, `elapsed` milliseconds after the start.
    pub open spec fn arrived(self, elapsed: u64) -> Motion {
        Motion { current: self.target, velocity: 0, elapsed_ms: elapsed, running: false, ..self }
    }

    /// The motion a frame of `elapsed` milliseconds later. A motion that has
    /// arrived stays as it is. A tween takes the value that belongs to the
    /// whole time gone, and arrives when its time is up. A spring makes one
    /// step, and arrives when the step leaves it settled.
    pub open spec fn ticked(self, elapsed: u64) -> Motion {
        if !self.running {
            self
        } else {
            let total = time_sum(self.elapsed_ms, elapsed);
            match self.model {
                MotionModel::Tween { duration_ms, easing } => {
                    if total >= duration_ms {
                        self.arrived(total)
                    } else {
                        Motion {
                            current: tween_value(
                                self.initial,
                                self.target,
                                easing,
                                total as int,
                                duration_ms as int,
                            ) as i64,
                            elapsed_ms: total,
                            ..self
                        }
                    }
                },
                MotionModel::Spring(spring) => {
                    let dt = step_length(elapsed);
                    let velocity = spring.next_velocity(
                        self.current,
                        self.target,
                        self.velocity,
                        dt,
                    );
                    let value = Spring::next_value(self.current, velocity, dt);
                    if Spring::is_settled(value, self.target as int, velocity) {
                        self.arrived(total)
                    } else {
                        Motion {
                            current: value as i64,
                            velocity: velocity as i64,
                            elapsed_ms: total,
                            ..self
                        }
                    }
                },
            }
        }
    }

    /// A motion that is not running rests on its target.
    pub open spec fn wf(self) -> bool {
        !self.running ==> self.current == self.target && self.velocity == 0
    }

    /// A value at rest.
    pub fn new(value: i64) -> (m: Motion)
        ensures
            m == Motion::resting(value),
            m.wf(),
    {
        Motion {
            initial: value,
            target: value,
            current: value,
            velocity: 0,
            elapsed_ms: 0,
            model: MotionModel::Tween { duration_ms: 0, easing: Easing::CubicInOut },
            running: false,
        }
    }

    /// Sets the value out from `initial` for `target`. Whatever progress
    /// there was is gone, and the motion is running.
    pub fn start(&mut self, initial: i64, target: i64, model: MotionModel)
        ensures
            *final(self) == Motion::started(initial, target, model),
            final(self).wf(),
    {
        let velocity: i64 = match model {
            MotionModel::Tween { .. } => 0,
            MotionModel::Spring(spring) => spring.velocity,
        };
        *self = Motion {
            initial,
            target,
            current: initial,
            velocity,
            elapsed_ms: 0,
            model,
            running: true,
        };
    }

    /// Advances the motion by a frame of `elapsed_ms` milliseconds and
    /// returns the new value.
    pub fn tick(&mut self, elapsed_ms: u64) -> (value: i64)
        ensures
            *final(self) == old(self).ticked(elapsed_ms),
            value == final(self).current,
            old(self).wf() ==> final(self).wf(),
    {
        if !self.running {
            return self.current;
        }
        let total: u64 = add_time(self.elapsed_ms, elapsed_ms);
        self.elapsed_ms = total;
        match self.model {
            MotionModel::Tween { duration_ms, easing } => {
                if total >= duration_ms {
                    self.current = self.target;
                    self.velocity = 0;
                    self.running = false;
                } else {
                    self.current = tween_at(self.initial, self.target, easing, total, duration_ms);
                }
            },
            MotionModel::Spring(spring) => {
                let next: (i64, i64) = spring.step(
                    self.current,
                    self.target,
                    self.velocity,
                    elapsed_ms,
                );
                if near(next.0, self.target) && near(next.1, 0) {
                    self.current = self.target;
                    self.velocity = 0;
                    self.running = false;
                } else {
                    self.current = next.0;
                    self.velocity = next.1;
                }
            },
        }
        self.current
    }

    /// Puts the value on its target and stops it, wherever it was.
    pub fn finish(&mut self)
        ensures
            *final(self) == old(self).arrived(old(self).elapsed_ms),
            final(self).wf(),
            !final(self).running,
            old(self).wf() && !old(self).running ==> *final(self) == *old(self),
    {
        self.current = self.target;
        self.velocity = 0;
        self.running = false;
    }

    /// Whether the value is still on its way.
    pub fn is_running(&self) -> (running: bool)
        ensures
            running == self.running,
    {
        self.running
    }

    /// The value as it is now.
    pub fn value(&self) -> (value: i64)
        ensures
            value == self.current,
    {
        self.current
    }
}

/// Whether two numbers differ by less than the settling distance.
pub fn near(a: i64, b: i64) -> (close: bool)
    ensures
        close == (-SETTLE_EPSILON < a - b < SETTLE_EPSILON),
{
    let difference: i128 = a as i128 - b as i128;
    -(SETTLE_EPSILON as i128) < difference && difference < SETTLE_EPSILON as i128
}

/// The whole time that a run of frames covers, in milliseconds.
pub open spec fn total_time(frames: Seq<u64>) -> int
    decreases frames.len(),
{
    if frames.len() == 0 {
        0
    } else {
        total_time(frames.drop_last()) + frames.last()
    }
}

impl Motion {
    /// The motion after a run of frames, each advancing it in turn.
    pub open spec fn ticked_all(self, frames: Seq<u64>) -> Motion
        decreases frames.len(),
    {
        if frames.len() == 0 {
            self
        } else {
            self.ticked_all(frames.drop_last()).ticked(frames.last())
        }
    }
}

/// A tween depends on the whole time gone and on nothing else: after any run
/// of frames, at least one, its value is the value of the curve at the time
/// they add up to, however the time was cut into frames, and it is running
/// exactly while that time is under its duration. So it is never outside the
/// stretch from its start to its target; once the frames add up to the
/// duration or more it is on the target and has stopped; and a first frame of
/// no time leaves a tween of some duration where it started.
pub proof fn lemma_tween_boundary(
    initial: i64,
    target: i64,
    duration_ms: u64,
    easing: Easing,
    frames: Seq<u64>,
)
    requires
        frames.len() > 0,
    ensures
        ({
            let model = MotionModel::Tween { duration_ms, easing };
            let motion = Motion::started(initial, target, model).ticked_all(frames);
            &&& motion.current == tween_value(
                initial,
                target,
                easing,
                total_time(frames),
                duration_ms as int,
            )
            &&& motion.running == (total_time(frames) < duration_ms)
            &&& between(motion.current as int, initial as int, target as int)
            &&& total_time(frames) >= duration_ms ==> motion.current == target
            &&& total_time(frames) == 0 && duration_ms > 0 ==> motion.current == initial
            &&& motion.wf()
        }),
{
    lemma_tween_progress(initial, target, duration_ms, easing, frames);
    lemma_total_time_nonnegative(frames);
    lemma_tween_value_between(initial, target, easing, total_time(frames), duration_ms as int);
}

/// The time that frames cover is never negative.
pub proof fn lemma_total_time_nonnegative(frames: Seq<u64>)
    ensures
        total_time(frames) >= 0,
    decreases frames.len(),
{
    if frames.len() > 0 {
        lemma_total_time_nonnegative(frames.drop_last());
    }
}

/// What a tween keeps from frame to frame: its ends and its model; while it
/// runs, the time gone; and from the first frame on, the value of the curve.
proof fn lemma_tween_progress(
    initial: i64,
    target: i64,
    duration_ms: u64,
    easing: Easing,
    frames: Seq<u64>,
)
    ensures
        ({
            let model = MotionModel::Tween { duration_ms, easing };
            let motion = Motion::started(initial, target, model).ticked_all(frames);
            &&& motion.initial == initial
            &&& motion.target == target
            &&& motion.model == model
            &&& motion.running ==> motion.elapsed_ms == total_time(frames)
            &&& motion.running == (frames.len() == 0 || total_time(frames) < duration_ms)
            &&& frames.len() > 0 ==> motion.current == tween_value(
                initial,
                target,
                easing,
                total_time(frames),
                duration_ms as int,
            )
            &&& motion.wf()
        }),
    decreases frames.len(),
{
    lemma_total_time_nonnegative(frames);
    if frames.len() > 0 {
        let earlier = frames.drop_last();
        lemma_tween_progress(initial, target, duration_ms, easing, earlier);
        lemma_total_time_nonnegative(earlier);
        lemma_tween_value_between(initial, target, easing, total_time(frames), duration_ms as int);
        lemma_tween_value_between(initial, target, easing, total_time(earlier), duration_ms as int);
    }
}

/// No frame changes where a motion started, where it is going or how it
/// travels, and a motion that rests on its target when it stops keeps doing so.
pub proof fn lemma_ends_kept(motion: Motion, frames: Seq<u64>)
    ensures
        motion.ticked_all(frames).initial == motion.initial,
        motion.ticked_all(frames).target == motion.target,
        motion.ticked_all(frames).model == motion.model,
        motion.wf() ==> motion.ticked_all(frames).wf(),
    decreases frames.len(),
{
    if frames.len() > 0 {
        lemma_ends_kept(motion, frames.drop_last());
    }
}

/// A spring set out at rest on its target arrives with the first frame, and
/// a frame of no time leaves a spring that has not settled where it is.
pub proof fn lemma_spring_rest(spring: Spring, value: i64, initial: i64, target: i64, elapsed: u64)
    requires
        spring.velocity == 0,
    ensures
        ({
            let model = MotionModel::Spring(spring);
            let rested = Motion::started(value, value, model).ticked(elapsed);
            let paused = Motion::started(initial, target, model).ticked(0);
            &&& !rested.running
            &&& rested.current == value
            &&& paused.current == (if Spring::is_settled(initial as int, target as int, 0) {
                target
            } else {
                initial
            })
            &&& paused.running == !Spring::is_settled(initial as int, target as int, 0)
        }),
{
    lemma_spring_stays(spring, initial, target, 0, step_length(elapsed));
    lemma_spring_stays(spring, value, value, 0, step_length(elapsed));
}

/// A motion that has arrived is not moved by any further frame.
pub proof fn lemma_arrived_stays(motion: Motion, frames: Seq<u64>)
    requires
        !motion.running,
    ensures
        motion.ticked_all(frames) == motion,
    decreases frames.len(),
{
    if frames.len() > 0 {
        lemma_arrived_stays(motion, frames.drop_last());
    }
}

} // verus!
