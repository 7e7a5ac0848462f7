//! A transform on its way to a target: its four parts move side by side,
//! each as a motion of its own under the same model.

use vstd::prelude::*;
use crate::model::MotionModel;
use crate::motion::Motion;
use crate::transform::Transform;

verus! {

/// A transform on its way to a target.
#[derive(Clone, Copy, Debug, PartialEq, Eq, Structural)]
pub struct TransformMotion {
    pub x: Motion,
    pub y: Motion,
    pub scale: Motion,
    pub rotation: Motion,
}

impl TransformMotion {
    /// A transform at rest.
    pub open spec fn resting(value: Transform) -> TransformMotion {
        TransformMotion {
            x: Motion::resting(value.x),
            y: Motion::resting(value.y),
            scale: Motion::resting(value.scale),
            rotation: Motion::resting(value.rotation),
        }
    }

    /// A transform that has just set out from `initial` for `target`.
    pub open spec fn started(
        initial: Transform,
        target: Transform,
        model: MotionModel,
    ) -> TransformMotion {
        TransformMotion {
            x: Motion::started(initial.x, target.x, model),
            y: Motion::started(initial.y, target.y, model),
            scale: Motion::started(initial.scale, target.scale, model),
            rotation: Motion::started(initial.rotation, target.rotation, model),
        }
    }

    /// The motion a frame of `elapsed` milliseconds later.
    pub open spec fn ticked(self, elapsed: u64) -> TransformMotion {
        TransformMotion {
            x: self.x.ticked(elapsed),
            y: self.y.ticked(elapsed),
            scale: self.scale.ticked(elapsed),
            rotation: self.rotation.ticked(elapsed),
        }
    }

    /// The motion after a run of frames, each advancing it in turn.
    pub open spec fn ticked_all(self, frames: Seq<u64>) -> TransformMotion {
        TransformMotion {
            x: self.x.ticked_all(frames),
            y: self.y.ticked_all(frames),
            scale: self.scale.ticked_all(frames),
            rotation: self.rotation.ticked_all(frames),
        }
    }

    /// The motion with every part put on its target and stopped.
    pub open spec fn finished(self) -> TransformMotion {
        TransformMotion {
            x: self.x.arrived(self.x.elapsed_ms),
            y: self.y.arrived(self.y.elapsed_ms),
            scale: self.scale.arrived(self.scale.elapsed_ms),
            rotation: self.rotation.arrived(self.rotation.elapsed_ms),
        }
    }

    /// The transform as it is now.
    pub open spec fn current(self) -> Transform {
        Transform {
            x: self.x.current,
            y: self.y.current,
            scale: self.scale.current,
            rotation: self.rotation.current,
        }
    }

    /// The transform it is going to.
    pub open spec fn target(self) -> Transform {
        Transform {
            x: self.x.target,
            y: self.y.target,
            scale: self.scale.target,
            rotation: self.rotation.target,
        }
    }

    /// Whether any part is still on its way.
    pub open spec fn running(self) -> bool {
        self.x.running || self.y.running || self.scale.running || self.rotation.running
    }

    /// Every part that is not running rests on its target.
    pub open spec fn wf(self) -> bool {
        self.x.wf() && self.y.wf() && self.scale.wf() && self.rotation.wf()
    }

    /// A transform at rest.
    pub fn new(value: Transform) -> (m: TransformMotion)
        ensures
            m == TransformMotion::resting(value),
            m.wf(),
            !m.running(),
            m.current() == value,
    {
        TransformMotion {
            x: Motion::new(value.x),
            y: Motion::new(value.y),
            scale: Motion::new(value.scale),
            rotation: Motion::new(value.rotation),
        }
    }

    /// Sets the transform out from `initial` for `target`. Whatever progress
    /// there was is gone, and every part is running.
    pub fn start(&mut self, initial: Transform, target: Transform, model: MotionModel)
        ensures
            *final(self) == TransformMotion::started(initial, target, model),
            final(self).wf(),
            final(self).running(),
            final(self).current() == initial,
            final(self).target() == target,
    {
        self.x.start(initial.x, target.x, model);
        self.y.start(initial.y, target.y, model);
        self.scale.start(initial.scale, target.scale, model);
        self.rotation.start(initial.rotation, target.rotation, model);
    }

    /// Advances every part by a frame of `elapsed_ms` milliseconds and
    /// returns the new transform.
    pub fn tick(&mut self, elapsed_ms: u64) -> (value: Transform)
        ensures
            *final(self) == old(self).ticked(elapsed_ms),
            value == final(self).current(),
            old(self).wf() ==> final(self).wf(),
    {
        let x: i64 = self.x.tick(elapsed_ms);
        let y: i64 = self.y.tick(elapsed_ms);
        let scale: i64 = self.scale.tick(elapsed_ms);
        let rotation: i64 = self.rotation.tick(elapsed_ms);
        Transform { x, y, scale, rotation }
    }

    /// Puts the transform on its target and stops it, wherever it was.
    pub fn finish(&mut self)
        ensures
            *final(self) == old(self).finished(),
            final(self).wf(),
            !final(self).running(),
            final(self).current() == old(self).target(),
            final(self).target() == old(self).target(),
            old(self).wf() && !old(self).running() ==> *final(self) == *old(self),
    {
        self.x.finish();
        self.y.finish();
        self.scale.finish();
        self.rotation.finish();
    }

    /// Whether any part is still on its way.
    pub fn is_running(&self) -> (running: bool)
        ensures
            running == self.running(),
    {
        self.x.is_running() || self.y.is_running() || self.scale.is_running()
            || self.rotation.is_running()
    }

    /// The transform as it is now.
    pub fn value(&self) -> (value: Transform)
        ensures
            value == self.current(),
    {
        Transform {
            x: self.x.value(),
            y: self.y.value(),
            scale: self.scale.value(),
            rotation: self.rotation.value(),
        }
    }
}

/// A transform that has come to rest is on its target.
pub proof fn lemma_rest_on_target(motion: TransformMotion)
    requires
        motion.wf(),
        !motion.running(),
    ensures
        motion.current() == motion.target(),
        motion.ticked(0) == motion,
{
}

} // verus!
