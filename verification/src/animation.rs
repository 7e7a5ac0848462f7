//! The animation of one transition: the transforms and the opacities of the
//! departing and the arriving layer, moving side by side.

use vstd::prelude::*;
use crate::easing::Easing;
use crate::fixed::UNIT;
use crate::model::MotionModel;
use crate::motion::{lemma_ends_kept, lemma_tween_boundary, total_time, Motion};
use crate::transform::Transform;
use crate::transform_motion::TransformMotion;
use crate::variant::TransitionConfig;

verus! {

/// The four values that a transition animates.
#[derive(Clone, Copy, Debug, PartialEq, Eq, Structural)]
pub struct Animation {
    pub from_transform: TransformMotion,
    pub to_transform: TransformMotion,
    pub from_opacity: Motion,
    pub to_opacity: Motion,
}

impl Animation {
    /// The animation of a settled page: nothing moves, the page that has
    /// arrived is in place and opaque, the one that has left is gone.
    pub open spec fn idle() -> Animation {
        Animation {
            from_transform: TransformMotion::resting(Transform::spec_identity()),
            to_transform: TransformMotion::resting(Transform::spec_identity()),
            from_opacity: Motion::resting(0),
            to_opacity: Motion::resting(UNIT),
        }
    }

    /// The animation of a transition that has just set out with `config`.
    pub open spec fn started(config: TransitionConfig) -> Animation {
        Animation {
            from_transform: TransformMotion::started(
                config.initial_from,
                config.final_from,
                config.model,
            ),
            to_transform: TransformMotion::started(
                config.initial_to,
                config.final_to,
                config.model,
            ),
            from_opacity: Motion::started(
                config.initial_from_opacity,
                config.final_from_opacity,
                config.model,
            ),
            to_opacity: Motion::started(
                config.initial_to_opacity,
                config.final_to_opacity,
                config.model,
            ),
        }
    }

    /// The animation a frame of `elapsed` milliseconds later.
    pub open spec fn ticked(self, elapsed: u64) -> Animation {
        Animation {
            from_transform: self.from_transform.ticked(elapsed),
            to_transform: self.to_transform.ticked(elapsed),
            from_opacity: self.from_opacity.ticked(elapsed),
            to_opacity: self.to_opacity.ticked(elapsed),
        }
    }

    /// The animation after a run of frames, each advancing it in turn.
    pub open spec fn ticked_all(self, frames: Seq<u64>) -> Animation {
        Animation {
            from_transform: self.from_transform.ticked_all(frames),
            to_transform: self.to_transform.ticked_all(frames),
            from_opacity: self.from_opacity.ticked_all(frames),
            to_opacity: self.to_opacity.ticked_all(frames),
        }
    }

    /// The animation with every value put on its target and stopped.
    pub open spec fn finished(self) -> Animation {
        Animation {
            from_transform: self.from_transform.finished(),
            to_transform: self.to_transform.finished(),
            from_opacity: self.from_opacity.arrived(self.from_opacity.elapsed_ms),
            to_opacity: self.to_opacity.arrived(self.to_opacity.elapsed_ms),
        }
    }

    /// Whether any of the four values is still on its way.
    pub open spec fn running(self) -> bool {
        self.from_transform.running() || self.to_transform.running() || self.from_opacity.running
            || self.to_opacity.running
    }

    /// Every value that is not running rests on its target.
    pub open spec fn wf(self) -> bool {
        self.from_transform.wf() && self.to_transform.wf() && self.from_opacity.wf()
            && self.to_opacity.wf()
    }

    /// Whether the arriving layer is headed for its place, fully opaque.
    pub open spec fn lands_in_place(self) -> bool {
        self.to_transform.target() == Transform::spec_identity() && self.to_opacity.target == UNIT
    }

    /// The animation of a settled page.
    pub fn new() -> (a: Animation)
        ensures
            a == Animation::idle(),
            a.wf(),
            !a.running(),
            a.lands_in_place(),
    {
        Animation {
            from_transform: TransformMotion::new(Transform::identity()),
            to_transform: TransformMotion::new(Transform::identity()),
            from_opacity: Motion::new(0),
            to_opacity: Motion::new(UNIT),
        }
    }

    /// Sets all four values out as `config` says. Whatever progress there
    /// was is gone: nothing of an earlier transition is blended in.
    pub fn start(&mut self, config: &TransitionConfig)
        ensures
            *final(self) == Animation::started(*config),
            final(self).wf(),
            final(self).running(),
    {
        self.from_transform.start(config.initial_from, config.final_from, config.model);
        self.to_transform.start(config.initial_to, config.final_to, config.model);
        self.from_opacity.start(
            config.initial_from_opacity,
            config.final_from_opacity,
            config.model,
        );
        self.to_opacity.start(config.initial_to_opacity, config.final_to_opacity, config.model);
    }

    /// Advances all four values by a frame of `elapsed_ms` milliseconds.
    pub fn tick(&mut self, elapsed_ms: u64)
        ensures
            *final(self) == old(self).ticked(elapsed_ms),
            old(self).wf() ==> final(self).wf(),
    {
        self.from_transform.tick(elapsed_ms);
        self.to_transform.tick(elapsed_ms);
        self.from_opacity.tick(elapsed_ms);
        self.to_opacity.tick(elapsed_ms);
    }

    /// Puts every value on its target and stops it, wherever it was.
    pub fn finish(&mut self)
        ensures
            *final(self) == old(self).finished(),
            final(self).wf(),
            !final(self).running(),
            old(self).lands_in_place() ==> final(self).lands_in_place(),
            old(self).wf() && !old(self).running() ==> *final(self) == *old(self),
    {
        self.from_transform.finish();
        self.to_transform.finish();
        self.from_opacity.finish();
        self.to_opacity.finish();
    }

    /// Whether any of the four values is still on its way.
    pub fn is_running(&self) -> (running: bool)
        ensures
            running == self.running(),
    {
        self.from_transform.is_running() || self.to_transform.is_running()
            || self.from_opacity.is_running() || self.to_opacity.is_running()
    }
}

/// An animation moved by a tween arrives as one: after any run of frames, at
/// least one, all four values are running while the frames add up to less
/// than the duration, and none is once they add up to it. Then the departing
/// layer is where the transition sends it, and the arriving one where it
/// belongs.
pub proof fn lemma_tween_animation(
    config: TransitionConfig,
    duration_ms: u64,
    easing: Easing,
    frames: Seq<u64>,
)
    requires
        config.model == (MotionModel::Tween { duration_ms, easing }),
        frames.len() > 0,
    ensures
        ({
            let animation = Animation::started(config).ticked_all(frames);
            &&& animation.wf()
            &&& animation.running() == (total_time(frames) < duration_ms)
            &&& animation.from_transform.running() == animation.running()
            &&& animation.to_transform.running() == animation.running()
            &&& animation.from_opacity.running == animation.running()
            &&& animation.to_opacity.running == animation.running()
            &&& animation.from_transform.target() == config.final_from
            &&& animation.to_transform.target() == config.final_to
            &&& animation.from_opacity.target == config.final_from_opacity
            &&& animation.to_opacity.target == config.final_to_opacity
            &&& total_time(frames) >= duration_ms ==> {
                &&& animation.from_transform.current() == config.final_from
                &&& animation.to_transform.current() == config.final_to
                &&& animation.from_opacity.current == config.final_from_opacity
                &&& animation.to_opacity.current == config.final_to_opacity
            }
        }),
{
    let a = config.initial_from;
    let b = config.final_from;
    let c = config.initial_to;
    let d = config.final_to;
    lemma_tween_boundary(a.x, b.x, duration_ms, easing, frames);
    lemma_tween_boundary(a.y, b.y, duration_ms, easing, frames);
    lemma_tween_boundary(a.scale, b.scale, duration_ms, easing, frames);
    lemma_tween_boundary(a.rotation, b.rotation, duration_ms, easing, frames);
    lemma_tween_boundary(c.x, d.x, duration_ms, easing, frames);
    lemma_tween_boundary(c.y, d.y, duration_ms, easing, frames);
    lemma_tween_boundary(c.scale, d.scale, duration_ms, easing, frames);
    lemma_tween_boundary(c.rotation, d.rotation, duration_ms, easing, frames);
    lemma_tween_boundary(
        config.initial_from_opacity,
        config.final_from_opacity,
        duration_ms,
        easing,
        frames,
    );
    lemma_tween_boundary(
        config.initial_to_opacity,
        config.final_to_opacity,
        duration_ms,
        easing,
        frames,
    );
    lemma_ends_kept(Motion::started(a.x, b.x, config.model), frames);
    lemma_ends_kept(Motion::started(a.y, b.y, config.model), frames);
    lemma_ends_kept(Motion::started(a.scale, b.scale, config.model), frames);
    lemma_ends_kept(Motion::started(a.rotation, b.rotation, config.model), frames);
    lemma_ends_kept(Motion::started(c.x, d.x, config.model), frames);
    lemma_ends_kept(Motion::started(c.y, d.y, config.model), frames);
    lemma_ends_kept(Motion::started(c.scale, d.scale, config.model), frames);
    lemma_ends_kept(Motion::started(c.rotation, d.rotation, config.model), frames);
    lemma_ends_kept(
        Motion::started(config.initial_from_opacity, config.final_from_opacity, config.model),
        frames,
    );
    lemma_ends_kept(
        Motion::started(config.initial_to_opacity, config.final_to_opacity, config.model),
        frames,
    );
}

/// A frame more advances the animation after a run of frames by that frame.
pub proof fn lemma_animation_ticked_all_step(animation: Animation, frames: Seq<u64>)
    requires
        frames.len() > 0,
    ensures
        animation.ticked_all(frames) == animation.ticked_all(frames.drop_last()).ticked(
            frames.last(),
        ),
        animation.ticked_all(Seq::<u64>::empty()) == animation,
{
}

} // verus!
