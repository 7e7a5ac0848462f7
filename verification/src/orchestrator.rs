//! The orchestrator: on a request for another route it looks up the variant
//! and sets the animation out; frame by frame it advances the animation and
//! hands out what to show; when every value has arrived it settles.

use vstd::prelude::*;
use crate::animation::{lemma_animation_ticked_all_step, lemma_tween_animation, Animation};
use crate::easing::Easing;
use crate::fixed::{clamp, UNIT};
use crate::model::{MotionModel, Spring};
use crate::motion::{add_time, lemma_total_time_nonnegative, time_sum, total_time};
use crate::navigation::AnimatedRouterContext;
use crate::policy::TransitionPolicy;
use crate::route::RouteId;
use crate::transform::Transform;

verus! {

/// One layer of a frame: a route, where to draw it and how opaque.
#[derive(Clone, Copy, Debug, PartialEq, Eq, Structural)]
pub struct Layer {
    pub route: RouteId,
    pub transform: Transform,
    pub opacity: i64,
}

/// What to show in one frame.
#[derive(Clone, Copy, Debug, PartialEq, Eq, Structural)]
pub enum Frame {
    /// No transition is in flight: the settled route alone, in place.
    PassThrough(RouteId),
    /// A transition is in flight: the departing and the arriving layer.
    Transition { from: Layer, to: Layer },
}

/// The transition engine of one outlet.
pub struct TransitionOrchestrator {
    /// Where the outlet is, or between which routes.
    pub context: AnimatedRouterContext,
    /// Which variant each pair of routes gets.
    pub policy: TransitionPolicy,
    /// How the values of a transition move.
    pub model: MotionModel,
    /// The longest that a transition may take, in milliseconds. With none a
    /// transition takes as long as its values run.
    pub ceiling_ms: Option<u64>,
    /// How long the transition in flight has taken, in milliseconds.
    pub flight_ms: u64,
    /// The values of the transition in flight, or of the last one.
    pub animation: Animation,
}

impl TransitionOrchestrator {
    /// The engine after a request for `route`. A request for the destination
    /// changes nothing. Any other starts a transition from the destination
    /// so far, with the variant that the policy gives the pair, and sets the
    /// animation out from the start of that variant: what was in flight is
    /// dropped.
    pub open spec fn navigated(self, route: RouteId) -> TransitionOrchestrator {
        if route == self.context.target() {
            self
        } else {
            TransitionOrchestrator {
                context: self.context.retargeted(route),
                animation: Animation::started(
                    self.policy.resolution(self.context.target(), route).config_with(self.model),
                ),
                flight_ms: 0,
                ..self
            }
        }
    }

    /// Whether a transition that has taken `flight` milliseconds has used up
    /// its time.
    pub open spec fn out_of_time(self, flight: int) -> bool {
        match self.ceiling_ms {
            Some(ceiling) => flight >= ceiling,
            None => false,
        }
    }

    /// The engine a frame of `elapsed` milliseconds later. A settled engine
    /// stays as it is. One in flight advances its animation. If that leaves
    /// no value running, or the transition has used up its time, the engine
    /// settles, with every value on its target.
    pub open spec fn ticked(self, elapsed: u64) -> TransitionOrchestrator {
        if !self.context.in_flight() {
            self
        } else {
            let flight = time_sum(self.flight_ms, elapsed);
            let animation = self.animation.ticked(elapsed);
            if animation.running() && !self.out_of_time(flight as int) {
                TransitionOrchestrator { animation, flight_ms: flight, ..self }
            } else {
                TransitionOrchestrator {
                    context: self.context.settled(),
                    animation: animation.finished(),
                    flight_ms: flight,
                    ..self
                }
            }
        }
    }

    /// What the engine shows.
    pub open spec fn shown(self) -> Frame {
        match self.context {
            AnimatedRouterContext::In(route) => Frame::PassThrough(route),
            AnimatedRouterContext::FromTo(from, to) => Frame::Transition {
                from: Layer {
                    route: from,
                    transform: self.animation.from_transform.current(),
                    opacity: self.animation.from_opacity.current,
                },
                to: Layer {
                    route: to,
                    transform: self.animation.to_transform.current(),
                    opacity: self.animation.to_opacity.current,
                },
            },
        }
    }

    /// A transition is in flight exactly while a value is running, every
    /// value that has stopped rests on its target, and the arriving layer is
    /// headed for its place.
    pub open spec fn wf(self) -> bool {
        &&& self.animation.wf()
        &&& self.animation.lands_in_place()
        &&& self.context.in_flight() <==> self.animation.running()
    }

    /// An engine settled in `initial`, with the spring of page transitions
    /// and no limit on the time of a transition.
    pub fn new(initial: RouteId, policy: TransitionPolicy) -> (engine: TransitionOrchestrator)
        ensures
            engine.context == AnimatedRouterContext::In(initial),
            engine.policy == policy,
            engine.model == MotionModel::Spring(Spring::page_spring()),
            engine.ceiling_ms == None::<u64>,
            engine.flight_ms == 0,
            engine.animation == Animation::idle(),
            engine.wf(),
    {
        TransitionOrchestrator {
            context: AnimatedRouterContext::new(initial),
            policy,
            model: MotionModel::Spring(Spring::preset()),
            ceiling_ms: None,
            flight_ms: 0,
            animation: Animation::new(),
        }
    }

    /// Changes the longest that a transition may take. A spring that never
    /// settles would keep a transition in flight for ever; with a ceiling the
    /// engine settles when the time is up, whatever the values do.
    pub fn set_ceiling(&mut self, ceiling_ms: Option<u64>)
        ensures
            *final(self) == (TransitionOrchestrator { ceiling_ms, ..*old(self) }),
            old(self).wf() ==> final(self).wf(),
    {
        self.ceiling_ms = ceiling_ms;
    }

    /// Changes how the values of the transitions to come move.
    pub fn set_model(&mut self, model: MotionModel)
        ensures
            *final(self) == (TransitionOrchestrator { model, ..*old(self) }),
            old(self).wf() ==> final(self).wf(),
    {
        self.model = model;
    }

    /// Takes a request for `route`, and says whether a transition started.
    pub fn navigate(&mut self, route: RouteId) -> (started: bool)
        ensures
            *final(self) == old(self).navigated(route),
            started == (route != old(self).context.target()),
            old(self).wf() ==> final(self).wf(),
    {
        let current: RouteId = *self.context.target_route();
        if current == route {
            return false;
        }
        let variant = self.policy.resolve(current, route);
        let config = variant.get_config_with(self.model);
        self.context.set_target_route(route);
        self.animation.start(&config);
        self.flight_ms = 0;
        true
    }

    /// Advances the engine by a frame of `elapsed_ms` milliseconds and
    /// returns what to show.
    pub fn tick(&mut self, elapsed_ms: u64) -> (frame: Frame)
        ensures
            *final(self) == old(self).ticked(elapsed_ms),
            frame == final(self).shown(),
            old(self).wf() ==> final(self).wf(),
    {
        if self.context.is_transitioning() {
            self.flight_ms = add_time(self.flight_ms, elapsed_ms);
            self.animation.tick(elapsed_ms);
            let late: bool = match self.ceiling_ms {
                Some(ceiling) => self.flight_ms >= ceiling,
                None => false,
            };
            if late || !self.animation.is_running() {
                self.animation.finish();
                self.context.settle();
            }
        }
        self.frame()
    }

    /// What to show now.
    pub fn frame(&self) -> (frame: Frame)
        ensures
            frame == self.shown(),
    {
        match self.context {
            AnimatedRouterContext::In(route) => Frame::PassThrough(route),
            AnimatedRouterContext::FromTo(from, to) => Frame::Transition {
                from: Layer {
                    route: from,
                    transform: self.animation.from_transform.value(),
                    opacity: self.animation.from_opacity.value(),
                },
                to: Layer {
                    route: to,
                    transform: self.animation.to_transform.value(),
                    opacity: self.animation.to_opacity.value(),
                },
            },
        }
    }

    /// Get the current destination route.
    pub fn target_route(&self) -> (route: RouteId)
        ensures
            route == self.context.target(),
    {
        *self.context.target_route()
    }

    /// Whether a transition is in flight.
    pub fn is_transitioning(&self) -> (flying: bool)
        ensures
            flying == self.context.in_flight(),
    {
        self.context.is_transitioning()
    }
}

impl TransitionOrchestrator {
    /// The engine after a run of frames, each advancing it in turn.
    pub open spec fn ticked_all(self, frames: Seq<u64>) -> TransitionOrchestrator
        decreases frames.len(),
    {
        if frames.len() == 0 {
            self
        } else {
            self.ticked_all(frames.drop_last()).ticked(frames.last())
        }
    }
}

/// A frame never changes the destination, the policy, the model or the
/// ceiling. It leaves a settled engine as it is, so that there is no work
/// between transitions, and it ends a transition exactly when it leaves no
/// value running or the time is up: a transition is never dropped on the way.
pub proof fn lemma_tick_keeps_destination(engine: TransitionOrchestrator, elapsed: u64)
    ensures
        engine.ticked(elapsed).context.target() == engine.context.target(),
        engine.ticked(elapsed).policy == engine.policy,
        engine.ticked(elapsed).model == engine.model,
        engine.ticked(elapsed).ceiling_ms == engine.ceiling_ms,
        engine.wf() ==> engine.ticked(elapsed).wf(),
        !engine.context.in_flight() ==> engine.ticked(elapsed) == engine,
        engine.context.in_flight() ==> (engine.ticked(elapsed).context.in_flight() <==> {
            &&& engine.animation.ticked(elapsed).running()
            &&& !engine.out_of_time(time_sum(engine.flight_ms, elapsed) as int)
        }),
        engine.ticked(elapsed).context.in_flight() ==> engine.ticked(elapsed).context
            == engine.context,
        !engine.ticked(elapsed).context.in_flight() ==> engine.ticked(elapsed).context
            == engine.context.settled(),
{
}

/// The frame that ends a transition leaves the arriving layer in its place
/// and fully opaque, which is how the settled route is shown from then on:
/// nothing jumps when the engine settles.
pub proof fn lemma_settles_in_place(engine: TransitionOrchestrator, elapsed: u64)
    requires
        engine.wf(),
        engine.context.in_flight(),
        !engine.ticked(elapsed).context.in_flight(),
    ensures
        engine.ticked(elapsed).context == AnimatedRouterContext::In(engine.context.target()),
        engine.ticked(elapsed).shown() == Frame::PassThrough(engine.context.target()),
        engine.ticked(elapsed).animation.to_transform.current() == Transform::spec_identity(),
        engine.ticked(elapsed).animation.to_opacity.current == UNIT,
        engine.ticked(elapsed).animation.from_transform.current()
            == engine.animation.from_transform.target(),
        !engine.ticked(elapsed).animation.running(),
{
}

/// A request for another route, settled or in flight, starts a transition
/// from the destination so far and sets the animation out afresh, whatever
/// state the old one was in; the departing layer starts in its place. The
/// same request once more changes nothing.
pub proof fn lemma_navigate_restarts(engine: TransitionOrchestrator, route: RouteId)
    requires
        route != engine.context.target(),
    ensures
        engine.navigated(route).context == AnimatedRouterContext::FromTo(
            engine.context.target(),
            route,
        ),
        engine.navigated(route).animation == Animation::started(
            engine.policy.resolution(engine.context.target(), route).config_with(engine.model),
        ),
        engine.navigated(route).animation.from_transform.current() == Transform::spec_identity(),
        engine.navigated(route).animation.from_opacity.current == UNIT,
        engine.navigated(route).animation.running(),
        engine.navigated(route).flight_ms == 0,
        engine.navigated(route).wf(),
        engine.navigated(route).navigated(route) == engine.navigated(route),
{
}

/// With a ceiling no transition outlasts it: after a request for another
/// route and any run of frames, at least one, that add up to the ceiling or
/// more, the engine is settled in the requested route, whatever the model.
pub proof fn lemma_ceiling_settles(
    engine: TransitionOrchestrator,
    route: RouteId,
    ceiling: u64,
    frames: Seq<u64>,
)
    requires
        engine.ceiling_ms == Some(ceiling),
        route != engine.context.target(),
        frames.len() > 0,
        total_time(frames) >= ceiling,
    ensures
        engine.navigated(route).ticked_all(frames).context == AnimatedRouterContext::In(route),
        engine.navigated(route).ticked_all(frames).wf(),
{
    lemma_flight_time(engine, route, frames);
}

/// What a transition keeps from frame to frame: its destination and its
/// ceiling, and while it is in flight its origin and the time it has taken.
proof fn lemma_flight_time(engine: TransitionOrchestrator, route: RouteId, frames: Seq<u64>)
    requires
        route != engine.context.target(),
    ensures
        ({
            let after = engine.navigated(route).ticked_all(frames);
            &&& after.ceiling_ms == engine.ceiling_ms
            &&& after.wf()
            &&& after.context.in_flight() ==> {
                &&& after.context == AnimatedRouterContext::FromTo(engine.context.target(), route)
                &&& after.flight_ms == clamp(total_time(frames), 0, u64::MAX as int)
                &&& !engine.out_of_time(total_time(frames)) || frames.len() == 0
            }
            &&& !after.context.in_flight() ==> after.context == AnimatedRouterContext::In(route)
        }),
    decreases frames.len(),
{
    lemma_total_time_nonnegative(frames);
    if frames.len() > 0 {
        let earlier = frames.drop_last();
        lemma_flight_time(engine, route, earlier);
        lemma_total_time_nonnegative(earlier);
        lemma_tick_keeps_destination(engine.navigated(route).ticked_all(earlier), frames.last());
    }
}

/// With a tween as its model a transition takes exactly the tween's time,
/// or the ceiling if that is shorter: after a request for another route and
/// any run of frames, at least one, the engine is in flight while the frames
/// add up to less than both, and settled in the requested route after that.
pub proof fn lemma_tween_transition_settles(
    engine: TransitionOrchestrator,
    route: RouteId,
    duration_ms: u64,
    easing: Easing,
    frames: Seq<u64>,
)
    requires
        engine.model == (MotionModel::Tween { duration_ms, easing }),
        route != engine.context.target(),
        frames.len() > 0,
    ensures
        engine.navigated(route).ticked_all(frames).context == (if total_time(frames)
            < duration_ms && !engine.out_of_time(total_time(frames)) {
            AnimatedRouterContext::FromTo(engine.context.target(), route)
        } else {
            AnimatedRouterContext::In(route)
        }),
        engine.navigated(route).ticked_all(frames).wf(),
{
    lemma_tween_transition_progress(engine, route, duration_ms, easing, frames);
    lemma_flight_time(engine, route, frames);
}

/// What a transition moved by a tween keeps from frame to frame.
proof fn lemma_tween_transition_progress(
    engine: TransitionOrchestrator,
    route: RouteId,
    duration_ms: u64,
    easing: Easing,
    frames: Seq<u64>,
)
    requires
        engine.model == (MotionModel::Tween { duration_ms, easing }),
        route != engine.context.target(),
    ensures
        ({
            let config = engine.policy.resolution(engine.context.target(), route).config_with(
                engine.model,
            );
            let after = engine.navigated(route).ticked_all(frames);
            &&& after.context.in_flight() ==> after.animation == Animation::started(
                config,
            ).ticked_all(frames)
            &&& after.context.in_flight() == (frames.len() == 0 || (total_time(frames)
                < duration_ms && !engine.out_of_time(total_time(frames))))
        }),
    decreases frames.len(),
{
    let config = engine.policy.resolution(engine.context.target(), route).config_with(
        engine.model,
    );
    let begun = Animation::started(config);
    lemma_flight_time(engine, route, frames);
    lemma_total_time_nonnegative(frames);
    if frames.len() == 0 {
        lemma_animation_ticked_all_step(begun, seq![0u64]);
        assert(begun.ticked_all(frames) == begun);
    } else {
        let earlier = frames.drop_last();
        lemma_tween_transition_progress(engine, route, duration_ms, easing, earlier);
        lemma_flight_time(engine, route, earlier);
        lemma_animation_ticked_all_step(begun, frames);
        lemma_total_time_nonnegative(earlier);
        lemma_tween_animation(config, duration_ms, easing, frames);
    }
}

} // verus!
