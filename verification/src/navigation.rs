//! The navigation state machine: either settled in one route, or in flight
//! from one route to another.

use vstd::prelude::*;
use crate::route::RouteId;

verus! {

/// The navigation state of one outlet.
#[derive(Clone, Copy, Debug, PartialEq, Eq, Structural)]
pub enum AnimatedRouterContext {
    /// Transition from one route to another.
    FromTo(RouteId, RouteId),
    /// Settled in a route.
    In(RouteId),
}

impl AnimatedRouterContext {
    /// The destination: the arriving route while in flight, else the settled one.
    pub open spec fn target(self) -> RouteId {
        match self {
            AnimatedRouterContext::FromTo(_, to) => to,
            AnimatedRouterContext::In(to) => to,
        }
    }

    /// The state after a request to go to `to`: unchanged where `to` is
    /// already the destination, else in flight from the old destination.
    pub open spec fn retargeted(self, to: RouteId) -> AnimatedRouterContext {
        if to == self.target() {
            self
        } else {
            AnimatedRouterContext::FromTo(self.target(), to)
        }
    }

    /// The state after the animation has finished: settled in the destination.
    pub open spec fn settled(self) -> AnimatedRouterContext {
        AnimatedRouterContext::In(self.target())
    }

    /// Whether a transition is in flight.
    pub open spec fn in_flight(self) -> bool {
        self is FromTo
    }

    /// The state an outlet starts in: settled in its first route.
    pub fn new(initial: RouteId) -> (state: AnimatedRouterContext)
        ensures
            state == AnimatedRouterContext::In(initial),
    {
        AnimatedRouterContext::In(initial)
    }

    /// Whether a transition is in flight.
    pub fn is_transitioning(&self) -> (flying: bool)
        ensures
            flying == self.in_flight(),
    {
        match self {
            AnimatedRouterContext::FromTo(_, _) => true,
            AnimatedRouterContext::In(_) => false,
        }
    }

    /// The departing route while a transition is in flight.
    pub fn source_route(&self) -> (route: Option<RouteId>)
        ensures
            route == (match *self {
                AnimatedRouterContext::FromTo(from, _) => Some(from),
                AnimatedRouterContext::In(_) => None,
            }),
    {
        match self {
            AnimatedRouterContext::FromTo(from, _) => Some(*from),
            AnimatedRouterContext::In(_) => None,
        }
    }

    /// Get the current destination route.
    pub fn target_route(&self) -> (route: &RouteId)
        ensures
            *route == self.target(),
    {
        match self {
            AnimatedRouterContext::FromTo(_, to) => to,
            AnimatedRouterContext::In(to) => to,
        }
    }

    /// Update the destination route. A request for the current destination
    /// changes nothing; any other request starts a transition that departs
    /// from the current destination, whether or not one was in flight.
    pub fn set_target_route(&mut self, to: RouteId)
        ensures
            *final(self) == old(self).retargeted(to),
    {
        let current: RouteId = *self.target_route();
        if current != to {
            *self = AnimatedRouterContext::FromTo(current, to);
        }
    }

    /// After the transition animation has finished, keep only the destination.
    pub fn settle(&mut self)
        ensures
            *final(self) == old(self).settled(),
    {
        let current: RouteId = *self.target_route();
        *self = AnimatedRouterContext::In(current);
    }
}

/// A request for the route that is already the destination leaves the state
/// as it was, and any request makes its route the destination.
pub proof fn lemma_retarget_idempotent(state: AnimatedRouterContext, to: RouteId)
    ensures
        to == state.target() ==> state.retargeted(to) == state,
        state.retargeted(to).target() == to,
        state.retargeted(to).retargeted(to) == state.retargeted(to),
{
}

/// From a settled state a request for another route starts a transition from
/// the settled route; a further request before settling departs from the
/// destination of the first, never from its origin.
pub proof fn lemma_retarget_chain(a: RouteId, b: RouteId, c: RouteId)
    requires
        a != b,
        b != c,
    ensures
        AnimatedRouterContext::In(a).retargeted(b) == AnimatedRouterContext::FromTo(a, b),
        AnimatedRouterContext::FromTo(a, b).retargeted(c) == AnimatedRouterContext::FromTo(b, c),
        AnimatedRouterContext::In(a).retargeted(b).retargeted(c)
            == AnimatedRouterContext::FromTo(b, c),
{
}

/// Settling a transition leaves its destination alone, settling a settled
/// state changes nothing, and a state is only ever left in flight by a request
/// for a route other than its destination.
pub proof fn lemma_settle(state: AnimatedRouterContext, to: RouteId)
    ensures
        state.settled() == AnimatedRouterContext::In(state.target()),
        !state.in_flight() ==> state.settled() == state,
        !state.settled().in_flight(),
        state.settled().settled() == state.settled(),
        state.retargeted(to).in_flight() <==> (state.in_flight() || to != state.target()),
{
}

} // verus!
