use route_transitions::navigation::AnimatedRouterContext;
use route_transitions::route::RouteId;

const HOME: RouteId = RouteId(0);
const SLIDE_LEFT: RouteId = RouteId(1);
const FADE: RouteId = RouteId(5);

#[test]
fn starts_settled_in_initial_route() {
    let state = AnimatedRouterContext::new(HOME);
    assert_eq!(state, AnimatedRouterContext::In(HOME));
    assert_eq!(*state.target_route(), HOME);
    assert!(!state.is_transitioning());
    assert_eq!(state.source_route(), None);
}

#[test]
fn request_for_current_target_changes_nothing() {
    let mut settled = AnimatedRouterContext::In(HOME);
    settled.set_target_route(HOME);
    assert_eq!(settled, AnimatedRouterContext::In(HOME));

    let mut flying = AnimatedRouterContext::FromTo(HOME, SLIDE_LEFT);
    flying.set_target_route(SLIDE_LEFT);
    assert_eq!(flying, AnimatedRouterContext::FromTo(HOME, SLIDE_LEFT));
}

#[test]
fn retarget_departs_from_previous_destination() {
    let mut state = AnimatedRouterContext::In(HOME);
    state.set_target_route(SLIDE_LEFT);
    assert_eq!(state, AnimatedRouterContext::FromTo(HOME, SLIDE_LEFT));
    assert_eq!(state.source_route(), Some(HOME));
    state.set_target_route(FADE);
    assert_eq!(state, AnimatedRouterContext::FromTo(SLIDE_LEFT, FADE));
    assert_ne!(state, AnimatedRouterContext::FromTo(HOME, FADE));
    assert_eq!(*state.target_route(), FADE);
}

#[test]
fn settle_keeps_destination() {
    let mut state = AnimatedRouterContext::FromTo(HOME, SLIDE_LEFT);
    state.settle();
    assert_eq!(state, AnimatedRouterContext::In(SLIDE_LEFT));
    state.settle();
    assert_eq!(state, AnimatedRouterContext::In(SLIDE_LEFT));
}

#[test]
fn retarget_back_to_origin_is_a_new_transition() {
    let mut state = AnimatedRouterContext::FromTo(HOME, SLIDE_LEFT);
    state.set_target_route(HOME);
    assert_eq!(state, AnimatedRouterContext::FromTo(SLIDE_LEFT, HOME));
}
