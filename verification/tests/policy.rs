use route_transitions::policy::{PairRule, TargetRule, TransitionPolicy};
use route_transitions::route::RouteId;
use route_transitions::transform::Transform;
use route_transitions::variant::TransitionVariant;

const HOME: RouteId = RouteId(0);
const SLIDE_LEFT: RouteId = RouteId(1);
const SLIDE_RIGHT: RouteId = RouteId(2);
const SLIDE_UP: RouteId = RouteId(3);
const SLIDE_DOWN: RouteId = RouteId(4);
const FADE: RouteId = RouteId(5);
const NOT_FOUND: RouteId = RouteId(6);

const ROUTES: [RouteId; 7] = [HOME, SLIDE_LEFT, SLIDE_RIGHT, SLIDE_UP, SLIDE_DOWN, FADE, NOT_FOUND];

fn by_destination() -> TransitionPolicy {
    let mut policy = TransitionPolicy::new();
    policy.add_target(HOME, TransitionVariant::Fade);
    policy.add_target(SLIDE_LEFT, TransitionVariant::SlideLeft);
    policy.add_target(SLIDE_RIGHT, TransitionVariant::SlideRight);
    policy.add_target(SLIDE_UP, TransitionVariant::SlideUp);
    policy.add_target(SLIDE_DOWN, TransitionVariant::SlideDown);
    policy.add_target(FADE, TransitionVariant::Fade);
    policy
}

#[test]
fn empty_policy_fades() {
    let policy = TransitionPolicy::new();
    assert!(policy.pairs.is_empty());
    assert!(policy.targets.is_empty());
    assert_eq!(policy.fallback, TransitionVariant::Fade);
    for from in ROUTES {
        for to in ROUTES {
            assert_eq!(policy.resolve(from, to), TransitionVariant::Fade);
        }
    }
}

#[test]
fn destination_decides_whatever_the_origin() {
    let policy = by_destination();
    assert_eq!(policy.resolve(HOME, SLIDE_LEFT), TransitionVariant::SlideLeft);
    for from in ROUTES {
        assert_eq!(policy.resolve(from, SLIDE_LEFT), TransitionVariant::SlideLeft);
        assert_eq!(policy.resolve(from, SLIDE_RIGHT), TransitionVariant::SlideRight);
        assert_eq!(policy.resolve(from, SLIDE_UP), TransitionVariant::SlideUp);
        assert_eq!(policy.resolve(from, SLIDE_DOWN), TransitionVariant::SlideDown);
        assert_eq!(policy.resolve(from, FADE), TransitionVariant::Fade);
        assert_eq!(policy.resolve(from, HOME), TransitionVariant::Fade);
    }
}

#[test]
fn unmapped_route_gets_the_fallback() {
    let mut policy = by_destination();
    assert_eq!(policy.resolve(HOME, NOT_FOUND), TransitionVariant::Fade);
    policy.set_fallback(TransitionVariant::Scale);
    assert_eq!(policy.resolve(HOME, NOT_FOUND), TransitionVariant::Scale);
    assert_eq!(policy.resolve(NOT_FOUND, NOT_FOUND), TransitionVariant::Scale);
    assert_eq!(policy.resolve(HOME, SLIDE_UP), TransitionVariant::SlideUp);
}

#[test]
fn every_pair_resolves_also_a_route_with_itself() {
    let mut policy = by_destination();
    policy.add_pair(HOME, HOME, TransitionVariant::Scale);
    let mut seen = 0;
    for from in ROUTES {
        for to in ROUTES {
            let _ = policy.resolve(from, to);
            seen += 1;
        }
    }
    assert_eq!(seen, 49);
    assert_eq!(policy.resolve(HOME, HOME), TransitionVariant::Scale);
    assert_eq!(policy.resolve(FADE, FADE), TransitionVariant::Fade);
    assert_eq!(policy.resolve(SLIDE_UP, SLIDE_UP), TransitionVariant::SlideUp);
}

#[test]
fn pair_rule_outranks_destination_rule() {
    let mut policy = by_destination();
    policy.add_pair(FADE, SLIDE_LEFT, TransitionVariant::SlideDown);
    assert_eq!(policy.resolve(FADE, SLIDE_LEFT), TransitionVariant::SlideDown);
    assert_eq!(policy.resolve(HOME, SLIDE_LEFT), TransitionVariant::SlideLeft);
    assert_eq!(policy.resolve(SLIDE_LEFT, FADE), TransitionVariant::Fade);
}

#[test]
fn earlier_rule_outranks_later_rule() {
    let mut policy = TransitionPolicy::new();
    policy.add_pair(HOME, FADE, TransitionVariant::SlideUp);
    policy.add_pair(HOME, FADE, TransitionVariant::SlideDown);
    policy.add_target(FADE, TransitionVariant::Scale);
    policy.add_target(FADE, TransitionVariant::SlideLeft);
    assert_eq!(policy.resolve(HOME, FADE), TransitionVariant::SlideUp);
    assert_eq!(policy.resolve(SLIDE_UP, FADE), TransitionVariant::Scale);
}

#[test]
fn pairs_are_ordered() {
    let mut policy = TransitionPolicy::new();
    policy.add_pair(HOME, SLIDE_LEFT, TransitionVariant::SlideLeft);
    assert_eq!(policy.resolve(HOME, SLIDE_LEFT), TransitionVariant::SlideLeft);
    assert_eq!(policy.resolve(SLIDE_LEFT, HOME), TransitionVariant::Fade);
}

#[test]
fn both_ways_reverses_on_the_way_back() {
    let mut policy = TransitionPolicy::new();
    policy.add_pair_both_ways(HOME, SLIDE_LEFT, TransitionVariant::SlideLeft);
    assert_eq!(policy.resolve(HOME, SLIDE_LEFT), TransitionVariant::SlideLeft);
    assert_eq!(policy.resolve(SLIDE_LEFT, HOME), TransitionVariant::SlideRight);
    assert_eq!(
        policy.pairs,
        vec![
            PairRule { from: HOME, to: SLIDE_LEFT, variant: TransitionVariant::SlideLeft },
            PairRule { from: SLIDE_LEFT, to: HOME, variant: TransitionVariant::SlideRight },
        ]
    );
}

#[test]
fn rules_are_kept_in_the_order_given() {
    let mut policy = TransitionPolicy::new();
    policy.add_target(FADE, TransitionVariant::Fade);
    policy.add_target(HOME, TransitionVariant::Scale);
    policy.add_pair(HOME, FADE, TransitionVariant::SlideUp);
    assert_eq!(
        policy.targets,
        vec![
            TargetRule { to: FADE, variant: TransitionVariant::Fade },
            TargetRule { to: HOME, variant: TransitionVariant::Scale },
        ]
    );
    assert_eq!(
        policy.pairs,
        vec![PairRule { from: HOME, to: FADE, variant: TransitionVariant::SlideUp }]
    );
    assert_eq!(policy.fallback, TransitionVariant::Fade);
}

#[test]
fn custom_variant_is_handed_through() {
    let end = Transform::new(1, 2, 3, 4);
    let mut policy = TransitionPolicy::new();
    policy.add_pair(HOME, FADE, TransitionVariant::Custom(end));
    assert_eq!(policy.resolve(HOME, FADE), TransitionVariant::Custom(end));
}
