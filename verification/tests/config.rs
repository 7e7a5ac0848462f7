use route_transitions::model::{MotionModel, Spring};
use route_transitions::easing::Easing;
use route_transitions::transform::Transform;
use route_transitions::variant::{TransitionConfig, TransitionVariant, FULL_OFFSET, HALF_SCALE};

const ONE: i64 = 1_000_000;

fn expect(final_from: Transform, initial_to: Transform) -> TransitionConfig {
    TransitionConfig {
        initial_from: Transform::identity(),
        final_from,
        initial_to,
        final_to: Transform::identity(),
        initial_from_opacity: ONE,
        final_from_opacity: 0,
        initial_to_opacity: 0,
        final_to_opacity: ONE,
        model: MotionModel::Spring(Spring::preset()),
    }
}

#[test]
fn slide_left_config() {
    let config = TransitionVariant::SlideLeft.get_config();
    assert_eq!(config.final_from, Transform { x: -100_000_000, y: 0, scale: 1_000_000, rotation: 0 });
    assert_eq!(
        config,
        expect(Transform::new(-100_000_000, 0, ONE, 0), Transform::new(100_000_000, 0, ONE, 0))
    );
}

#[test]
fn slide_right_config() {
    assert_eq!(
        TransitionVariant::SlideRight.get_config(),
        expect(Transform::new(100_000_000, 0, ONE, 0), Transform::new(-100_000_000, 0, ONE, 0))
    );
}

#[test]
fn slide_up_config() {
    assert_eq!(
        TransitionVariant::SlideUp.get_config(),
        expect(Transform::new(0, -100_000_000, ONE, 0), Transform::new(0, 100_000_000, ONE, 0))
    );
}

#[test]
fn slide_down_config() {
    assert_eq!(
        TransitionVariant::SlideDown.get_config(),
        expect(Transform::new(0, 100_000_000, ONE, 0), Transform::new(0, -100_000_000, ONE, 0))
    );
}

#[test]
fn fade_config_has_no_translation() {
    let config = TransitionVariant::Fade.get_config();
    assert_eq!(config, expect(Transform::identity(), Transform::identity()));
    assert_eq!((config.initial_from_opacity, config.final_from_opacity), (ONE, 0));
    assert_eq!((config.initial_to_opacity, config.final_to_opacity), (0, ONE));
}

#[test]
fn scale_config_shrinks_to_half() {
    assert_eq!(HALF_SCALE, 500_000);
    assert_eq!(FULL_OFFSET, 100_000_000);
    assert_eq!(
        TransitionVariant::Scale.get_config(),
        expect(Transform::new(0, 0, 500_000, 0), Transform::new(0, 0, 500_000, 0))
    );
}

#[test]
fn custom_config_carries_its_own_endpoint() {
    let end = Transform::new(30_000_000, -40_000_000, 2_000_000, 45_000_000);
    assert_eq!(
        TransitionVariant::Custom(end).get_config(),
        expect(end, Transform::new(-30_000_000, 40_000_000, 2_000_000, -45_000_000))
    );
}

#[test]
fn config_with_a_model_of_ones_own() {
    let model = MotionModel::Tween { duration_ms: 250, easing: Easing::Linear };
    let config = TransitionVariant::SlideUp.get_config_with(model);
    assert_eq!(config.model, model);
    assert_eq!(
        TransitionConfig { model: MotionModel::Spring(Spring::preset()), ..config },
        TransitionVariant::SlideUp.get_config()
    );
}

#[test]
fn every_config_starts_and_ends_in_place() {
    let variants = [
        TransitionVariant::SlideLeft,
        TransitionVariant::SlideRight,
        TransitionVariant::SlideUp,
        TransitionVariant::SlideDown,
        TransitionVariant::Fade,
        TransitionVariant::Scale,
        TransitionVariant::Custom(Transform::new(1, 2, 3, 4)),
    ];
    for variant in variants {
        let config = variant.get_config();
        assert_eq!(config.initial_from, Transform::identity());
        assert_eq!(config.final_to, Transform::identity());
        assert_eq!(config.initial_to, config.final_from.mirrored());
        assert_eq!(variant.reversed().get_config().final_from, config.initial_to);
        assert_eq!(variant.reversed().reversed(), variant);
    }
}

#[test]
fn reversed_turns_slides_round() {
    assert_eq!(TransitionVariant::SlideLeft.reversed(), TransitionVariant::SlideRight);
    assert_eq!(TransitionVariant::SlideRight.reversed(), TransitionVariant::SlideLeft);
    assert_eq!(TransitionVariant::SlideUp.reversed(), TransitionVariant::SlideDown);
    assert_eq!(TransitionVariant::SlideDown.reversed(), TransitionVariant::SlideUp);
    assert_eq!(TransitionVariant::Fade.reversed(), TransitionVariant::Fade);
    assert_eq!(TransitionVariant::Scale.reversed(), TransitionVariant::Scale);
    assert_eq!(
        TransitionVariant::Custom(Transform::new(1, 2, 3, 4)).reversed(),
        TransitionVariant::Custom(Transform::new(-1, -2, 3, -4))
    );
}
