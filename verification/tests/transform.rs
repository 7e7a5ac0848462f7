use route_transitions::fixed::{div_toward_zero, UNIT};
use route_transitions::transform::{negate, Transform};

#[test]
fn identity_is_in_place_at_full_scale() {
    let t = Transform::identity();
    assert_eq!(t, Transform { x: 0, y: 0, scale: 1_000_000, rotation: 0 });
    assert_eq!(t.scale, UNIT);
}

#[test]
fn new_keeps_its_parts() {
    let t = Transform::new(1, -2, 3, -4);
    assert_eq!((t.x, t.y, t.scale, t.rotation), (1, -2, 3, -4));
}

#[test]
fn offset_is_in_whole_percent() {
    let t = Transform::offset(-100, 25);
    assert_eq!(t, Transform { x: -100_000_000, y: 25_000_000, scale: 1_000_000, rotation: 0 });
    let far = Transform::offset(i32::MIN, i32::MAX);
    assert_eq!(far.x, -2_147_483_648_000_000);
    assert_eq!(far.y, 2_147_483_647_000_000);
}

#[test]
fn mirror_negates_offsets_and_rotation_and_keeps_scale() {
    let t = Transform::new(5, -7, 500_000, 90_000_000);
    assert_eq!(t.mirrored(), Transform::new(-5, 7, 500_000, -90_000_000));
    assert_eq!(t.mirrored().mirrored(), t);
    assert_eq!(Transform::identity().mirrored(), Transform::identity());
}

#[test]
fn negation_of_the_smallest_number_is_the_largest() {
    assert_eq!(negate(i64::MIN), i64::MAX);
    assert_eq!(negate(i64::MAX), -i64::MAX);
    assert_eq!(negate(0), 0);
    assert_eq!(negate(-3), 3);
    let t = Transform::new(i64::MIN, 0, 1, i64::MIN).mirrored();
    assert_eq!(t, Transform::new(i64::MAX, 0, 1, i64::MAX));
}

#[test]
fn division_rounds_toward_zero() {
    assert_eq!(div_toward_zero(7, 2), 3);
    assert_eq!(div_toward_zero(-7, 2), -3);
    assert_eq!(div_toward_zero(-1, 1000), 0);
    assert_eq!(div_toward_zero(0, 5), 0);
    assert_eq!(div_toward_zero(-6, 3), -2);
}
