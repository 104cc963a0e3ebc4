use pbrtrs_core::intersect::{nearest_hit, PossibleIntersection, ShapeHit};

fn hit(distance: f32) -> ShapeHit {
    ShapeHit::Hit { distance: distance.to_bits() }
}

fn same(a: PossibleIntersection<usize, usize>, b: PossibleIntersection<usize, usize>) -> bool {
    match (a, b) {
        (PossibleIntersection::Hit(x), PossibleIntersection::Hit(y)) => x == y,
        (PossibleIntersection::HitLight(x), PossibleIntersection::HitLight(y)) => x == y,
        (PossibleIntersection::Miss, PossibleIntersection::Miss) => true,
        (PossibleIntersection::Ignored, PossibleIntersection::Ignored) => true,
        _ => false,
    }
}

#[test]
fn nearest_object_wins() {
    let objects = [ShapeHit::Miss, hit(4.0), hit(2.5), hit(9.0)];
    let lights = [hit(3.0), ShapeHit::Miss];
    assert!(same(nearest_hit(&objects, &lights), PossibleIntersection::Hit(2)));
}

#[test]
fn nearest_light_wins() {
    let objects = [hit(4.0), hit(2.5)];
    let lights = [ShapeHit::Miss, hit(1.0), hit(0.5)];
    assert!(same(nearest_hit(&objects, &lights), PossibleIntersection::HitLight(2)));
}

#[test]
fn first_of_equal_hits_wins() {
    assert!(same(nearest_hit(&[hit(2.0), hit(2.0)], &[hit(2.0)]), PossibleIntersection::Hit(0)));
    assert!(same(nearest_hit(&[], &[hit(2.0), hit(2.0)]), PossibleIntersection::HitLight(0)));
}

#[test]
fn nothing_hit() {
    assert!(same(nearest_hit(&[], &[]), PossibleIntersection::Miss));
    assert!(same(
        nearest_hit(&[ShapeHit::Miss], &[ShapeHit::Miss, ShapeHit::Miss]),
        PossibleIntersection::Miss
    ));
}

#[test]
fn any_ignored_shape_ignores_the_ray() {
    assert!(same(
        nearest_hit(&[hit(1.0), ShapeHit::Ignored], &[hit(0.5)]),
        PossibleIntersection::Ignored
    ));
    assert!(same(
        nearest_hit(&[hit(1.0)], &[hit(0.5), ShapeHit::Ignored]),
        PossibleIntersection::Ignored
    ));
}

#[test]
fn possible_intersection_variants() {
    let hit: PossibleIntersection<u8, u8> = PossibleIntersection::Hit(3);
    let light: PossibleIntersection<u8, u8> = PossibleIntersection::HitLight(4);
    let miss: PossibleIntersection<u8, u8> = PossibleIntersection::Miss;
    let ignored: PossibleIntersection<u8, u8> = PossibleIntersection::Ignored;
    assert!(hit.is_hit() && !hit.is_miss() && !hit.is_ignored());
    assert!(!light.is_hit() && !light.is_miss() && !light.is_ignored());
    assert!(miss.is_miss() && !miss.is_hit());
    assert!(ignored.is_ignored() && !ignored.is_miss());
    assert_eq!(*hit.unwrap(), 3);
    assert_eq!(hit.unwrap_into(), 3);
}
