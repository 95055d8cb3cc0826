use xpbd::colliders::Collider;
use xpbd::components::Transform;
use xpbd::fx::{FX_HALF, FX_ONE};
use xpbd::intersect::{box_sphere_intersect, gjk_intersect, sphere_sphere_intersect};
use xpbd::vec3::Vec3;

const QUARTER: i64 = FX_HALF / 2;

#[test]
fn spheres_closer_than_combined_radii_touch() {
    // radius 0.5 each, centers 0.75 apart: penetration is exactly 0.25
    let r = sphere_sphere_intersect(
        Vec3::zero(),
        FX_HALF,
        Vec3::new(3 * QUARTER, 0, 0),
        FX_HALF,
    );
    let i = r.expect("overlapping spheres must report a contact");
    assert_eq!(i.penetration, QUARTER);
    assert_eq!((i.normal.x, i.normal.y, i.normal.z), (FX_ONE, 0, 0));
}

#[test]
fn exactly_touching_spheres_report_nothing() {
    // centers exactly one combined radius apart: strict inequality fails
    let r = sphere_sphere_intersect(Vec3::zero(), FX_HALF, Vec3::new(FX_ONE, 0, 0), FX_HALF);
    assert!(r.is_none());
}

#[test]
fn separated_spheres_report_nothing() {
    let r = sphere_sphere_intersect(Vec3::zero(), FX_HALF, Vec3::new(3 * FX_ONE, 0, 0), FX_HALF);
    assert!(r.is_none());
}

#[test]
fn coincident_spheres_are_skipped_not_divided() {
    let r = sphere_sphere_intersect(Vec3::zero(), FX_HALF, Vec3::zero(), FX_HALF);
    assert!(r.is_none());
}

#[test]
fn normal_points_from_the_first_sphere_to_the_second() {
    let r = sphere_sphere_intersect(
        Vec3::new(3 * QUARTER, 0, 0),
        FX_HALF,
        Vec3::zero(),
        FX_HALF,
    )
    .unwrap();
    assert_eq!(r.normal.x, -FX_ONE);
}

#[test]
fn sphere_on_a_box_face() {
    // unit box at the origin; sphere radius 0.5 centred 0.75 above it
    let bt = Transform::from_translation(Vec3::zero());
    let st = Transform::from_translation(Vec3::new(0, 3 * QUARTER, 0));
    let r = box_sphere_intersect(&bt, Vec3::new(FX_HALF, FX_HALF, FX_HALF), &st, FX_HALF);
    let i = r.expect("sphere resting into the box face must report a contact");
    assert_eq!(i.penetration, QUARTER);
    assert_eq!((i.normal.x, i.normal.y, i.normal.z), (0, FX_ONE, 0));
}

#[test]
fn sphere_away_from_a_box_reports_nothing() {
    let bt = Transform::from_translation(Vec3::zero());
    let st = Transform::from_translation(Vec3::new(0, 3 * FX_ONE, 0));
    let r = box_sphere_intersect(&bt, Vec3::new(FX_HALF, FX_HALF, FX_HALF), &st, FX_HALF);
    assert!(r.is_none());
}

#[test]
fn general_test_rejects_separated_bounds() {
    // two unit boxes far apart on x: their bounding boxes are separated
    let a = Collider::new_box(FX_ONE, FX_ONE, FX_ONE);
    let b = Collider::new_box(FX_ONE, FX_ONE, FX_ONE);
    let ta = Transform::from_translation(Vec3::zero());
    let tb = Transform::from_translation(Vec3::new(10 * FX_ONE, 0, 0));
    assert!(gjk_intersect(&a, &ta, &b, &tb, 4294967).is_none());
}

#[test]
fn general_test_finds_overlapping_boxes() {
    let a = Collider::new_box(FX_ONE, FX_ONE, FX_ONE);
    let b = Collider::new_box(FX_ONE, FX_ONE, FX_ONE);
    let ta = Transform::from_translation(Vec3::zero());
    let tb = Transform::from_translation(Vec3::new(FX_HALF, 0, 0));
    let i = gjk_intersect(&a, &ta, &b, &tb, 4294967).expect("overlapping boxes must touch");
    assert!(i.penetration > 0);
    // least overlap is along x, pointing from the first box toward the second
    assert!(i.normal.x > 0 && i.normal.y == 0 && i.normal.z == 0);
}

#[test]
fn general_test_handles_box_and_sphere() {
    let b = Collider::new_box(10 * FX_ONE, FX_ONE, 10 * FX_ONE);
    let s = Collider::new_sphere(FX_HALF);
    let tb = Transform::from_translation(Vec3::zero());
    let ts = Transform::from_translation(Vec3::new(0, 3 * QUARTER, 0));
    let i = gjk_intersect(&b, &tb, &s, &ts, 4294967).expect("sphere into the slab must touch");
    assert!(i.penetration > 0);
    assert!(i.normal.y > 0);
}
