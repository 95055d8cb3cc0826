use xpbd::colliders::{BoxCollider, Collider, Ray, Sphere};
use xpbd::components::{Aabb, Transform, Velocity};
use xpbd::fx::{FX_HALF, FX_ONE, FX_TWO};
use xpbd::quat::Quat;
use xpbd::vec3::Vec3;

#[test]
fn sphere_constructor_fills_bounds() {
    let s = Sphere::new(FX_HALF);
    assert_eq!(s.radius, FX_HALF);
    assert_eq!((s.aabb.mins.x, s.aabb.mins.y, s.aabb.mins.z), (-FX_HALF, -FX_HALF, -FX_HALF));
    assert_eq!((s.aabb.maxs.x, s.aabb.maxs.y, s.aabb.maxs.z), (FX_HALF, FX_HALF, FX_HALF));
    assert_eq!((s.center_of_mass.x, s.center_of_mass.y, s.center_of_mass.z), (0, 0, 0));
}

#[test]
fn box_constructor_halves_the_extents() {
    let b = BoxCollider::new(Vec3::new(2 * FX_ONE, 4 * FX_ONE, 6 * FX_ONE));
    assert_eq!((b.half_size.x, b.half_size.y, b.half_size.z), (FX_ONE, 2 * FX_ONE, 3 * FX_ONE));
    assert_eq!((b.aabb.mins.x, b.aabb.maxs.x), (-FX_ONE, FX_ONE));
}

#[test]
fn inertia_of_unit_shapes() {
    let s = Collider::new_sphere(FX_ONE);
    let i = s.get_inertia_tensor(FX_ONE);
    // (2/5) * 1 * 1^2
    assert_eq!((i.x, i.y, i.z), (1717986918, 1717986918, 1717986918));
    let b = Collider::new_box(FX_ONE, FX_ONE, FX_ONE);
    let ib = b.get_inertia_tensor(FX_ONE);
    // (1 + 1) / 12
    assert_eq!((ib.x, ib.y, ib.z), (715827882, 715827882, 715827882));
}

#[test]
fn support_point_of_a_box_is_the_furthest_corner() {
    let b = Collider::new_box(FX_ONE, FX_ONE, FX_ONE);
    let t = Transform::from_translation(Vec3::zero());
    let s = b.get_support(&t, Vec3::new(FX_ONE, 0, 0), 0);
    // the earliest corner with positive x wins the tie
    assert_eq!((s.x, s.y, s.z), (FX_HALF, -FX_HALF, -FX_HALF));
    let s2 = b.get_support(&t, Vec3::new(-FX_ONE, FX_ONE, FX_ONE), 0);
    assert_eq!((s2.x, s2.y, s2.z), (-FX_HALF, FX_HALF, FX_HALF));
}

#[test]
fn support_point_of_a_sphere_extends_along_the_probe() {
    let c = Collider::new_sphere(FX_HALF);
    let t = Transform::from_translation(Vec3::new(FX_ONE, 0, 0));
    let s = c.get_support(&t, Vec3::new(FX_ONE, 0, 0), 0);
    assert_eq!((s.x, s.y, s.z), (FX_ONE + FX_HALF, 0, 0));
}

#[test]
fn speed_bound_dominates_a_corner_speed() {
    let b = Collider::new_box(FX_ONE, FX_ONE, FX_ONE);
    // unit angular velocity about z: a corner at x = 0.5 moves at 0.5 along y
    let v = b.fastest_linear_speed(Vec3::new(0, 0, FX_ONE), Vec3::new(0, FX_ONE, 0));
    assert_eq!(v, FX_HALF);
    let s = Collider::new_sphere(FX_ONE);
    assert_eq!(s.fastest_linear_speed(Vec3::new(0, 0, FX_ONE), Vec3::new(0, FX_ONE, 0)), 0);
}

#[test]
fn world_bounds_grow_with_speed() {
    let c = Collider::new_sphere(FX_HALF);
    let t = Transform::from_translation(Vec3::new(0, 4 * FX_ONE, 0));
    let vel = Velocity { linear: Vec3::new(FX_ONE, 0, 0), angular: Vec3::zero() };
    let mut aabb = Aabb::zero();
    c.update_aabb(&mut aabb, &t, &vel, FX_TWO);
    // margin = 2 * |v| = 2, half extent = 2.5
    assert_eq!(aabb.mins.y, 4 * FX_ONE - (2 * FX_ONE + FX_HALF));
    assert_eq!(aabb.maxs.y, 4 * FX_ONE + 2 * FX_ONE + FX_HALF);
}

#[test]
fn ray_hits_a_sphere_at_the_near_root() {
    let s = Sphere::new(FX_ONE);
    let ray = Ray { origin: Vec3::new(-2 * FX_ONE, 0, 0), direction: Vec3::new(FX_ONE, 0, 0) };
    assert_eq!(s.intersect(&ray), Some(FX_ONE));
    let miss = Ray { origin: Vec3::new(-2 * FX_ONE, 3 * FX_ONE, 0), direction: Vec3::new(FX_ONE, 0, 0) };
    assert_eq!(s.intersect(&miss), None);
    let away = Ray { origin: Vec3::new(-2 * FX_ONE, 0, 0), direction: Vec3::new(-FX_ONE, 0, 0) };
    assert_eq!(s.intersect(&away), None);
}

#[test]
fn ray_hits_a_box_through_the_slabs() {
    let b = BoxCollider::new(Vec3::new(FX_ONE, FX_ONE, FX_ONE));
    let ray = Ray { origin: Vec3::new(-2 * FX_ONE, 0, 0), direction: Vec3::new(FX_ONE, 0, 0) };
    // enters at x = -0.5, 1.5 units from the origin
    assert_eq!(b.intersect(&ray), Some(FX_ONE + FX_HALF));
    let miss = Ray { origin: Vec3::new(-2 * FX_ONE, FX_ONE, 0), direction: Vec3::new(FX_ONE, 0, 0) };
    assert_eq!(b.intersect(&miss), None);
    let inside = Ray { origin: Vec3::zero(), direction: Vec3::new(FX_ONE, 0, 0) };
    // starting inside reports the exit distance
    assert_eq!(b.intersect(&inside), Some(FX_HALF));
    let c = Collider::Box(b);
    assert_eq!(c.intersect(&ray), Some(FX_ONE + FX_HALF));
}

#[test]
fn world_bounds_of_a_rotated_box_cover_its_corners() {
    // an eighth turn about z carries a unit box corner out to sqrt(2)/2 on
    // x; the world box must reach it
    let s22: i64 = 1643612827; // sin of a sixteenth turn
    let c22: i64 = 3968032377; // cosine of a sixteenth turn
    let b = Collider::new_box(FX_ONE, FX_ONE, FX_ONE);
    let t = Transform { translation: Vec3::zero(), rotation: Quat::from_xyzw(0, 0, s22, c22) };
    let mut aabb = Aabb::zero();
    b.update_aabb(&mut aabb, &t, &Velocity::zero(), 0);
    // 0.7071 in raw units, within a small truncation allowance
    assert!(aabb.maxs.x > 3000000000, "maxs.x = {}", aabb.maxs.x);
    assert!(aabb.mins.x < -3000000000, "mins.x = {}", aabb.mins.x);
    // an unrotated box keeps exactly its half extents
    let t0 = Transform::from_translation(Vec3::zero());
    b.update_aabb(&mut aabb, &t0, &Velocity::zero(), 0);
    assert_eq!((aabb.mins.x, aabb.maxs.x), (-FX_HALF, FX_HALF));
}

#[test]
fn default_collider_is_a_half_unit_sphere() {
    match Collider::default() {
        Collider::Sphere(s) => assert_eq!(s.radius, FX_HALF),
        Collider::Box(_) => panic!("default collider should be a sphere"),
    }
}

#[test]
fn rotated_box_vertices_feed_the_support() {
    // quarter turn about z: the +x face corners move to +y
    let s45: i64 = 3037000499;
    let b = Collider::new_box(2 * FX_ONE, FX_ONE, FX_ONE);
    let t = Transform { translation: Vec3::zero(), rotation: Quat::from_xyzw(0, 0, s45, s45) };
    let s = b.get_support(&t, Vec3::new(0, FX_ONE, 0), 0);
    // the long half extent (1.0) now points along y, within truncation
    assert!((s.y - FX_ONE).abs() < 20, "support y was {}", s.y);
}
