use xpbd::fx::{FX_HALF, FX_ONE, FX_TWO};
use xpbd::quat::Quat;
use xpbd::vec3::Vec3;

#[test]
fn vector_arithmetic_is_componentwise() {
    let a = Vec3::new(FX_ONE, 2 * FX_ONE, -FX_ONE);
    let b = Vec3::new(FX_HALF, -FX_ONE, FX_ONE);
    let s = a.add(b);
    assert_eq!((s.x, s.y, s.z), (FX_ONE + FX_HALF, FX_ONE, 0));
    let d = a.sub(b);
    assert_eq!((d.x, d.y, d.z), (FX_HALF, 3 * FX_ONE, -2 * FX_ONE));
    let n = a.neg();
    assert_eq!((n.x, n.y, n.z), (-FX_ONE, -2 * FX_ONE, FX_ONE));
    let sc = a.scale(FX_HALF);
    assert_eq!((sc.x, sc.y, sc.z), (FX_HALF, FX_ONE, -FX_HALF));
    let dv = a.div_s(FX_TWO);
    assert_eq!((dv.x, dv.y, dv.z), (FX_HALF, FX_ONE, -FX_HALF));
}

#[test]
fn dot_cross_and_length() {
    let x = Vec3::new(FX_ONE, 0, 0);
    let y = Vec3::new(0, FX_ONE, 0);
    assert_eq!(x.dot(y), 0);
    assert_eq!(x.dot(x), FX_ONE);
    let z = x.cross(y);
    assert_eq!((z.x, z.y, z.z), (0, 0, FX_ONE));
    let v = Vec3::new(3 * FX_ONE, 4 * FX_ONE, 0);
    assert_eq!(v.length_squared(), 25 * FX_ONE);
    assert_eq!(v.length(), 5 * FX_ONE);
    let u = v.normalize_or_zero();
    // 3/5 and 4/5 exactly
    assert_eq!((u.x, u.y, u.z), (2576980377, 3435973836, 0));
    let nz = Vec3::zero().normalize_or_zero();
    assert_eq!((nz.x, nz.y, nz.z), (0, 0, 0));
}

#[test]
fn quaternion_identity_and_conjugate() {
    let q = Quat::identity();
    let v = Vec3::new(FX_ONE, -FX_HALF, 3 * FX_ONE);
    let r = q.rotate(v);
    assert_eq!((r.x, r.y, r.z), (v.x, v.y, v.z));
    let c = q.conjugate();
    assert_eq!((c.x, c.y, c.z, c.w), (0, 0, 0, FX_ONE));
    assert_eq!(q.norm_squared(), FX_ONE);
    assert_eq!(q.length(), FX_ONE);
}

#[test]
fn quarter_turn_about_z_carries_x_to_y() {
    // sin(pi/4) == cos(pi/4) in raw units, truncated
    let s45: i64 = 3037000499;
    let q = Quat::from_xyzw(0, 0, s45, s45);
    let r = q.rotate(Vec3::new(FX_ONE, 0, 0));
    assert_eq!((r.x, r.y, r.z), (0, 4294967292, 0));
}

#[test]
fn normalize_restores_unit_norm() {
    let q = Quat::from_xyzw(0, 0, 0, 3 * FX_ONE).normalize();
    assert_eq!((q.x, q.y, q.z, q.w), (0, 0, 0, FX_ONE));
    let z = Quat::from_xyzw(0, 0, 0, 0).normalize();
    assert_eq!((z.x, z.y, z.z, z.w), (0, 0, 0, 0));
}
