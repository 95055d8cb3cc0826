use xpbd::components::Transform;
use xpbd::fx::{FX_HALF, FX_ONE, FX_TWO};
use xpbd::solve_positions::constrain_body_positions;
use xpbd::solve_velocities::velocity_impulses;
use xpbd::vec3::Vec3;

const QUARTER: i64 = FX_HALF / 2;
const EIGHTH: i64 = FX_HALF / 4;

#[test]
fn equal_masses_split_the_correction_evenly() {
    let mut ta = Transform::from_translation(Vec3::zero());
    let mut tb = Transform::from_translation(Vec3::new(3 * QUARTER, 0, 0));
    // penetration 0.25 along +x, both inverse masses one
    constrain_body_positions(&mut ta, &mut tb, FX_ONE, FX_ONE, Vec3::new(FX_ONE, 0, 0), QUARTER);
    assert_eq!(ta.translation.x, -EIGHTH);
    assert_eq!(tb.translation.x, 3 * QUARTER + EIGHTH);
    // mass-weighted displacements cancel exactly for equal masses
    assert_eq!(-ta.translation.x, tb.translation.x - 3 * QUARTER);
}

#[test]
fn a_static_body_never_moves() {
    let mut ta = Transform::from_translation(Vec3::zero());
    let mut tb = Transform::from_translation(Vec3::new(3 * QUARTER, 0, 0));
    // the first body is static: zero inverse mass
    constrain_body_positions(&mut ta, &mut tb, 0, FX_ONE, Vec3::new(FX_ONE, 0, 0), QUARTER);
    assert_eq!(ta.translation.x, 0);
    // the dynamic body takes the whole correction
    assert_eq!(tb.translation.x, FX_ONE);
}

#[test]
fn mass_weighted_displacements_balance_within_truncation() {
    let wa = FX_ONE;
    let wb = 3 * FX_ONE;
    let mut ta = Transform::from_translation(Vec3::zero());
    let mut tb = Transform::from_translation(Vec3::zero());
    constrain_body_positions(&mut ta, &mut tb, wa, wb, Vec3::new(0, FX_ONE, 0), QUARTER);
    let da = ta.translation.y as i128;
    let db = tb.translation.y as i128;
    // the two bodies move in opposite directions, and the displacements
    // weighted by the opposite inverse masses cancel to within one raw unit
    // per unit of combined weight
    assert!(da < 0 && db > 0);
    let mismatch = (wb as i128) * da + (wa as i128) * db;
    assert!(mismatch.unsigned_abs() < (wa as u128 + wb as u128), "mismatch {}", mismatch);
}

#[test]
fn restitution_impulse_reflects_the_relative_velocity() {
    // equal unit masses, head-on along x, full restitution
    let va = Vec3::new(FX_TWO, 0, 0);
    let vb = Vec3::new(-FX_TWO, 0, 0);
    let (da, db) = velocity_impulses(
        va,
        vb,
        va,
        vb,
        FX_ONE,
        FX_ONE,
        Vec3::new(FX_ONE, 0, 0),
        FX_ONE,
        FX_ONE,
    );
    // each body sheds its own two units and gains the other's two
    assert_eq!(da.x, -4 * FX_ONE);
    assert_eq!(db.x, -4 * FX_ONE);
}

#[test]
fn a_static_body_absorbs_no_impulse() {
    let va = Vec3::new(0, -FX_TWO, 0);
    let vb = Vec3::zero();
    let (da, db) = velocity_impulses(
        va,
        vb,
        va,
        vb,
        FX_ONE,
        FX_ONE,
        Vec3::new(0, FX_ONE, 0),
        FX_ONE,
        0,
    );
    assert_eq!((db.x, db.y, db.z), (0, 0, 0));
    assert!(da.y > 0);
}
