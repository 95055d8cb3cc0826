use xpbd::body::PhysicsBundle;
use xpbd::colliders::Collider;
use xpbd::components::{Mass, PhysicsMode, Restitution, Transform, Velocity};
use xpbd::fx::{fx_mul, FX_HALF, FX_ONE};
use xpbd::vec3::Vec3;
use xpbd::world::{PhysicsPlugin, DEFAULT_DELTA_TIME, DEFAULT_GRAVITY_Y};

fn bundle(mode: PhysicsMode, mass: i64, velocity: Vec3) -> PhysicsBundle {
    PhysicsBundle {
        mode,
        mass: Mass(mass),
        collider: Collider::new_sphere(FX_HALF),
        velocity: Velocity { linear: velocity, angular: Vec3::zero() },
        restitution: Restitution::default(),
    }
}

#[test]
fn dynamic_inverse_mass_times_mass_is_one_within_tolerance() {
    let mut w = PhysicsPlugin::default().build();
    for mass in [FX_ONE, 2 * FX_ONE, 3 * FX_ONE, 7 * FX_ONE, 100 * FX_ONE] {
        let i = w.spawn(
            Transform::from_translation(Vec3::zero()),
            bundle(PhysicsMode::Dynamic, mass, Vec3::zero()),
        );
        let inv = w.bodies[i].inverse_mass.0;
        let product = fx_mul(mass, inv);
        assert!(
            (product - FX_ONE).abs() <= 1 + mass / (FX_ONE as i64),
            "mass {} gave product {}",
            mass,
            product
        );
    }
}

#[test]
fn a_static_body_has_inverse_mass_exactly_zero() {
    let mut w = PhysicsPlugin::default().build();
    let i = w.spawn(
        Transform::from_translation(Vec3::zero()),
        bundle(PhysicsMode::Static, 5 * FX_ONE, Vec3::new(FX_ONE, 0, 0)),
    );
    assert_eq!(w.bodies[i].inverse_mass.0, 0);
    // a static body's initial velocity is cleared on spawn
    assert_eq!(w.bodies[i].velocity.linear.x, 0);
    let inv_inertia = w.bodies[i].inverse_inertia_tensor.0;
    assert_eq!((inv_inertia.x, inv_inertia.y, inv_inertia.z), (0, 0, 0));
}

#[test]
fn spawn_back_projects_the_previous_position() {
    let mut w = PhysicsPlugin::default().build();
    let v = Vec3::new(2 * FX_ONE, 0, 0);
    let i = w.spawn(
        Transform::from_translation(Vec3::zero()),
        bundle(PhysicsMode::Dynamic, FX_ONE, v),
    );
    let h = w.config.sub_delta_time;
    assert_eq!(w.bodies[i].prev_pos.0.x, -fx_mul(v.x, h));
}

#[test]
fn default_settings_match_the_documented_configuration() {
    let p = PhysicsPlugin::default();
    assert_eq!(p.gravity.y, DEFAULT_GRAVITY_Y);
    assert_eq!(p.number_substeps, 20);
    assert_eq!(p.number_position_iterations, 1);
    assert_eq!(p.delta_time, DEFAULT_DELTA_TIME);
    let w = p.build();
    // one twelve-hundredth of a second, truncated
    assert_eq!(w.config.sub_delta_time, 3579139);
    assert_eq!(w.bodies.len(), 0);
}

#[test]
fn default_bundle_is_a_dynamic_unit_sphere() {
    let b = PhysicsBundle::default();
    assert_eq!(b.mode, PhysicsMode::Dynamic);
    assert_eq!(b.mass.0, FX_ONE);
    match b.collider {
        Collider::Sphere(s) => assert_eq!(s.radius, FX_HALF),
        Collider::Box(_) => panic!("default bundle should carry a sphere"),
    }
}

#[test]
fn a_dynamic_body_falls_under_default_gravity() {
    let mut w = PhysicsPlugin::default().build();
    let i = w.spawn(
        Transform::from_translation(Vec3::new(0, 10 * FX_ONE, 0)),
        bundle(PhysicsMode::Dynamic, FX_ONE, Vec3::zero()),
    );
    for _ in 0..60 {
        w.step(DEFAULT_DELTA_TIME);
    }
    let y = w.bodies[i].transform.translation.y;
    // after one second of free fall: about g/2 below the start
    let expected = 10 * FX_ONE - DEFAULT_GRAVITY_Y.abs() / 2;
    assert!(
        (y - expected).abs() < FX_ONE / 4,
        "fell to {}, expected about {}",
        y,
        expected
    );
    assert!(w.bodies[i].velocity.linear.y < -9 * FX_ONE / 2);
}
