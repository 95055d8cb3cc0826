use xpbd::body::PhysicsBundle;
use xpbd::colliders::Collider;
use xpbd::components::{Mass, PhysicsMode, Restitution, Transform, Velocity};
use xpbd::fx::{FX_HALF, FX_ONE, FX_TWO};
use xpbd::vec3::Vec3;
use xpbd::world::{PhysicsPlugin, DEFAULT_DELTA_TIME};

#[test]
fn equal_spheres_exchange_velocities_head_on() {
    // two unit-mass spheres of radius one half, four units apart, approaching
    // at two units per second each, no gravity, full restitution
    let mut plugin = PhysicsPlugin::default();
    plugin.gravity = Vec3::zero();
    let mut w = plugin.build();
    let sphere = Collider::new_sphere(FX_HALF);
    let a = w.spawn(
        Transform::from_translation(Vec3::new(-2 * FX_ONE, 0, 0)),
        PhysicsBundle {
            mode: PhysicsMode::Dynamic,
            mass: Mass(FX_ONE),
            collider: sphere,
            velocity: Velocity { linear: Vec3::new(FX_TWO, 0, 0), angular: Vec3::zero() },
            restitution: Restitution(FX_ONE),
        },
    );
    let b = w.spawn(
        Transform::from_translation(Vec3::new(2 * FX_ONE, 0, 0)),
        PhysicsBundle {
            mode: PhysicsMode::Dynamic,
            mass: Mass(FX_ONE),
            collider: sphere,
            velocity: Velocity { linear: Vec3::new(-FX_TWO, 0, 0), angular: Vec3::zero() },
            restitution: Restitution(FX_ONE),
        },
    );
    for _ in 0..150 {
        w.step(DEFAULT_DELTA_TIME);
    }
    let va = w.bodies[a].velocity.linear;
    let vb = w.bodies[b].velocity.linear;
    // the velocities have fully exchanged
    assert!((va.x + FX_TWO).abs() < 500, "va.x = {}", va.x);
    assert!((vb.x - FX_TWO).abs() < 500, "vb.x = {}", vb.x);
    assert_eq!((va.y, va.z, vb.y, vb.z), (0, 0, 0, 0));
    // and they are moving apart
    assert!(w.bodies[a].transform.translation.x < -2 * FX_ONE);
    assert!(w.bodies[b].transform.translation.x > 2 * FX_ONE);
}

#[test]
fn a_sphere_rests_on_a_static_box_without_sinking() {
    let mut w = PhysicsPlugin::default().build();
    let _ground = w.spawn(
        Transform::from_translation(Vec3::zero()),
        PhysicsBundle {
            mode: PhysicsMode::Static,
            mass: Mass(FX_ONE),
            collider: Collider::new_box(10 * FX_ONE, FX_ONE, 10 * FX_ONE),
            velocity: Velocity::zero(),
            restitution: Restitution::default(),
        },
    );
    let ball = w.spawn(
        Transform::from_translation(Vec3::new(0, FX_ONE + FX_ONE / 5, 0)),
        PhysicsBundle {
            mode: PhysicsMode::Dynamic,
            mass: Mass(FX_ONE),
            collider: Collider::new_sphere(FX_HALF),
            velocity: Velocity::zero(),
            restitution: Restitution::default(),
        },
    );
    for _ in 0..300 {
        w.step(DEFAULT_DELTA_TIME);
    }
    let y_settled = w.bodies[ball].transform.translation.y;
    // resting height: box top at one half plus the sphere radius, near one
    assert!(
        y_settled > FX_ONE - FX_ONE / 100 && y_settled < FX_ONE + FX_ONE / 100,
        "settled height {}",
        y_settled
    );
    for _ in 0..120 {
        w.step(DEFAULT_DELTA_TIME);
    }
    let y_later = w.bodies[ball].transform.translation.y;
    // two seconds later the height has not drifted: no net sinking
    assert!(
        (y_later - y_settled).abs() < FX_ONE / 200,
        "height drifted from {} to {}",
        y_settled,
        y_later
    );
}

#[test]
fn unequal_masses_split_an_elastic_collision_by_the_mass_ratio() {
    // mass one against mass two, head-on at two units per second each,
    // restitution one: the analytic outcome is -10/3 and +2/3
    let mut plugin = PhysicsPlugin::default();
    plugin.gravity = Vec3::zero();
    let mut w = plugin.build();
    let sphere = Collider::new_sphere(FX_HALF);
    let a = w.spawn(
        Transform::from_translation(Vec3::new(-2 * FX_ONE, 0, 0)),
        PhysicsBundle {
            mode: PhysicsMode::Dynamic,
            mass: Mass(FX_ONE),
            collider: sphere,
            velocity: Velocity { linear: Vec3::new(FX_TWO, 0, 0), angular: Vec3::zero() },
            restitution: Restitution(FX_ONE),
        },
    );
    let b = w.spawn(
        Transform::from_translation(Vec3::new(2 * FX_ONE, 0, 0)),
        PhysicsBundle {
            mode: PhysicsMode::Dynamic,
            mass: Mass(2 * FX_ONE),
            collider: sphere,
            velocity: Velocity { linear: Vec3::new(-FX_TWO, 0, 0), angular: Vec3::zero() },
            restitution: Restitution(FX_ONE),
        },
    );
    for _ in 0..180 {
        w.step(DEFAULT_DELTA_TIME);
    }
    let va = w.bodies[a].velocity.linear.x;
    let vb = w.bodies[b].velocity.linear.x;
    let expected_a: i64 = -10 * FX_ONE / 3;
    let expected_b: i64 = 2 * FX_ONE / 3;
    assert!((va - expected_a).abs() < FX_ONE / 100, "va = {}", va);
    assert!((vb - expected_b).abs() < FX_ONE / 100, "vb = {}", vb);
}

#[test]
fn constant_spin_matches_the_small_angle_rotation_and_keeps_unit_norm() {
    // half a radian per second about z, no gravity, no contacts
    let mut plugin = PhysicsPlugin::default();
    plugin.gravity = Vec3::zero();
    let mut w = plugin.build();
    let body = w.spawn(
        Transform::from_translation(Vec3::zero()),
        PhysicsBundle {
            mode: PhysicsMode::Dynamic,
            mass: Mass(FX_ONE),
            collider: Collider::new_sphere(FX_HALF),
            velocity: Velocity { linear: Vec3::zero(), angular: Vec3::new(0, 0, FX_HALF) },
            restitution: Restitution::default(),
        },
    );
    for _ in 0..120 {
        w.step(DEFAULT_DELTA_TIME);
    }
    let q = w.bodies[body].transform.rotation;
    // after two seconds the analytic rotation is one radian about z:
    // q = (0, 0, sin(1/2), cos(1/2))
    let sin_half: i64 = 2059117009;
    let cos_half: i64 = 3769188402;
    assert!((q.z - sin_half).abs() < FX_ONE / 100, "q.z = {}", q.z);
    assert!((q.w - cos_half).abs() < FX_ONE / 100, "q.w = {}", q.w);
    assert_eq!((q.x, q.y), (0, 0));
    // renormalisation keeps the orientation at unit norm
    assert!((q.norm_squared() - FX_ONE).abs() < 10_000);
}
