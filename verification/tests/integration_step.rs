use xpbd::body::PhysicsBundle;
use xpbd::colliders::Collider;
use xpbd::components::{Mass, PhysicsMode, Restitution, Transform, Velocity};
use xpbd::fx::{fx_div, fx_mul, FX_HALF, FX_ONE, FX_TWO};
use xpbd::integrate::integrate;
use xpbd::update_velocities::update_vel;
use xpbd::vec3::Vec3;
use xpbd::world::PhysicsPlugin;

fn one_body_world(vel: Vec3, mode: PhysicsMode) -> xpbd::world::PhysicsWorld {
    let mut w = PhysicsPlugin::default().build();
    w.spawn(
        Transform::from_translation(Vec3::zero()),
        PhysicsBundle {
            mode,
            mass: Mass(FX_ONE),
            collider: Collider::new_sphere(FX_HALF),
            velocity: Velocity { linear: vel, angular: Vec3::zero() },
            restitution: Restitution::default(),
        },
    );
    w
}

#[test]
fn integration_advances_velocity_then_position() {
    let mut w = one_body_world(Vec3::new(FX_TWO, 0, 0), PhysicsMode::Dynamic);
    let h = w.config.sub_delta_time;
    let g = Vec3::new(0, -FX_ONE, 0);
    integrate(&mut w.bodies, g, h);
    let b = &w.bodies[0];
    // the transform before the update is snapshotted
    assert_eq!(b.prev_pos.0.x, 0);
    // v += h * gravity, then x += h * v (semi-implicit order)
    assert_eq!(b.velocity.linear.y, fx_mul(-FX_ONE, h));
    assert_eq!(b.velocity.linear.x, FX_TWO);
    assert_eq!(b.transform.translation.x, fx_mul(FX_TWO, h));
    assert_eq!(b.transform.translation.y, fx_mul(fx_mul(-FX_ONE, h), h));
}

#[test]
fn a_static_body_is_skipped_entirely() {
    let mut w = one_body_world(Vec3::zero(), PhysicsMode::Static);
    let before = w.bodies[0];
    integrate(&mut w.bodies, Vec3::new(0, -FX_ONE, 0), w.config.sub_delta_time);
    assert_eq!(w.bodies[0], before);
}

#[test]
fn velocity_is_rederived_from_the_position_change() {
    let mut w = one_body_world(Vec3::zero(), PhysicsMode::Dynamic);
    let h = w.config.sub_delta_time;
    // move the body by hand, as the position solver would
    let dx = fx_mul(FX_TWO, h);
    w.bodies[0].prev_pos.0 = Vec3::zero();
    w.bodies[0].transform.translation = Vec3::new(dx, 0, 0);
    update_vel(&mut w.bodies, h);
    let b = &w.bodies[0];
    // the pre-solve snapshot keeps the old velocity, the new one is dx / h
    assert_eq!(b.pre_solve_velocity.linear.x, 0);
    assert_eq!(b.velocity.linear.x, fx_div(dx, h));
    // an unchanged orientation yields zero angular velocity
    assert_eq!((b.velocity.angular.x, b.velocity.angular.y, b.velocity.angular.z), (0, 0, 0));
}
