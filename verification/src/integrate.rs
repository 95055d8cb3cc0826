//! Semi-implicit Euler integration, one substep at a time.
//!
//! A dynamic body first snapshots its transform, then gains `h * gravity` of
//! linear velocity and advances its position by `h` times the new velocity.
//! Its angular velocity follows Euler's rigid-body equation with the
//! gyroscopic term, the orientation advances by the linearised quaternion
//! derivative (each axis independently), and is then renormalised.  Static
//! bodies are skipped entirely.  The contract pins every updated field to
//! the spec-level computation `integrate_body_spec`.

use vstd::prelude::*;
use crate::body::{bodies_view, Body, Bodyg};
use crate::components::{PhysicsMode, PrevPos, PrevRot};
use crate::fx::{fx_add, fx_mul, fx_add_spec, fx_mul_spec, FX_HALF};
use crate::quat::{q_mul, q_normalize_spec, Quat, Quatg};
use crate::vec3::{v3_add, v3_cross, v3_mul_elem, v3_neg, v3_scale, Vec3g};

verus! {

/// A body after one substep of integration under `gravity` with step `h`:
/// the exact fixed-point image of the integrator.
pub open spec fn integrate_body_spec(b: Bodyg, gravity: Vec3g, h: int) -> Bodyg {
    if b.mode == PhysicsMode::Static {
        b
    } else {
        let vel_lin = v3_add(b.vel_lin, v3_scale(gravity, h));
        let pos = v3_add(b.pos, v3_scale(vel_lin, h));
        let torque = v3_neg(v3_cross(b.vel_ang, v3_mul_elem(b.inertia, b.vel_ang)));
        let vel_ang = v3_add(b.vel_ang, v3_scale(v3_mul_elem(b.inv_inertia, torque), h));
        let aux = Quatg { x: vel_ang.x, y: vel_ang.y, z: vel_ang.z, w: 0 };
        let dq = q_mul(aux, b.rot);
        let hh = fx_mul_spec(h, FX_HALF as int);
        let rot = q_normalize_spec(
            Quatg {
                x: fx_add_spec(b.rot.x, fx_mul_spec(hh, dq.x)),
                y: fx_add_spec(b.rot.y, fx_mul_spec(hh, dq.y)),
                z: fx_add_spec(b.rot.z, fx_mul_spec(hh, dq.z)),
                w: fx_add_spec(b.rot.w, fx_mul_spec(hh, dq.w)),
            },
        );
        Bodyg {
            pos,
            rot,
            prev_pos: b.pos,
            prev_rot: b.rot,
            vel_lin,
            vel_ang,
            ..b
        }
    }
}

/// Integrate one body; the new state is exactly `integrate_body_spec`.
pub fn integrate_body(body: &mut Body, gravity: crate::vec3::Vec3, h: i64)
    ensures
        final(body)@ == integrate_body_spec(old(body)@, gravity@, h as int),
{
    if let PhysicsMode::Static = body.mode {
        return;
    }
    body.prev_pos = PrevPos(body.transform.translation);
    body.prev_rot = PrevRot(body.transform.rotation);
    body.velocity.linear = body.velocity.linear.add(gravity.scale(h));
    body.transform.translation = body.transform.translation.add(body.velocity.linear.scale(h));
    let torque = body.velocity.angular.cross(body.inertia_tensor.0.mul_elem(body.velocity.angular)).neg();
    body.velocity.angular = body.velocity.angular.add(
        body.inverse_inertia_tensor.0.mul_elem(torque).scale(h),
    );
    let aux = Quat::from_xyzw(body.velocity.angular.x, body.velocity.angular.y, body.velocity.angular.z, 0);
    let dq = aux.mul(body.transform.rotation);
    let hh = fx_mul(h, FX_HALF);
    let advanced = Quat {
        x: fx_add(body.transform.rotation.x, fx_mul(hh, dq.x)),
        y: fx_add(body.transform.rotation.y, fx_mul(hh, dq.y)),
        z: fx_add(body.transform.rotation.z, fx_mul(hh, dq.z)),
        w: fx_add(body.transform.rotation.w, fx_mul(hh, dq.w)),
    };
    body.transform.rotation = advanced.normalize();
}

/// Integrate every body of the arena for one substep.
pub fn integrate(bodies: &mut Vec<Body>, gravity: crate::vec3::Vec3, h: i64)
    ensures
        final(bodies)@.len() == old(bodies)@.len(),
        forall|i: int|
            0 <= i < old(bodies)@.len() ==> (#[trigger] final(bodies)@[i])@ == integrate_body_spec(
                old(bodies)@[i]@,
                gravity@,
                h as int,
            ),
        bodies_view(final(bodies)@) == bodies_view(old(bodies)@).map_values(
            |b: Bodyg| integrate_body_spec(b, gravity@, h as int),
        ),
{
    let n = bodies.len();
    let mut i: usize = 0;
    while i < n
        invariant
            n == old(bodies)@.len(),
            bodies@.len() == n,
            forall|j: int|
                0 <= j < i ==> (#[trigger] bodies@[j])@ == integrate_body_spec(
                    old(bodies)@[j]@,
                    gravity@,
                    h as int,
                ),
            forall|j: int| i <= j < n ==> #[trigger] bodies@[j] == old(bodies)@[j],
        decreases n - i,
    {
        integrate_body(&mut bodies[i], gravity, h);
        i = i + 1;
    }
    proof {
        assert(bodies_view(bodies@) =~= bodies_view(old(bodies)@).map_values(
            |b: Bodyg| integrate_body_spec(b, gravity@, h as int),
        ));
    }
}

} // verus!
