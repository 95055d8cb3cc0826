//! Velocity derivation: after the position solver, each body's velocity is
//! recomputed from how far it actually moved this substep, and the previous
//! velocity is snapshotted for the restitution pass.
//!
//! The angular velocity comes from the orientation difference
//! `q * inverse(q_prev)` (the inverse of a unit orientation is its
//! conjugate), sign-corrected by the scalar part so the rotation axis stays
//! consistent.

use vstd::prelude::*;
use crate::body::{bodies_view, Body, Bodyg};
use crate::fx::{fx_div, fx_div_spec, fx_neg, fx_neg_spec, FX_TWO};
use crate::quat::{q_conjugate, q_mul};
use crate::vec3::{v3_div_s, v3_scale, v3_sub, Vec3, Vec3g};

verus! {

/// A body after velocity derivation with substep `h`: linear velocity is the
/// position change over `h`, angular velocity twice the vector part of the
/// orientation difference over `h`, with the sign of its scalar part.
pub open spec fn update_vel_body_spec(b: Bodyg, h: int) -> Bodyg
    recommends
        h != 0,
{
    let vel_lin = v3_div_s(v3_sub(b.pos, b.prev_pos), h);
    let dq = q_mul(b.rot, q_conjugate(b.prev_rot));
    let axis = Vec3g { x: dq.x, y: dq.y, z: dq.z };
    let vel_ang = if dq.w >= 0 {
        v3_scale(axis, fx_div_spec(FX_TWO as int, h))
    } else {
        v3_scale(axis, fx_div_spec(fx_neg_spec(FX_TWO as int), h))
    };
    Bodyg { vel_lin, vel_ang, pre_lin: b.vel_lin, pre_ang: b.vel_ang, ..b }
}

/// Derive one body's velocities from its position change.
pub fn update_vel_body(body: &mut Body, h: i64)
    requires
        h != 0,
    ensures
        final(body)@ == update_vel_body_spec(old(body)@, h as int),
{
    body.pre_solve_velocity.linear = body.velocity.linear;
    body.pre_solve_velocity.angular = body.velocity.angular;
    body.velocity.linear = body.transform.translation.sub(body.prev_pos.0).div_s(h);
    let inv = body.prev_rot.0.conjugate();
    let delta_q = body.transform.rotation.mul(inv);
    let axis = Vec3 { x: delta_q.x, y: delta_q.y, z: delta_q.z };
    if delta_q.w >= 0 {
        body.velocity.angular = axis.scale(fx_div(FX_TWO, h));
    } else {
        body.velocity.angular = axis.scale(fx_div(fx_neg(FX_TWO), h));
    }
}

/// Derive every body's velocities for this substep.
pub fn update_vel(bodies: &mut Vec<Body>, h: i64)
    requires
        h != 0,
    ensures
        final(bodies)@.len() == old(bodies)@.len(),
        forall|i: int|
            0 <= i < old(bodies)@.len() ==> (#[trigger] final(bodies)@[i])@ == update_vel_body_spec(
                old(bodies)@[i]@,
                h as int,
            ),
        bodies_view(final(bodies)@) == bodies_view(old(bodies)@).map_values(
            |b: Bodyg| update_vel_body_spec(b, h as int),
        ),
{
    let n = bodies.len();
    let mut i: usize = 0;
    while i < n
        invariant
            h != 0,
            n == old(bodies)@.len(),
            bodies@.len() == n,
            forall|j: int|
                0 <= j < i ==> (#[trigger] bodies@[j])@ == update_vel_body_spec(
                    old(bodies)@[j]@,
                    h as int,
                ),
            forall|j: int| i <= j < n ==> #[trigger] bodies@[j] == old(bodies)@[j],
        decreases n - i,
    {
        update_vel_body(&mut bodies[i], h);
        i = i + 1;
    }
    proof {
        assert(bodies_view(bodies@) =~= bodies_view(old(bodies)@).map_values(
            |b: Bodyg| update_vel_body_spec(b, h as int),
        ));
    }
}

} // verus!
