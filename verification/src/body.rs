//! The rigid body and its creation.
//!
//! A body owns its transform, the previous transform (velocities are derived
//! from position change), linear and angular velocity, the pre-solve
//! velocity snapshot, mass data, restitution, its mode, its world bounding
//! box and its collider.  The host supplies mode, mass, collider, initial
//! velocity and restitution; everything else is derived here and owned by
//! the simulation.

use vstd::prelude::*;
use crate::colliders::Collider;
use crate::components::{
    Aabb, Aabbg, InertiaTensor, InverseInertiaTensor, InverseMass, Mass, PhysicsMode, PreSolveVelocity,
    PrevPos, PrevRot, Restitution, Transform, Velocity,
};
use crate::fx::{fx_div, fx_div_spec, FX_ONE, FX_SCALE};
use crate::quat::Quatg;
use crate::vec3::{v3_scale, v3_sub, Vec3, Vec3g};

verus! {

/// Mathematical image of a body: every scalar as an unbounded integer.
pub ghost struct Bodyg {
    pub pos: Vec3g,
    pub rot: Quatg,
    pub prev_pos: Vec3g,
    pub prev_rot: Quatg,
    pub vel_lin: Vec3g,
    pub vel_ang: Vec3g,
    pub pre_lin: Vec3g,
    pub pre_ang: Vec3g,
    pub mass: int,
    pub inv_mass: int,
    pub restitution: int,
    pub inertia: Vec3g,
    pub inv_inertia: Vec3g,
    pub mode: PhysicsMode,
    pub aabb: Aabbg,
    pub collider: Collider,
}

/// A rigid body in the simulation's arena.
#[derive(Clone, Copy, PartialEq, Eq, Structural, Debug)]
pub struct Body {
    pub transform: Transform,
    pub prev_pos: PrevPos,
    pub prev_rot: PrevRot,
    pub mass: Mass,
    pub inverse_mass: InverseMass,
    pub velocity: Velocity,
    pub pre_solve_velocity: PreSolveVelocity,
    pub restitution: Restitution,
    pub inertia_tensor: InertiaTensor,
    pub inverse_inertia_tensor: InverseInertiaTensor,
    pub mode: PhysicsMode,
    pub aabb: Aabb,
    pub collider: Collider,
}

impl View for Body {
    type V = Bodyg;

    open spec fn view(&self) -> Bodyg {
        Bodyg {
            pos: self.transform.translation@,
            rot: self.transform.rotation@,
            prev_pos: self.prev_pos.0@,
            prev_rot: self.prev_rot.0@,
            vel_lin: self.velocity.linear@,
            vel_ang: self.velocity.angular@,
            pre_lin: self.pre_solve_velocity.linear@,
            pre_ang: self.pre_solve_velocity.angular@,
            mass: self.mass.0 as int,
            inv_mass: self.inverse_mass.0 as int,
            restitution: self.restitution.0 as int,
            inertia: self.inertia_tensor.0@,
            inv_inertia: self.inverse_inertia_tensor.0@,
            mode: self.mode,
            aabb: self.aabb@,
            collider: self.collider,
        }
    }
}

/// What the host supplies to create a body; the derived fields are owned by
/// the simulation and filled in on spawn.
#[derive(Clone, Copy, PartialEq, Eq, Structural, Debug)]
pub struct PhysicsBundle {
    pub mode: PhysicsMode,
    pub mass: Mass,
    pub collider: Collider,
    pub velocity: Velocity,
    pub restitution: Restitution,
}

impl Default for PhysicsBundle {
    /// A dynamic unit-mass sphere of radius one half, at rest, moderately
    /// inelastic.
    fn default() -> (r: PhysicsBundle)
        ensures
            r.mode == PhysicsMode::Dynamic,
            r.mass.0 == FX_ONE,
            r.collider matches Collider::Sphere(s) && s.radius == crate::fx::FX_HALF,
            r.velocity.linear@ == (Vec3g { x: 0, y: 0, z: 0 }),
            r.velocity.angular@ == (Vec3g { x: 0, y: 0, z: 0 }),
            r.restitution.0 == 1288490188,
    {
        PhysicsBundle {
            mode: PhysicsMode::default(),
            mass: Mass::default(),
            collider: Collider::default(),
            velocity: Velocity::zero(),
            restitution: Restitution::default(),
        }
    }
}

/// The arena as mathematical bodies.
pub open spec fn bodies_view(s: Seq<Body>) -> Seq<Bodyg> {
    s.map_values(|b: Body| b@)
}

/// Reciprocal of a positive scalar; a non-positive one (degenerate inertia)
/// inverts to zero instead of being divided by.
pub open spec fn safe_recip_spec(x: int) -> int {
    if x <= 0 {
        0
    } else {
        fx_div_spec(FX_ONE as int, x)
    }
}

/// Guarded fixed-point reciprocal.
pub fn safe_recip(x: i64) -> (r: i64)
    ensures
        r as int == safe_recip_spec(x as int),
{
    if x <= 0 {
        0
    } else {
        fx_div(FX_ONE, x)
    }
}

/// A dynamic body's mass times its derived inverse mass is one, to within
/// the truncation of a single fixed-point division: the product of the raw
/// values brackets `FX_ONE * FX_SCALE` from below within one raw mass unit.
/// (For a raw mass of one or two — below a billionth of a unit — the
/// reciprocal saturates and the bracket does not hold.)
pub proof fn lemma_inverse_mass_accuracy(m: int)
    requires
        3 <= m <= i64::MAX as int,
    ensures
        ({
            let w = fx_div_spec(FX_ONE as int, m);
            &&& m * w <= (FX_ONE as int) * (FX_SCALE as int)
            &&& (FX_ONE as int) * (FX_SCALE as int) < m * w + m
            &&& w >= 0
        }),
{
    let n = (FX_ONE as int) * (FX_SCALE as int);
    vstd::arithmetic::div_mod::lemma_fundamental_div_mod(n, m);
    vstd::arithmetic::div_mod::lemma_div_pos_is_pos(n, m);
    vstd::arithmetic::div_mod::lemma_div_is_ordered(n, 3 * (i64::MAX as int), m);
    vstd::arithmetic::div_mod::lemma_div_is_ordered_by_denominator(3 * (i64::MAX as int), 3, m);
    vstd::arithmetic::div_mod::lemma_div_multiples_vanish(i64::MAX as int, 3);
}

/// A body after the mass-property refresh: a dynamic body carries the
/// reciprocal of its mass, the collider's inertia for that mass, and the
/// guarded reciprocal of each inertia entry; a static body carries inverse
/// mass and inverse inertia exactly zero.
pub open spec fn setup_body_spec(b: Bodyg) -> Bodyg {
    match b.mode {
        PhysicsMode::Dynamic => {
            let inertia = match b.collider {
                Collider::Sphere(s) => {
                    let i = crate::colliders::sphere_inertia_diag(s.radius as int, b.mass);
                    Vec3g { x: i, y: i, z: i }
                },
                Collider::Box(bx) => crate::colliders::box_inertia_diag(bx.size@, b.mass),
            };
            Bodyg {
                inv_mass: fx_div_spec(FX_ONE as int, b.mass),
                inertia,
                inv_inertia: Vec3g {
                    x: safe_recip_spec(inertia.x),
                    y: safe_recip_spec(inertia.y),
                    z: safe_recip_spec(inertia.z),
                },
                ..b
            }
        },
        PhysicsMode::Static => Bodyg {
            inv_mass: 0,
            inv_inertia: Vec3g { x: 0, y: 0, z: 0 },
            ..b
        },
    }
}

/// Derive the mass-owned fields: a dynamic body gets the reciprocal of its
/// mass, the collider's inertia for that mass, and the guarded reciprocal of
/// each inertia entry; a static body gets inverse mass and inverse inertia
/// exactly zero, its mass treated as infinite.
pub fn setup_inverse_mass_and_inverse_inertia_tensor(body: &mut Body)
    requires
        old(body).mode == PhysicsMode::Static || old(body).mass.0 >= 1,
    ensures
        final(body)@ == setup_body_spec(old(body)@),
        final(body).mode == old(body).mode,
        final(body).transform == old(body).transform,
        final(body).prev_pos == old(body).prev_pos,
        final(body).prev_rot == old(body).prev_rot,
        final(body).velocity == old(body).velocity,
        final(body).pre_solve_velocity == old(body).pre_solve_velocity,
        final(body).restitution == old(body).restitution,
        final(body).aabb == old(body).aabb,
        final(body).collider == old(body).collider,
        final(body).mass == old(body).mass,
        old(body).mode == PhysicsMode::Static ==> {
            &&& final(body).inverse_mass.0 == 0
            &&& final(body).inverse_inertia_tensor.0@ == (Vec3g { x: 0, y: 0, z: 0 })
            &&& final(body).inertia_tensor == old(body).inertia_tensor
        },
        old(body).mode == PhysicsMode::Dynamic ==> {
            &&& final(body).inverse_mass.0 as int == fx_div_spec(FX_ONE as int, old(body).mass.0 as int)
            &&& final(body).inertia_tensor.0@ == match old(body).collider {
                Collider::Sphere(s) => {
                    let i = crate::colliders::sphere_inertia_diag(
                        s.radius as int,
                        old(body).mass.0 as int,
                    );
                    Vec3g { x: i, y: i, z: i }
                },
                Collider::Box(b) => crate::colliders::box_inertia_diag(
                    b.size@,
                    old(body).mass.0 as int,
                ),
            }
            &&& final(body).inverse_inertia_tensor.0@ == (Vec3g {
                x: safe_recip_spec(final(body).inertia_tensor.0@.x),
                y: safe_recip_spec(final(body).inertia_tensor.0@.y),
                z: safe_recip_spec(final(body).inertia_tensor.0@.z),
            })
        },
{
    match body.mode {
        PhysicsMode::Dynamic => {
            body.inverse_mass = InverseMass(fx_div(FX_ONE, body.mass.0));
            let inertia = body.collider.get_inertia_tensor(body.mass.0);
            body.inertia_tensor = InertiaTensor(inertia);
            body.inverse_inertia_tensor = InverseInertiaTensor(
                Vec3 {
                    x: safe_recip(inertia.x),
                    y: safe_recip(inertia.y),
                    z: safe_recip(inertia.z),
                },
            );
        },
        PhysicsMode::Static => {
            body.inverse_mass = InverseMass(0);
            body.inverse_inertia_tensor = InverseInertiaTensor(Vec3::zero());
        },
    }
}

/// Prepare a freshly spawned body: a static body's velocity is cleared, and
/// the previous position is back-projected one substep so the first
/// velocity derivation reproduces the initial velocity.
pub fn setup_prev_pos(body: &mut Body, sub_delta_time: i64)
    ensures
        final(body).mode == old(body).mode,
        final(body).velocity.linear@ == if old(body).mode == PhysicsMode::Static {
            Vec3g { x: 0, y: 0, z: 0 }
        } else {
            old(body).velocity.linear@
        },
        final(body).velocity.angular == old(body).velocity.angular,
        final(body).prev_pos.0@ == v3_sub(
            old(body).transform.translation@,
            v3_scale(final(body).velocity.linear@, sub_delta_time as int),
        ),
        final(body).prev_rot == old(body).prev_rot,
        final(body).transform == old(body).transform,
        final(body).mass == old(body).mass,
        final(body).inverse_mass == old(body).inverse_mass,
        final(body).pre_solve_velocity == old(body).pre_solve_velocity,
        final(body).restitution == old(body).restitution,
        final(body).inertia_tensor == old(body).inertia_tensor,
        final(body).inverse_inertia_tensor == old(body).inverse_inertia_tensor,
        final(body).aabb == old(body).aabb,
        final(body).collider == old(body).collider,
{
    if let PhysicsMode::Static = body.mode {
        body.velocity.linear = Vec3::zero();
    }
    body.prev_pos = PrevPos(
        body.transform.translation.sub(body.velocity.linear.scale(sub_delta_time)),
    );
}

} // verus!
