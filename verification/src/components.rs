//! Per-body state: transform, previous transform, velocities, mass data,
//! restitution, body mode, and the world-space bounding box.

use vstd::prelude::*;
use crate::fx::{FX_ONE};
use crate::quat::{Quat, Quatg};
use crate::vec3::{Vec3, Vec3g};

verus! {

/// Position and orientation of a body in world space.
#[derive(Clone, Copy, PartialEq, Eq, Structural, Debug)]
pub struct Transform {
    pub translation: Vec3,
    pub rotation: Quat,
}

impl Transform {
    /// Identity transform at a given position.
    pub fn from_translation(t: Vec3) -> (r: Transform)
        ensures
            r.translation == t,
            r.rotation@ == (Quatg { x: 0, y: 0, z: 0, w: FX_ONE as int }),
    {
        Transform { translation: t, rotation: Quat::identity() }
    }
}

/// Position before the current substep's integration.
#[derive(Clone, Copy, PartialEq, Eq, Structural, Debug)]
pub struct PrevPos(pub Vec3);

/// Orientation before the current substep's integration.
#[derive(Clone, Copy, PartialEq, Eq, Structural, Debug)]
pub struct PrevRot(pub Quat);

/// Body mass as a fixed-point scalar; ignored for static bodies, whose mass
/// is treated as infinite.
#[derive(Clone, Copy, PartialEq, Eq, Structural, Debug)]
pub struct Mass(pub i64);

impl Default for Mass {
    /// One unit of mass.
    fn default() -> (r: Mass)
        ensures
            r.0 == FX_ONE,
    {
        Mass(FX_ONE)
    }
}

/// Reciprocal of the mass; exactly zero for static bodies.
#[derive(Clone, Copy, PartialEq, Eq, Structural, Debug)]
pub struct InverseMass(pub i64);

impl Default for InverseMass {
    /// Matches the default mass of one.
    fn default() -> (r: InverseMass)
        ensures
            r.0 == FX_ONE,
    {
        InverseMass(FX_ONE)
    }
}

/// Linear and angular velocity.
#[derive(Clone, Copy, PartialEq, Eq, Structural, Debug)]
pub struct Velocity {
    pub linear: Vec3,
    pub angular: Vec3,
}

impl Velocity {
    /// A body at rest.
    pub fn zero() -> (r: Velocity)
        ensures
            r.linear@ == (Vec3g { x: 0, y: 0, z: 0 }),
            r.angular@ == (Vec3g { x: 0, y: 0, z: 0 }),
    {
        Velocity { linear: Vec3::zero(), angular: Vec3::zero() }
    }
}

/// Velocity snapshot taken at the end of integration, read by the velocity
/// solver of the same substep.
#[derive(Clone, Copy, PartialEq, Eq, Structural, Debug)]
pub struct PreSolveVelocity {
    pub linear: Vec3,
    pub angular: Vec3,
}

/// Fraction of relative normal velocity reflected by a collision, in
/// `[0, FX_ONE]`.
#[derive(Clone, Copy, PartialEq, Eq, Structural, Debug)]
pub struct Restitution(pub i64);

impl Default for Restitution {
    /// A moderately inelastic default of about three tenths.
    fn default() -> (r: Restitution)
        ensures
            r.0 == 1288490188,
    {
        Restitution(1288490188)
    }
}

/// Diagonal of the body-space inertia tensor.
#[derive(Clone, Copy, PartialEq, Eq, Structural, Debug)]
pub struct InertiaTensor(pub Vec3);

/// Diagonal of the inverse body-space inertia tensor; zero for static bodies.
#[derive(Clone, Copy, PartialEq, Eq, Structural, Debug)]
pub struct InverseInertiaTensor(pub Vec3);

/// Whether a body moves under the integrator or stands immovable.
#[derive(Clone, Copy, PartialEq, Eq, Structural, Debug)]
pub enum PhysicsMode {
    Dynamic,
    Static,
}

impl Default for PhysicsMode {
    fn default() -> (r: PhysicsMode)
        ensures
            r == PhysicsMode::Dynamic,
    {
        PhysicsMode::Dynamic
    }
}

/// Mathematical image of an axis-aligned bounding box.
pub ghost struct Aabbg {
    pub mins: Vec3g,
    pub maxs: Vec3g,
}

/// Axis-aligned bounding box in world space.
#[derive(Clone, Copy, PartialEq, Eq, Structural, Debug)]
pub struct Aabb {
    pub mins: Vec3,
    pub maxs: Vec3,
}

impl View for Aabb {
    type V = Aabbg;

    open spec fn view(&self) -> Aabbg {
        Aabbg { mins: self.mins@, maxs: self.maxs@ }
    }
}

/// Two boxes are separated when some axis admits a separating plane; touching
/// boxes (shared boundary) count as separated, matching the strict overlap
/// test of the broad phase.
pub open spec fn aabb_separated(a: Aabbg, b: Aabbg) -> bool {
    ||| a.mins.x >= b.maxs.x
    ||| a.maxs.x <= b.mins.x
    ||| a.mins.y >= b.maxs.y
    ||| a.maxs.y <= b.mins.y
    ||| a.mins.z >= b.maxs.z
    ||| a.maxs.z <= b.mins.z
}

impl Aabb {
    /// A degenerate box at the origin.
    pub fn zero() -> (r: Aabb)
        ensures
            r.mins@ == (Vec3g { x: 0, y: 0, z: 0 }),
            r.maxs@ == (Vec3g { x: 0, y: 0, z: 0 }),
    {
        Aabb { mins: Vec3::zero(), maxs: Vec3::zero() }
    }

    /// Strict three-axis overlap test.
    pub fn overlaps(&self, o: &Aabb) -> (r: bool)
        ensures
            r == !aabb_separated(self@, o@),
    {
        self.mins.x < o.maxs.x && self.maxs.x > o.mins.x && self.mins.y < o.maxs.y
            && self.maxs.y > o.mins.y && self.mins.z < o.maxs.z && self.maxs.z > o.mins.z
    }
}

} // verus!
