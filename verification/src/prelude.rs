//! One import for the common surface of the engine.

pub use crate::body::{Body, PhysicsBundle};
pub use crate::broad::collision_pairs;
pub use crate::colliders::{BoxCollider, Collider, Ray, Sphere};
pub use crate::components::{
    Aabb, InertiaTensor, InverseInertiaTensor, InverseMass, Mass, PhysicsMode, PreSolveVelocity,
    PrevPos, PrevRot, Restitution, Transform, Velocity,
};
pub use crate::contacts::{CollisionPair, Contact, Intersection};
pub use crate::integrate::integrate;
pub use crate::intersect::{box_sphere_intersect, gjk_intersect, sphere_sphere_intersect};
pub use crate::quat::Quat;
pub use crate::solve_positions::solve_pos;
pub use crate::solve_velocities::solve_vel;
pub use crate::update_velocities::update_vel;
pub use crate::vec3::Vec3;
pub use crate::world::{
    CollisionPairs, Gravity, LoopState, PhysicsConfig, PhysicsPlugin, PhysicsWorld, SubstepContacts,
};
