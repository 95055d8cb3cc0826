//! Transient collision records.
//!
//! Bodies are addressed by their index in the simulation's body arena.  A
//! `CollisionPair` lives for one tick, a `Contact` for one substep; both are
//! rebuilt from scratch every time and never persist.

use vstd::prelude::*;
use crate::vec3::{Vec3, Vec3g};

verus! {

/// A candidate pair from the broad phase; never two static bodies, and the
/// two indices always differ.
#[derive(Clone, Copy, PartialEq, Eq, Structural, Debug)]
pub struct CollisionPair {
    pub entity_a: usize,
    pub entity_b: usize,
}

/// A confirmed contact from the narrow phase: unit normal pointing from body
/// `entity_a` toward body `entity_b`, and a positive penetration depth.
#[derive(Clone, Copy, PartialEq, Eq, Structural, Debug)]
pub struct Contact {
    pub entity_a: usize,
    pub entity_b: usize,
    pub normal: Vec3,
    pub penetration: i64,
}

/// The contact list as mathematical tuples: the two handles, the normal and
/// the penetration.
pub open spec fn contacts_view(s: Seq<Contact>) -> Seq<(int, int, Vec3g, int)> {
    s.map_values(
        |c: Contact| (c.entity_a as int, c.entity_b as int, c.normal@, c.penetration as int),
    )
}

/// A shape-level intersection: normal from the first shape toward the
/// second, and the penetration depth along it.
#[derive(Clone, Copy, PartialEq, Eq, Structural, Debug)]
pub struct Intersection {
    pub normal: Vec3,
    pub penetration: i64,
}

} // verus!
