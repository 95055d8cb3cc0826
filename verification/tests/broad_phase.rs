use xpbd::body::PhysicsBundle;
use xpbd::broad::collision_pairs;
use xpbd::colliders::Collider;
use xpbd::components::{Mass, PhysicsMode, Restitution, Transform, Velocity};
use xpbd::fx::{FX_HALF, FX_ONE};
use xpbd::vec3::Vec3;
use xpbd::world::{PhysicsPlugin, PhysicsWorld};

fn bundle(mode: PhysicsMode) -> PhysicsBundle {
    PhysicsBundle {
        mode,
        mass: Mass(FX_ONE),
        collider: Collider::new_sphere(FX_HALF),
        velocity: Velocity::zero(),
        restitution: Restitution::default(),
    }
}

fn world_with(positions_and_modes: &[(i64, PhysicsMode)]) -> PhysicsWorld {
    let mut w = PhysicsPlugin::default().build();
    for (x, mode) in positions_and_modes {
        w.spawn(Transform::from_translation(Vec3::new(*x, 0, 0)), bundle(*mode));
    }
    PhysicsWorld::update_aabb(&mut w.bodies, 0);
    w
}

#[test]
fn two_overlapping_static_bodies_are_never_paired() {
    let mut w = world_with(&[(0, PhysicsMode::Static), (FX_HALF / 2, PhysicsMode::Static)]);
    let mut pairs = Vec::new();
    collision_pairs(&w.bodies, &mut pairs);
    assert!(pairs.is_empty());
    // the same overlap with one dynamic member is kept
    w.bodies[0].mode = PhysicsMode::Dynamic;
    collision_pairs(&w.bodies, &mut pairs);
    assert_eq!(pairs.len(), 1);
}

#[test]
fn overlapping_dynamic_bodies_are_paired_once() {
    let w = world_with(&[(0, PhysicsMode::Dynamic), (FX_HALF, PhysicsMode::Dynamic)]);
    let mut pairs = Vec::new();
    collision_pairs(&w.bodies, &mut pairs);
    assert_eq!(pairs.len(), 1);
    let p = pairs[0];
    assert_ne!(p.entity_a, p.entity_b);
}

#[test]
fn separated_bodies_are_not_paired() {
    let w = world_with(&[(0, PhysicsMode::Dynamic), (10 * FX_ONE, PhysicsMode::Dynamic)]);
    let mut pairs = Vec::new();
    collision_pairs(&w.bodies, &mut pairs);
    assert!(pairs.is_empty());
}

#[test]
fn touching_bounds_do_not_pair() {
    // bounding boxes sharing exactly one plane are treated as separated
    let w = world_with(&[(0, PhysicsMode::Dynamic), (FX_ONE, PhysicsMode::Dynamic)]);
    let mut pairs = Vec::new();
    collision_pairs(&w.bodies, &mut pairs);
    assert!(pairs.is_empty());
}

#[test]
fn a_cluster_pairs_each_overlapping_couple_except_static_static() {
    let w = world_with(&[
        (0, PhysicsMode::Static),
        (FX_HALF / 2, PhysicsMode::Static),
        (FX_HALF, PhysicsMode::Dynamic),
    ]);
    let mut pairs = Vec::new();
    collision_pairs(&w.bodies, &mut pairs);
    // every couple overlaps; only the two with the dynamic member survive
    assert_eq!(pairs.len(), 2);
    for p in &pairs {
        assert!(
            w.bodies[p.entity_a].mode == PhysicsMode::Dynamic
                || w.bodies[p.entity_b].mode == PhysicsMode::Dynamic
        );
    }
}
