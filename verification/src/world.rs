//! The simulation: configuration, the fixed-timestep controller, the body
//! arena and the per-tick pipeline.
//!
//! `step(host_delta)` adds the host's frame delta to an accumulator and runs
//! one full tick of `number_substeps` substeps for every whole
//! `delta_time` accumulated, up to `max_ticks_per_frame` ticks of catch-up
//! per call (the accumulator keeps the remainder, so a stall is worked off
//! over later frames rather than in one unbounded burst).  Each tick: derived
//! mass data and bounding boxes are refreshed and the broad phase runs once;
//! each substep then integrates, solves positions, re-derives velocities and
//! solves velocities.  The contracts pin the whole of it: `step`'s arena is
//! exactly `ticks_rel` — the owed number of ticks, each the substep
//! composition `substeps_spec` over the refreshed arena and a candidate list
//! the broad-phase contract admits.

use vstd::prelude::*;
use crate::body::{
    bodies_view, setup_body_spec, setup_inverse_mass_and_inverse_inertia_tensor, setup_prev_pos,
    Body, Bodyg, PhysicsBundle,
};
use crate::broad::collision_pairs;
use crate::components::{PhysicsMode, PreSolveVelocity, PrevPos, PrevRot, Transform};
use crate::contacts::{CollisionPair, Contact};
use crate::fx::{fx_add, fx_add_spec, fx_div, fx_div_spec, fx_from_int, fx_mul, fx_mul_spec, FX_ONE, FX_TWO};
use crate::integrate::integrate;
use crate::solve_positions::solve_pos;
use crate::solve_velocities::solve_vel;
use crate::update_velocities::update_vel;
use crate::vec3::{Vec3, Vec3g};

verus! {

/// Default gravity on the vertical axis: minus nine and eighty-one
/// hundredths, in raw fixed-point units.
pub const DEFAULT_GRAVITY_Y: i64 = -42136352358;

/// Default fixed timestep: one sixtieth of a second, in raw units.
pub const DEFAULT_DELTA_TIME: i64 = 71582788;

/// Default number of substeps per tick.
pub const DEFAULT_NUMBER_SUBSTEPS: u32 = 20;

/// Default number of position-solver passes per substep.
pub const DEFAULT_POSITION_ITERATIONS: u32 = 1;

/// Default catch-up bound: at most this many whole ticks per host frame.
pub const DEFAULT_MAX_TICKS_PER_FRAME: u32 = 4;

/// Settings a host chooses before building a simulation.
#[derive(Clone, Copy, PartialEq, Eq, Structural, Debug)]
pub struct PhysicsPlugin {
    pub gravity: Vec3,
    pub number_substeps: u32,
    pub number_position_iterations: u32,
    pub delta_time: i64,
    pub k: i64,
}

impl Default for PhysicsPlugin {
    /// Gravity straight down, twenty substeps at sixty ticks a second, one
    /// position pass, and a safety margin factor of two.
    fn default() -> (r: PhysicsPlugin)
        ensures
            r.gravity@ == (Vec3g { x: 0, y: DEFAULT_GRAVITY_Y as int, z: 0 }),
            r.number_substeps == DEFAULT_NUMBER_SUBSTEPS,
            r.number_position_iterations == DEFAULT_POSITION_ITERATIONS,
            r.delta_time == DEFAULT_DELTA_TIME,
            r.k == FX_TWO,
    {
        PhysicsPlugin {
            gravity: Vec3::new(0, DEFAULT_GRAVITY_Y, 0),
            number_substeps: DEFAULT_NUMBER_SUBSTEPS,
            number_position_iterations: DEFAULT_POSITION_ITERATIONS,
            delta_time: DEFAULT_DELTA_TIME,
            k: FX_TWO,
        }
    }
}

/// Immutable run configuration, derived from the settings.
///
/// `number_position_iterations` is an extension point for repeated
/// position-solver passes; the solver makes one pass per substep.  `k`
/// scales the velocity-proportional bounding-box margin, and
/// `max_ticks_per_frame` bounds catch-up after a host stall.
#[derive(Clone, Copy, PartialEq, Eq, Structural, Debug)]
pub struct PhysicsConfig {
    pub number_substeps: u32,
    pub number_position_iterations: u32,
    pub delta_time: i64,
    pub sub_delta_time: i64,
    pub k: i64,
    pub max_ticks_per_frame: u32,
}

/// World gravity.
#[derive(Clone, Copy, PartialEq, Eq, Structural, Debug)]
pub struct Gravity(pub Vec3);

/// The fixed-timestep controller's state.  Between steps the flags rest at
/// `false` and the substep counter at zero; only the accumulator carries
/// time across frames.
#[derive(Clone, Copy, PartialEq, Eq, Structural, Debug)]
pub struct LoopState {
    pub accumulator: i64,
    pub substepping: bool,
    pub current_substep: u32,
    pub has_added_time: bool,
}

impl Default for LoopState {
    fn default() -> (r: LoopState)
        ensures
            r.accumulator == 0,
            r.substepping == false,
            r.current_substep == 0,
            r.has_added_time == false,
    {
        LoopState { accumulator: 0, substepping: false, current_substep: 0, has_added_time: false }
    }
}

/// Scratch list of this tick's candidate pairs, rebuilt every tick.
#[derive(PartialEq, Eq, Debug)]
pub struct CollisionPairs(pub Vec<CollisionPair>);

/// Scratch list of this substep's contacts, rebuilt every substep.
#[derive(PartialEq, Eq, Debug)]
pub struct SubstepContacts(pub Vec<Contact>);

/// Whole ticks owed for an accumulator value: the number of whole timesteps
/// it holds, capped by the catch-up bound.
pub open spec fn ticks_due(acc: int, dt: int, cap: int) -> int
    recommends
        dt >= 1,
        acc >= 0,
{
    let d = acc / dt;
    if d > cap {
        cap
    } else {
        d
    }
}

/// A body after the per-tick refresh: derived mass data recomputed, then the
/// world bounding box rebuilt from the refreshed state.
pub open spec fn prepare_body_spec(b: Bodyg, factor: int) -> Bodyg {
    let sb = setup_body_spec(b);
    Bodyg {
        aabb: crate::colliders::collider_world_aabb(sb.collider, sb.pos, sb.rot, sb.vel_lin, factor),
        ..sb
    }
}

/// The whole arena refreshed.
pub open spec fn prepare_all_spec(bs: Seq<Bodyg>, factor: int) -> Seq<Bodyg> {
    bs.map_values(|b: Bodyg| prepare_body_spec(b, factor))
}

/// Two bodies of the arena deserve the narrow phase: their boxes overlap and
/// they are not both static.
pub open spec fn eligible_bodies(bs: Seq<Bodyg>, a: int, b: int) -> bool {
    &&& !(bs[a].mode == PhysicsMode::Static && bs[b].mode == PhysicsMode::Static)
    &&& !crate::components::aabb_separated(bs[a].aabb, bs[b].aabb)
}

/// A candidate list fit for the arena: sound (every pair names two distinct
/// live bodies that deserve the narrow phase), complete (every two such
/// bodies appear, in one order or the other), and duplicate-free.
pub open spec fn pairs_ok(bs: Seq<Bodyg>, pairs: Seq<CollisionPair>) -> bool {
    &&& forall|k: int|
        0 <= k < pairs.len() ==> {
            let pr = #[trigger] pairs[k];
            &&& pr.entity_a < bs.len()
            &&& pr.entity_b < bs.len()
            &&& pr.entity_a != pr.entity_b
            &&& eligible_bodies(bs, pr.entity_a as int, pr.entity_b as int)
        }
    &&& forall|a: int, b: int|
        0 <= a < bs.len() && 0 <= b < bs.len() && a != b && #[trigger] eligible_bodies(bs, a, b)
            ==> crate::broad::pair_in(pairs, a, b) || crate::broad::pair_in(pairs, b, a)
    &&& forall|k1: int, k2: int|
        0 <= k1 < k2 < pairs.len() ==> !crate::broad::same_unordered(
            #[trigger] pairs[k1],
            #[trigger] pairs[k2],
        )
}

/// One substep of the pipeline, at the spec level: integrate every body,
/// solve positions over the tick's pairs, re-derive velocities, then solve
/// velocities over the contacts the position pass recorded.
pub open spec fn substep_spec(
    bs: Seq<Bodyg>,
    pairs: Seq<CollisionPair>,
    gravity: Vec3g,
    h: int,
) -> Seq<Bodyg> {
    let integrated = bs.map_values(|b: Bodyg| crate::integrate::integrate_body_spec(b, gravity, h));
    let solved = crate::solve_positions::solve_pos_spec(
        integrated,
        pairs,
        crate::solve_positions::GJK_BIAS as int,
    );
    let updated = solved.0.map_values(
        |b: Bodyg| crate::update_velocities::update_vel_body_spec(b, h),
    );
    crate::solve_velocities::solve_vel_spec(updated, solved.1)
}

/// `s` substeps in a row, over the same pair list.
pub open spec fn substeps_spec(
    bs: Seq<Bodyg>,
    pairs: Seq<CollisionPair>,
    gravity: Vec3g,
    h: int,
    s: nat,
) -> Seq<Bodyg>
    decreases s,
{
    if s == 0 {
        bs
    } else {
        substep_spec(substeps_spec(bs, pairs, gravity, h, (s - 1) as nat), pairs, gravity, h)
    }
}

/// One tick carries the arena from `pre` to `post`: the refreshed arena runs
/// `number_substeps` substeps of the pipeline over some candidate list fit
/// for it (the list's order is the sweep's, which the relation leaves open).
pub open spec fn tick_rel(
    config: PhysicsConfig,
    gravity: Vec3g,
    pre: Seq<Bodyg>,
    post: Seq<Bodyg>,
) -> bool {
    let prepared = prepare_all_spec(pre, fx_mul_spec(config.k as int, config.delta_time as int));
    exists|pairs: Seq<CollisionPair>|
        #[trigger] pairs_ok(prepared, pairs) && post == substeps_spec(
            prepared,
            pairs,
            gravity,
            config.sub_delta_time as int,
            config.number_substeps as nat,
        )
}

/// `t` ticks in a row.
pub open spec fn ticks_rel(
    config: PhysicsConfig,
    gravity: Vec3g,
    pre: Seq<Bodyg>,
    post: Seq<Bodyg>,
    t: nat,
) -> bool
    decreases t,
{
    if t == 0 {
        post == pre
    } else {
        exists|mid: Seq<Bodyg>|
            ticks_rel(config, gravity, pre, mid, (t - 1) as nat) && #[trigger] tick_rel(
                config,
                gravity,
                mid,
                post,
            )
    }
}

/// The simulation: body arena, configuration and scratch state.
pub struct PhysicsWorld {
    pub bodies: Vec<Body>,
    pub config: PhysicsConfig,
    pub gravity: Gravity,
    pub loop_state: LoopState,
    pub collision_pairs: CollisionPairs,
    pub contacts: SubstepContacts,
    pub substeps_last_frame: u64,
}

impl PhysicsPlugin {
    /// Build a simulation from these settings.  The timestep must be
    /// positive and coarse enough that a substep is a positive scalar.
    pub fn build(&self) -> (r: PhysicsWorld)
        requires
            self.delta_time >= 1,
            self.k >= 0,
            1 <= self.number_substeps <= 0x7FFF_FFFF,
            fx_div_spec(self.delta_time as int, (self.number_substeps as int) * 4294967296) >= 1,
        ensures
            r.config.number_substeps == self.number_substeps,
            r.config.number_position_iterations == self.number_position_iterations,
            r.config.delta_time == self.delta_time,
            r.config.sub_delta_time as int == fx_div_spec(
                self.delta_time as int,
                (self.number_substeps as int) * 4294967296,
            ),
            r.config.k == self.k,
            r.config.max_ticks_per_frame == DEFAULT_MAX_TICKS_PER_FRAME,
            r.gravity.0 == self.gravity,
            r.bodies@.len() == 0,
            r.loop_state.accumulator == 0,
            r.wf(),
    {
        let sub_delta_time = fx_div(self.delta_time, fx_from_int(self.number_substeps as i64));
        PhysicsWorld {
            bodies: Vec::new(),
            config: PhysicsConfig {
                number_substeps: self.number_substeps,
                number_position_iterations: self.number_position_iterations,
                delta_time: self.delta_time,
                sub_delta_time,
                k: self.k,
                max_ticks_per_frame: DEFAULT_MAX_TICKS_PER_FRAME,
            },
            gravity: Gravity(self.gravity),
            loop_state: LoopState::default(),
            collision_pairs: CollisionPairs(Vec::new()),
            contacts: SubstepContacts(Vec::new()),
            substeps_last_frame: 0,
        }
    }
}

impl PhysicsWorld {
    /// Validity of the simulation state: a usable configuration with a
    /// non-negative safety-margin factor, a non-negative accumulator, and on
    /// every body a positive mass when dynamic, true collider dimensions,
    /// and a restitution within zero and one.
    pub open spec fn wf(&self) -> bool {
        &&& self.config.delta_time >= 1
        &&& self.config.sub_delta_time >= 1
        &&& self.config.number_substeps >= 1
        &&& self.config.max_ticks_per_frame >= 1
        &&& self.config.k >= 0
        &&& self.loop_state.accumulator >= 0
        &&& forall|i: int|
            0 <= i < self.bodies@.len() ==> 0 <= (#[trigger] self.bodies@[i]).restitution.0
                <= FX_ONE
        &&& forall|i: int|
            0 <= i < self.bodies@.len() && (#[trigger] self.bodies@[i]).mode
                == PhysicsMode::Dynamic ==> self.bodies@[i].mass.0 >= 1
        &&& forall|i: int|
            0 <= i < self.bodies@.len() ==> crate::colliders::collider_wf(
                (#[trigger] self.bodies@[i]).collider,
            )
    }

    /// Add a body to the arena and derive the simulation-owned fields; the
    /// returned handle addresses it in later queries.
    pub fn spawn(&mut self, transform: Transform, bundle: PhysicsBundle) -> (r: usize)
        requires
            old(self).wf(),
            bundle.mode == PhysicsMode::Static || bundle.mass.0 >= 1,
            crate::colliders::collider_wf(bundle.collider),
            0 <= bundle.restitution.0 <= FX_ONE,
        ensures
            final(self).wf(),
            r == old(self).bodies@.len(),
            final(self).bodies@.len() == old(self).bodies@.len() + 1,
            forall|i: int|
                0 <= i < old(self).bodies@.len() ==> #[trigger] final(self).bodies@[i]
                    == old(self).bodies@[i],
            final(self).config == old(self).config,
            final(self).gravity == old(self).gravity,
            final(self).loop_state == old(self).loop_state,
            ({
                let b = final(self).bodies@[old(self).bodies@.len() as int];
                &&& b.mode == bundle.mode
                &&& b.mass == bundle.mass
                &&& b.collider == bundle.collider
                &&& b.restitution == bundle.restitution
                &&& b.transform == transform
                &&& b.velocity.angular == bundle.velocity.angular
                &&& b.velocity.linear@ == if bundle.mode == PhysicsMode::Static {
                    Vec3g { x: 0, y: 0, z: 0 }
                } else {
                    bundle.velocity.linear@
                }
                &&& b.prev_pos.0@ == crate::vec3::v3_sub(
                    transform.translation@,
                    crate::vec3::v3_scale(
                        b.velocity.linear@,
                        old(self).config.sub_delta_time as int,
                    ),
                )
                &&& b.prev_rot.0 == transform.rotation
                &&& b.pre_solve_velocity.linear@ == (Vec3g { x: 0, y: 0, z: 0 })
                &&& b.pre_solve_velocity.angular@ == (Vec3g { x: 0, y: 0, z: 0 })
                &&& bundle.mode == PhysicsMode::Static ==> b.inverse_mass.0 == 0
                    && b.inverse_inertia_tensor.0@ == (Vec3g { x: 0, y: 0, z: 0 })
                &&& bundle.mode == PhysicsMode::Dynamic ==> {
                    &&& b.inverse_mass.0 as int == fx_div_spec(
                        FX_ONE as int,
                        bundle.mass.0 as int,
                    )
                    &&& b.inertia_tensor.0@ == match bundle.collider {
                        crate::colliders::Collider::Sphere(sp) => {
                            let di = crate::colliders::sphere_inertia_diag(
                                sp.radius as int,
                                bundle.mass.0 as int,
                            );
                            Vec3g { x: di, y: di, z: di }
                        },
                        crate::colliders::Collider::Box(bx) => crate::colliders::box_inertia_diag(
                            bx.size@,
                            bundle.mass.0 as int,
                        ),
                    }
                    &&& b.inverse_inertia_tensor.0@ == (Vec3g {
                        x: crate::body::safe_recip_spec(b.inertia_tensor.0@.x),
                        y: crate::body::safe_recip_spec(b.inertia_tensor.0@.y),
                        z: crate::body::safe_recip_spec(b.inertia_tensor.0@.z),
                    })
                }
            }),
    {
        let mut body = Body {
            transform,
            prev_pos: PrevPos(transform.translation),
            prev_rot: PrevRot(transform.rotation),
            mass: bundle.mass,
            inverse_mass: crate::components::InverseMass(0),
            velocity: bundle.velocity,
            pre_solve_velocity: PreSolveVelocity {
                linear: Vec3::zero(),
                angular: Vec3::zero(),
            },
            restitution: bundle.restitution,
            inertia_tensor: crate::components::InertiaTensor(Vec3::zero()),
            inverse_inertia_tensor: crate::components::InverseInertiaTensor(Vec3::zero()),
            mode: bundle.mode,
            aabb: crate::components::Aabb::zero(),
            collider: bundle.collider,
        };
        setup_inverse_mass_and_inverse_inertia_tensor(&mut body);
        setup_prev_pos(&mut body, self.config.sub_delta_time);
        let r = self.bodies.len();
        self.bodies.push(body);
        r
    }

    /// Refresh every body's world bounding box from its transform and
    /// velocity: each box is the collider's extent grown by
    /// `safety_margin_factor` times the body's linear speed, centred on the
    /// body.
    pub fn update_aabb(bodies: &mut Vec<Body>, safety_margin_factor: i64)
        ensures
            final(bodies)@.len() == old(bodies)@.len(),
            forall|i: int|
                0 <= i < old(bodies)@.len() ==> {
                    let b = old(bodies)@[i];
                    let nb = #[trigger] final(bodies)@[i];
                    &&& nb@.aabb == crate::colliders::collider_world_aabb(
                        b.collider,
                        b.transform.translation@,
                        b.transform.rotation@,
                        b.velocity.linear@,
                        safety_margin_factor as int,
                    )
                    &&& nb == (Body { aabb: nb.aabb, ..b })
                },
    {
        let n = bodies.len();
        let mut i: usize = 0;
        while i < n
            invariant
                n == bodies@.len(),
                n == old(bodies)@.len(),
                forall|j: int|
                    0 <= j < i ==> {
                        let b = old(bodies)@[j];
                        let nb = #[trigger] bodies@[j];
                        &&& nb@.aabb == crate::colliders::collider_world_aabb(
                            b.collider,
                            b.transform.translation@,
                            b.transform.rotation@,
                            b.velocity.linear@,
                            safety_margin_factor as int,
                        )
                        &&& nb == (Body { aabb: nb.aabb, ..b })
                    },
                forall|j: int| i <= j < n ==> #[trigger] bodies@[j] == old(bodies)@[j],
            decreases n - i,
        {
            let body = bodies[i];
            let mut aabb = body.aabb;
            body.collider.update_aabb(&mut aabb, &body.transform, &body.velocity, safety_margin_factor);
            bodies[i].aabb = aabb;
            i = i + 1;
        }
    }

    /// One whole tick: refresh derived state, run the broad phase once, then
    /// run every substep of the pipeline.  The new arena is pinned by
    /// `tick_rel`: it is exactly the substep composition over the refreshed
    /// arena and the candidate list the sweep produced.
    #[verifier::rlimit(100)]
    fn tick(&mut self)
        requires
            old(self).wf(),
        ensures
            final(self).wf(),
            final(self).bodies@.len() == old(self).bodies@.len(),
            final(self).config == old(self).config,
            final(self).gravity == old(self).gravity,
            final(self).loop_state == old(self).loop_state,
            final(self).substeps_last_frame == old(self).substeps_last_frame,
            tick_rel(
                old(self).config,
                old(self).gravity.0@,
                bodies_view(old(self).bodies@),
                bodies_view(final(self).bodies@),
            ),
    {
        let n = self.bodies.len();
        let safety_margin_factor = fx_mul(self.config.k, self.config.delta_time);
        let ghost prepared = prepare_all_spec(
            bodies_view(old(self).bodies@),
            fx_mul_spec(old(self).config.k as int, old(self).config.delta_time as int),
        );
        let mut i: usize = 0;
        while i < n
            invariant
                n == self.bodies@.len(),
                i <= n,
                self.config == old(self).config,
                self.gravity == old(self).gravity,
                self.loop_state == old(self).loop_state,
                self.substeps_last_frame == old(self).substeps_last_frame,
                self.wf(),
                forall|j: int|
                    0 <= j < i ==> (#[trigger] self.bodies@[j])@ == setup_body_spec(
                        old(self).bodies@[j]@,
                    ),
                forall|j: int| i <= j < n ==> #[trigger] self.bodies@[j] == old(self).bodies@[j],
            decreases n - i,
        {
            let mut body = self.bodies[i];
            setup_inverse_mass_and_inverse_inertia_tensor(&mut body);
            self.bodies[i] = body;
            i = i + 1;
        }
        Self::update_aabb(&mut self.bodies, safety_margin_factor);
        proof {
            assert forall|j: int|
                0 <= j < self.bodies@.len() && (#[trigger] self.bodies@[j]).mode
                    == PhysicsMode::Dynamic implies self.bodies@[j].mass.0 >= 1 by {}
            assert(bodies_view(self.bodies@) =~= prepared);
        }
        collision_pairs(&self.bodies, &mut self.collision_pairs.0);
        let ghost pairsw = self.collision_pairs.0@;
        proof {
            assert forall|a: int, b: int|
                0 <= a < prepared.len() && 0 <= b < prepared.len() && a != b && #[trigger]
            eligible_bodies(prepared, a, b) implies crate::broad::pair_in(pairsw, a, b)
                || crate::broad::pair_in(pairsw, b, a) by {
                assert(crate::broad::eligible_pair(self.bodies@, a, b));
            }
            assert forall|k: int| 0 <= k < pairsw.len() implies {
                let pr = #[trigger] pairsw[k];
                &&& pr.entity_a < prepared.len()
                &&& pr.entity_b < prepared.len()
                &&& pr.entity_a != pr.entity_b
                &&& eligible_bodies(prepared, pr.entity_a as int, pr.entity_b as int)
            } by {
                assert(crate::broad::eligible_pair(
                    self.bodies@,
                    pairsw[k].entity_a as int,
                    pairsw[k].entity_b as int,
                ));
            }
            assert(pairs_ok(prepared, pairsw));
        }
        let h = self.config.sub_delta_time;
        let mut s: u32 = 0;
        while s < self.config.number_substeps
            invariant
                n == self.bodies@.len(),
                s <= self.config.number_substeps,
                self.config == old(self).config,
                self.gravity == old(self).gravity,
                self.loop_state == old(self).loop_state,
                self.substeps_last_frame == old(self).substeps_last_frame,
                h == self.config.sub_delta_time,
                self.wf(),
                pairsw == self.collision_pairs.0@,
                pairs_ok(prepared, pairsw),
                bodies_view(self.bodies@) == substeps_spec(
                    prepared,
                    pairsw,
                    old(self).gravity.0@,
                    h as int,
                    s as nat,
                ),
                forall|k: int|
                    0 <= k < self.collision_pairs.0@.len() ==> crate::solve_positions::pair_wf(
                        #[trigger] self.collision_pairs.0@[k],
                        n as int,
                    ),
            decreases self.config.number_substeps - s,
        {
            let ghost pre_state = bodies_view(self.bodies@);
            integrate(&mut self.bodies, self.gravity.0, h);
            solve_pos(&mut self.bodies, &self.collision_pairs.0, &mut self.contacts.0);
            update_vel(&mut self.bodies, h);
            solve_vel(&mut self.bodies, &self.contacts.0);
            s = s + 1;
            proof {
                assert(bodies_view(self.bodies@) == substep_spec(
                    pre_state,
                    pairsw,
                    old(self).gravity.0@,
                    h as int,
                ));
                assert(bodies_view(self.bodies@) == substeps_spec(
                    prepared,
                    pairsw,
                    old(self).gravity.0@,
                    h as int,
                    s as nat,
                ));
            }
        }
        proof {
            assert(tick_rel(
                old(self).config,
                old(self).gravity.0@,
                bodies_view(old(self).bodies@),
                bodies_view(self.bodies@),
            ));
        }
    }

    /// Advance the simulation by a host frame.
    ///
    /// The delta joins the accumulator; one tick of `number_substeps`
    /// substeps runs for each whole timestep accumulated, capped by the
    /// catch-up bound, and the accumulator keeps the exact remainder.  The
    /// number of substeps executed this call is reported in
    /// `substeps_last_frame`, and the new arena is exactly that many whole
    /// ticks of the pipeline applied to the old one (`ticks_rel`).
    pub fn step(&mut self, host_delta: i64)
        requires
            old(self).wf(),
            host_delta >= 0,
        ensures
            final(self).wf(),
            final(self).bodies@.len() == old(self).bodies@.len(),
            final(self).config == old(self).config,
            final(self).gravity == old(self).gravity,
            ({
                let acc1 = fx_add_spec(old(self).loop_state.accumulator as int, host_delta as int);
                let due = ticks_due(
                    acc1,
                    old(self).config.delta_time as int,
                    old(self).config.max_ticks_per_frame as int,
                );
                &&& final(self).substeps_last_frame as int == due * (
                old(self).config.number_substeps as int)
                &&& final(self).loop_state.accumulator as int == acc1 - due * (
                old(self).config.delta_time as int)
                &&& ticks_rel(
                    old(self).config,
                    old(self).gravity.0@,
                    bodies_view(old(self).bodies@),
                    bodies_view(final(self).bodies@),
                    due as nat,
                )
            }),
            final(self).loop_state.substepping == false,
            final(self).loop_state.current_substep == 0,
            final(self).loop_state.has_added_time == false,
    {
        self.loop_state.has_added_time = true;
        self.loop_state.current_substep = 0;
        self.loop_state.accumulator = fx_add(self.loop_state.accumulator, host_delta);
        let ghost acc1 = self.loop_state.accumulator as int;
        let dt = self.config.delta_time;
        let cap = self.config.max_ticks_per_frame;
        let mut ticks: u32 = 0;
        proof {
            assert(ticks_rel(
                old(self).config,
                old(self).gravity.0@,
                bodies_view(old(self).bodies@),
                bodies_view(self.bodies@),
                0,
            ));
        }
        while self.loop_state.accumulator >= dt && ticks < cap
            invariant
                self.wf(),
                dt == self.config.delta_time,
                cap == self.config.max_ticks_per_frame,
                self.bodies@.len() == old(self).bodies@.len(),
                self.config == old(self).config,
                self.gravity == old(self).gravity,
                ticks <= cap,
                self.loop_state.accumulator as int == acc1 - (ticks as int) * (dt as int),
                self.loop_state.accumulator >= 0,
                self.loop_state.substepping == true || ticks == 0,
                self.loop_state.current_substep == 0,
                self.loop_state.has_added_time == true,
                ticks_rel(
                    old(self).config,
                    old(self).gravity.0@,
                    bodies_view(old(self).bodies@),
                    bodies_view(self.bodies@),
                    ticks as nat,
                ),
            decreases cap - ticks,
    {
            self.loop_state.substepping = true;
            let ghost mid = bodies_view(self.bodies@);
            self.tick();
            self.loop_state.accumulator = self.loop_state.accumulator - dt;
            ticks = ticks + 1;
            proof {
                vstd::arithmetic::mul::lemma_mul_is_distributive_add_other_way(
                    dt as int,
                    ticks as int - 1,
                    1,
                );
                assert(tick_rel(
                    old(self).config,
                    old(self).gravity.0@,
                    mid,
                    bodies_view(self.bodies@),
                ));
                assert(ticks_rel(
                    old(self).config,
                    old(self).gravity.0@,
                    bodies_view(old(self).bodies@),
                    bodies_view(self.bodies@),
                    ticks as nat,
                ));
            }
        }
        proof {
            let d = acc1 / (dt as int);
            if ticks < cap {
                vstd::arithmetic::div_mod::lemma_fundamental_div_mod_converse(
                    acc1,
                    dt as int,
                    ticks as int,
                    acc1 - (ticks as int) * (dt as int),
                );
            } else {
                vstd::arithmetic::div_mod::lemma_div_by_multiple(ticks as int, dt as int);
                vstd::arithmetic::div_mod::lemma_div_is_ordered(
                    (ticks as int) * (dt as int),
                    acc1,
                    dt as int,
                );
            }
            assert((ticks as int) == ticks_due(acc1, dt as int, cap as int));
            let subs = self.config.number_substeps as int;
            assert((ticks as int) * subs < 0x10000_0000_0000_0000) by (nonlinear_arith)
                requires
                    0 <= (ticks as int) < 0x1_0000_0000,
                    0 <= subs < 0x1_0000_0000,
            ;
        }
        self.substeps_last_frame = (ticks as u64) * (self.config.number_substeps as u64);
        self.loop_state.substepping = false;
        self.loop_state.current_substep = 0;
        self.loop_state.has_added_time = false;
    }
}

} // verus!
