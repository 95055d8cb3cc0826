//! Position solver: direct projection of overlapping pairs.
//!
//! For each candidate pair the narrow phase runs on the bodies' current
//! positions; a confirmed overlap moves the two bodies apart along the
//! contact normal, split in proportion to their inverse masses, and records
//! a contact for the velocity pass.  A body with inverse mass zero never
//! moves.  A pair whose combined inverse mass is zero is skipped (the guard
//! exists even though the broad phase never emits such a pair).

use vstd::prelude::*;
use crate::body::{bodies_view, Body, Bodyg};
use crate::colliders::Collider;
use crate::components::Transform;
use crate::contacts::{contacts_view, CollisionPair, Contact};
use crate::fx::{absi, fx_add, fx_add_spec, fx_div, fx_div_spec, fx_mul_spec, fx_neg, fx_neg_spec, tdiv};
use crate::intersect::{
    gjk_intersect, gjk_spec, sphere_contact_exists, sphere_penetration, sphere_sphere_intersect,
};
use crate::vec3::{v3_add, v3_div_s, v3_len, v3_scale, v3_sub, Vec3, Vec3g};

verus! {

/// The bias handed to support queries of the general narrow phase: about a
/// thousandth of a unit.
pub const GJK_BIAS: i64 = 4294967;

/// Displacement applied to the first body of a pair: the normal scaled by
/// `-penetration / (wa + wb)` and by the body's own inverse mass.
pub open spec fn pos_impulse_spec(n: Vec3g, penetration: int, wa: int, wb: int) -> Vec3g
    recommends
        fx_add_spec(wa, wb) != 0,
{
    v3_scale(n, fx_div_spec(fx_neg_spec(penetration), fx_add_spec(wa, wb)))
}

/// Move two overlapping bodies apart: the first gains the impulse weighted
/// by its inverse mass, the second loses it weighted by its own.  The new
/// translations are pinned exactly; rotations are untouched.
pub fn constrain_body_positions(
    trans_a: &mut Transform,
    trans_b: &mut Transform,
    inv_mass_a: i64,
    inv_mass_b: i64,
    n: Vec3,
    penetration_depth: i64,
)
    requires
        fx_add_spec(inv_mass_a as int, inv_mass_b as int) != 0,
    ensures
        ({
            let imp = pos_impulse_spec(n@, penetration_depth as int, inv_mass_a as int, inv_mass_b as int);
            &&& final(trans_a).translation@ == v3_add(
                old(trans_a).translation@,
                v3_scale(imp, inv_mass_a as int),
            )
            &&& final(trans_b).translation@ == v3_sub(
                old(trans_b).translation@,
                v3_scale(imp, inv_mass_b as int),
            )
        }),
        final(trans_a).rotation == old(trans_a).rotation,
        final(trans_b).rotation == old(trans_b).rotation,
{
    let w_sum = fx_add(inv_mass_a, inv_mass_b);
    let pos_impulse = n.scale(fx_div(fx_neg(penetration_depth), w_sum));
    trans_a.translation = trans_a.translation.add(pos_impulse.scale(inv_mass_a));
    trans_b.translation = trans_b.translation.sub(pos_impulse.scale(inv_mass_b));
}

/// Scaling any vector by an inverse mass of zero moves nothing.
pub proof fn lemma_scale_by_zero(v: Vec3g)
    ensures
        v3_scale(v, 0) == (Vec3g { x: 0, y: 0, z: 0 }),
{
    vstd::arithmetic::div_mod::lemma_div_of0(4294967296);
}

/// Adding or subtracting the zero vector moves nothing.
pub proof fn lemma_add_sub_zero(p: Vec3g)
    requires
        i64::MIN as int <= p.x <= i64::MAX as int,
        i64::MIN as int <= p.y <= i64::MAX as int,
        i64::MIN as int <= p.z <= i64::MAX as int,
    ensures
        v3_add(p, Vec3g { x: 0, y: 0, z: 0 }) == p,
        v3_sub(p, Vec3g { x: 0, y: 0, z: 0 }) == p,
{
}

/// Cross-weighted fixed-point products nearly cancel: weighting each of the
/// two truncated products by the other factor's weight leaves less than one
/// raw unit per unit of combined weight.
pub proof fn lemma_fx_mul_weighted_balance(x: int, wa: int, wb: int)
    requires
        0 <= wa <= i64::MAX as int,
        0 <= wb <= i64::MAX as int,
        wa + wb >= 1,
        absi(x * wa) <= (i64::MAX as int) * 4294967296,
        absi(x * wb) <= (i64::MAX as int) * 4294967296,
    ensures
        absi(wb * fx_mul_spec(x, wa) - wa * fx_mul_spec(x, wb)) < wa + wb,
{
    let s = 4294967296int;
    let ma = tdiv(x * wa, s);
    let mb = tdiv(x * wb, s);
    crate::fx::lemma_tdiv_bound(x * wa, s, i64::MAX as int);
    crate::fx::lemma_tdiv_bound(x * wb, s, i64::MAX as int);
    assert(fx_mul_spec(x, wa) == ma);
    assert(fx_mul_spec(x, wb) == mb);
    crate::fx::lemma_tdiv_close(x * wa, s);
    crate::fx::lemma_tdiv_close(x * wb, s);
    let ea = ma * s - x * wa;
    let eb = mb * s - x * wb;
    let l = wb * ma - wa * mb;
    assert(s * l == wb * ea - wa * eb) by (nonlinear_arith)
        requires
            l == wb * ma - wa * mb,
            ea == ma * s - x * wa,
            eb == mb * s - x * wb,
    ;
    assert(absi(wb * ea) <= wb * (s - 1) && absi(wa * eb) <= wa * (s - 1)) by (nonlinear_arith)
        requires
            absi(ea) <= s - 1,
            absi(eb) <= s - 1,
            wa >= 0,
            wb >= 0,
            s == 4294967296int,
    ;
    assert(absi(s * l) < s * (wa + wb)) by (nonlinear_arith)
        requires
            s * l == wb * ea - wa * eb,
            absi(wb * ea) <= wb * (s - 1),
            absi(wa * eb) <= wa * (s - 1),
            wa + wb >= 1,
            wa >= 0,
            wb >= 0,
            s == 4294967296int,
    ;
    assert(absi(l) < wa + wb) by (nonlinear_arith)
        requires
            absi(s * l) < s * (wa + wb),
            s == 4294967296int,
    ;
}

/// The position correction conserves momentum up to truncation.
///
/// `constrain_body_positions` displaces the first body by
/// `v3_scale(imp, wa)` and the second by the negation of
/// `v3_scale(imp, wb)`.  Weighting each body's displacement by the other
/// body's inverse mass — its own share of the pair's mass — the two cancel
/// on every component to within one raw unit per unit of combined inverse
/// mass, and exactly when the inverse masses are equal.  (The bound asks
/// that the intermediate products stay inside the saturating range.)
pub proof fn lemma_position_correction_balance(imp: Vec3g, wa: int, wb: int)
    requires
        0 <= wa <= i64::MAX as int,
        0 <= wb <= i64::MAX as int,
        wa + wb >= 1,
        absi(imp.x * wa) <= (i64::MAX as int) * 4294967296,
        absi(imp.y * wa) <= (i64::MAX as int) * 4294967296,
        absi(imp.z * wa) <= (i64::MAX as int) * 4294967296,
        absi(imp.x * wb) <= (i64::MAX as int) * 4294967296,
        absi(imp.y * wb) <= (i64::MAX as int) * 4294967296,
        absi(imp.z * wb) <= (i64::MAX as int) * 4294967296,
    ensures
        absi(wb * v3_scale(imp, wa).x - wa * v3_scale(imp, wb).x) < wa + wb,
        absi(wb * v3_scale(imp, wa).y - wa * v3_scale(imp, wb).y) < wa + wb,
        absi(wb * v3_scale(imp, wa).z - wa * v3_scale(imp, wb).z) < wa + wb,
        wa == wb ==> v3_scale(imp, wa) == v3_scale(imp, wb),
{
    lemma_fx_mul_weighted_balance(imp.x, wa, wb);
    lemma_fx_mul_weighted_balance(imp.y, wa, wb);
    lemma_fx_mul_weighted_balance(imp.z, wa, wb);
}

/// Everything of a body except its position is unchanged.
pub open spec fn same_but_pos(a: Bodyg, b: Bodyg) -> bool {
    &&& a.rot == b.rot
    &&& a.prev_pos == b.prev_pos
    &&& a.prev_rot == b.prev_rot
    &&& a.vel_lin == b.vel_lin
    &&& a.vel_ang == b.vel_ang
    &&& a.pre_lin == b.pre_lin
    &&& a.pre_ang == b.pre_ang
    &&& a.mass == b.mass
    &&& a.inv_mass == b.inv_mass
    &&& a.restitution == b.restitution
    &&& a.inertia == b.inertia
    &&& a.inv_inertia == b.inv_inertia
    &&& a.mode == b.mode
    &&& a.aabb == b.aabb
    &&& a.collider == b.collider
}

/// The body `i` is a member of some pair of the list.
pub open spec fn in_some_pair(pairs: Seq<CollisionPair>, i: int) -> bool {
    exists|k: int|
        0 <= k < pairs.len() && ((#[trigger] pairs[k]).entity_a == i || pairs[k].entity_b == i)
}

/// A well-formed pair addresses two distinct live bodies.
pub open spec fn pair_wf(p: CollisionPair, n_bodies: int) -> bool {
    &&& p.entity_a < n_bodies
    &&& p.entity_b < n_bodies
    &&& p.entity_a != p.entity_b
}

/// The narrow-phase outcome for an ordered pair of bodies: the analytic test
/// for two spheres, the support-mapping test for any pair involving a box.
pub open spec fn pair_intersection_spec(a: Bodyg, b: Bodyg, bias: int) -> Option<(Vec3g, int)> {
    match (a.collider, b.collider) {
        (Collider::Sphere(sa), Collider::Sphere(sb)) => {
            if sphere_contact_exists(a.pos, sa.radius as int, b.pos, sb.radius as int) && v3_len(
                v3_sub(b.pos, a.pos),
            ) != 0 {
                Some(
                    (
                        v3_div_s(v3_sub(b.pos, a.pos), v3_len(v3_sub(b.pos, a.pos))),
                        sphere_penetration(a.pos, sa.radius as int, b.pos, sb.radius as int),
                    ),
                )
            } else {
                None
            }
        },
        _ => gjk_spec(a.collider, a.pos, a.rot, b.collider, b.pos, b.rot, bias),
    }
}

/// One pair applied to the arena: a confirmed overlap displaces the two
/// bodies by the weighted impulse and appends a contact; a missed pair, or
/// one whose combined inverse mass is zero, changes nothing.
pub open spec fn apply_pair_spec(
    bodies: Seq<Bodyg>,
    contacts: Seq<(int, int, Vec3g, int)>,
    pr: CollisionPair,
    bias: int,
) -> (Seq<Bodyg>, Seq<(int, int, Vec3g, int)>)
    recommends
        pr.entity_a < bodies.len(),
        pr.entity_b < bodies.len(),
{
    let a = bodies[pr.entity_a as int];
    let b = bodies[pr.entity_b as int];
    match pair_intersection_spec(a, b, bias) {
        None => (bodies, contacts),
        Some((n, pen)) => {
            if fx_add_spec(a.inv_mass, b.inv_mass) == 0 {
                (bodies, contacts)
            } else {
                let imp = pos_impulse_spec(n, pen, a.inv_mass, b.inv_mass);
                let na = Bodyg { pos: v3_add(a.pos, v3_scale(imp, a.inv_mass)), ..a };
                let nb = Bodyg { pos: v3_sub(b.pos, v3_scale(imp, b.inv_mass)), ..b };
                (
                    bodies.update(pr.entity_a as int, na).update(pr.entity_b as int, nb),
                    contacts.push((pr.entity_a as int, pr.entity_b as int, n, pen)),
                )
            }
        },
    }
}

/// The whole position pass, at the spec level: the pairs applied in order to
/// the arena, starting from an empty contact list.
pub open spec fn solve_pos_spec(
    bodies: Seq<Bodyg>,
    pairs: Seq<CollisionPair>,
    bias: int,
) -> (Seq<Bodyg>, Seq<(int, int, Vec3g, int)>)
    decreases pairs.len(),
{
    if pairs.len() == 0 {
        (bodies, Seq::empty())
    } else {
        let prev = solve_pos_spec(bodies, pairs.drop_last(), bias);
        apply_pair_spec(prev.0, prev.1, pairs.last(), bias)
    }
}

/// Run the narrow phase on every candidate pair and project the confirmed
/// overlaps apart.  The new arena and contact list are pinned exactly by
/// `solve_pos_spec`; besides that, only positions change, bodies with
/// inverse mass zero never move, bodies in no pair are untouched, and every
/// recorded contact names two distinct live bodies and a strictly positive
/// penetration.
#[verifier::rlimit(60)]
pub fn solve_pos(bodies: &mut Vec<Body>, pairs: &Vec<CollisionPair>, contacts: &mut Vec<Contact>)
    requires
        forall|k: int| 0 <= k < pairs@.len() ==> pair_wf(#[trigger] pairs@[k], old(bodies)@.len() as int),
        forall|i: int|
            0 <= i < old(bodies)@.len() ==> crate::colliders::collider_wf(
                (#[trigger] old(bodies)@[i]).collider,
            ),
    ensures
        final(bodies)@.len() == old(bodies)@.len(),
        forall|i: int|
            0 <= i < old(bodies)@.len() ==> same_but_pos(
                (#[trigger] final(bodies)@[i])@,
                old(bodies)@[i]@,
            ),
        forall|i: int|
            0 <= i < old(bodies)@.len() && old(bodies)@[i]@.inv_mass == 0
                ==> (#[trigger] final(bodies)@[i])@.pos == old(bodies)@[i]@.pos,
        forall|i: int|
            0 <= i < old(bodies)@.len() && !in_some_pair(pairs@, i)
                ==> #[trigger] final(bodies)@[i] == old(bodies)@[i],
        forall|k: int|
            0 <= k < final(contacts)@.len() ==> {
                &&& (#[trigger] final(contacts)@[k]).entity_a < old(bodies)@.len()
                &&& final(contacts)@[k].entity_b < old(bodies)@.len()
                &&& final(contacts)@[k].entity_a != final(contacts)@[k].entity_b
                &&& final(contacts)@[k].penetration > 0
            },
        ({
            let folded = solve_pos_spec(bodies_view(old(bodies)@), pairs@, GJK_BIAS as int);
            &&& bodies_view(final(bodies)@) == folded.0
            &&& contacts_view(final(contacts)@) == folded.1
        }),
{
    contacts.clear();
    proof {
        assert(pairs@.subrange(0, 0) =~= Seq::<CollisionPair>::empty());
        assert(contacts_view(contacts@) =~= Seq::<(int, int, Vec3g, int)>::empty());
    }
    let n = bodies.len();
    let mut k: usize = 0;
    while k < pairs.len()
        invariant
            n == old(bodies)@.len(),
            bodies@.len() == n,
            k <= pairs@.len(),
            forall|k2: int| 0 <= k2 < pairs@.len() ==> pair_wf(#[trigger] pairs@[k2], n as int),
            forall|i: int|
                0 <= i < n ==> crate::colliders::collider_wf(
                    (#[trigger] old(bodies)@[i]).collider,
                ),
            forall|i: int|
                0 <= i < n ==> same_but_pos((#[trigger] bodies@[i])@, old(bodies)@[i]@),
            forall|i: int|
                0 <= i < n && old(bodies)@[i]@.inv_mass == 0
                    ==> (#[trigger] bodies@[i])@.pos == old(bodies)@[i]@.pos,
            forall|i: int|
                0 <= i < n && !in_some_pair(pairs@, i)
                    ==> #[trigger] bodies@[i] == old(bodies)@[i],
            forall|j: int|
                0 <= j < contacts@.len() ==> {
                    &&& (#[trigger] contacts@[j]).entity_a < n
                    &&& contacts@[j].entity_b < n
                    &&& contacts@[j].entity_a != contacts@[j].entity_b
                    &&& contacts@[j].penetration > 0
                },
            ({
                let folded = solve_pos_spec(
                    bodies_view(old(bodies)@),
                    pairs@.subrange(0, k as int),
                    GJK_BIAS as int,
                );
                &&& bodies_view(bodies@) == folded.0
                &&& contacts_view(contacts@) == folded.1
            }),
        decreases pairs@.len() - k,
    {
        let ghost pre_pairs = pairs@.subrange(0, k as int);
        let ghost cur_pairs = pairs@.subrange(0, k + 1);
        let ghost bodies_before = bodies_view(bodies@);
        let ghost contacts_before = contacts_view(contacts@);
        let pair = pairs[k];
        k = k + 1;
        proof {
            assert(cur_pairs.drop_last() =~= pre_pairs);
            assert(cur_pairs.last() == pair);
        }
        let ia = pair.entity_a;
        let ib = pair.entity_b;
        let body_a = bodies[ia];
        let body_b = bodies[ib];
        proof {
            assert(bodies@[ia as int]@.collider == old(bodies)@[ia as int]@.collider);
            assert(bodies@[ib as int]@.collider == old(bodies)@[ib as int]@.collider);
            assert(crate::colliders::collider_wf(body_a.collider));
            assert(crate::colliders::collider_wf(body_b.collider));
        }
        let intersection = match (body_a.collider, body_b.collider) {
            (Collider::Sphere(sphere_a), Collider::Sphere(sphere_b)) => sphere_sphere_intersect(
                body_a.transform.translation,
                sphere_a.radius,
                body_b.transform.translation,
                sphere_b.radius,
            ),
            (_, _) => gjk_intersect(
                &body_a.collider,
                &body_a.transform,
                &body_b.collider,
                &body_b.transform,
                GJK_BIAS,
            ),
        };
        proof {
            assert(bodies_before[pair.entity_a as int] == body_a@);
            assert(bodies_before[pair.entity_b as int] == body_b@);
            assert(match intersection {
                Some(i) => pair_intersection_spec(body_a@, body_b@, GJK_BIAS as int) == Some(
                    (i.normal@, i.penetration as int),
                ),
                None => pair_intersection_spec(body_a@, body_b@, GJK_BIAS as int) is None,
            });
        }
        if let Some(intersection) = intersection {
            let wa = body_a.inverse_mass.0;
            let wb = body_b.inverse_mass.0;
            let w_sum = fx_add(wa, wb);
            if w_sum == 0 {
                proof {
                    assert(solve_pos_spec(
                        bodies_view(old(bodies)@),
                        cur_pairs,
                        GJK_BIAS as int,
                    ) == (bodies_before, contacts_before));
                }
                continue;
            }
            let mut trans_a = body_a.transform;
            let mut trans_b = body_b.transform;
            constrain_body_positions(
                &mut trans_a,
                &mut trans_b,
                wa,
                wb,
                intersection.normal,
                intersection.penetration,
            );
            proof {
                if bodies@[ia as int]@.inv_mass == 0 {
                    lemma_scale_by_zero(
                        pos_impulse_spec(
                            intersection.normal@,
                            intersection.penetration as int,
                            wa as int,
                            wb as int,
                        ),
                    );
                    lemma_add_sub_zero(body_a.transform.translation@);
                }
                if bodies@[ib as int]@.inv_mass == 0 {
                    lemma_scale_by_zero(
                        pos_impulse_spec(
                            intersection.normal@,
                            intersection.penetration as int,
                            wa as int,
                            wb as int,
                        ),
                    );
                    lemma_add_sub_zero(body_b.transform.translation@);
                }
            }
            bodies[ia].transform = trans_a;
            bodies[ib].transform = trans_b;
            contacts.push(
                Contact {
                    entity_a: ia,
                    entity_b: ib,
                    normal: intersection.normal,
                    penetration: intersection.penetration,
                },
            );
            proof {
                let imp = pos_impulse_spec(
                    intersection.normal@,
                    intersection.penetration as int,
                    wa as int,
                    wb as int,
                );
                let na = Bodyg { pos: v3_add(body_a@.pos, v3_scale(imp, wa as int)), ..body_a@ };
                let nb = Bodyg { pos: v3_sub(body_b@.pos, v3_scale(imp, wb as int)), ..body_b@ };
                assert(bodies_view(bodies@) =~= bodies_before.update(ia as int, na).update(
                    ib as int,
                    nb,
                ));
                assert(contacts_view(contacts@) =~= contacts_before.push(
                    (ia as int, ib as int, intersection.normal@, intersection.penetration as int),
                ));
                assert(solve_pos_spec(bodies_view(old(bodies)@), cur_pairs, GJK_BIAS as int)
                    == (bodies_view(bodies@), contacts_view(contacts@)));
            }
        } else {
            proof {
                assert(solve_pos_spec(bodies_view(old(bodies)@), cur_pairs, GJK_BIAS as int)
                    == (bodies_before, contacts_before));
            }
        }
    }
    proof {
        assert(pairs@.subrange(0, pairs@.len() as int) =~= pairs@);
    }
}

} // verus!
