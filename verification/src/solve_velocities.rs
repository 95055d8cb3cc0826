//! Velocity solver: restitution applied to this substep's contacts.
//!
//! For each contact the target relative normal velocity is the pre-solve
//! relative normal velocity reflected by the pair's averaged restitution;
//! an inverse-mass-weighted normal impulse reaches it, split in proportion
//! to each body's share of the combined inverse mass.  A static body
//! (inverse mass zero) absorbs none of the impulse, and a pair whose
//! combined inverse mass is zero is skipped.

use vstd::prelude::*;
use crate::body::{bodies_view, Body, Bodyg};
use crate::contacts::{contacts_view, Contact};
use crate::fx::{absi, fx_add, fx_add_spec, fx_div, fx_div_spec, fx_mul, fx_mul_spec, fx_neg, fx_neg_spec, fx_sub, fx_sub_spec, tdiv, FX_TWO};
use crate::vec3::{v3_add, v3_div_s, v3_dot, v3_scale, v3_sub, Vec3, Vec3g};

verus! {

/// The scalar of the restitution impulse: minus the current relative normal
/// velocity, minus the averaged restitution times the pre-solve relative
/// normal velocity.
pub open spec fn restitution_scalar_spec(
    va: Vec3g,
    vb: Vec3g,
    pre_a: Vec3g,
    pre_b: Vec3g,
    rest_a: int,
    rest_b: int,
    n: Vec3g,
) -> int {
    let pre_normal = v3_dot(v3_sub(pre_a, pre_b), n);
    let normal_vel = v3_dot(v3_sub(va, vb), n);
    let restitution = fx_div_spec(fx_add_spec(rest_a, rest_b), FX_TWO as int);
    fx_sub_spec(fx_neg_spec(normal_vel), fx_mul_spec(restitution, pre_normal))
}

/// Velocity change of one body of the pair: the normal scaled by the
/// restitution scalar, weighted by that body's inverse mass, divided by the
/// pair's combined inverse mass.
pub open spec fn vel_impulse_spec(
    va: Vec3g,
    vb: Vec3g,
    pre_a: Vec3g,
    pre_b: Vec3g,
    rest_a: int,
    rest_b: int,
    n: Vec3g,
    w_own: int,
    w_sum: int,
) -> Vec3g
    recommends
        w_sum != 0,
{
    v3_div_s(
        v3_scale(v3_scale(n, restitution_scalar_spec(va, vb, pre_a, pre_b, rest_a, rest_b, n)), w_own),
        w_sum,
    )
}

/// The two velocity changes of a contact, pinned exactly.
pub fn velocity_impulses(
    va: Vec3,
    vb: Vec3,
    pre_a: Vec3,
    pre_b: Vec3,
    rest_a: i64,
    rest_b: i64,
    n: Vec3,
    wa: i64,
    wb: i64,
) -> (r: (Vec3, Vec3))
    requires
        fx_add_spec(wa as int, wb as int) != 0,
    ensures
        r.0@ == vel_impulse_spec(
            va@, vb@, pre_a@, pre_b@, rest_a as int, rest_b as int, n@,
            wa as int, fx_add_spec(wa as int, wb as int),
        ),
        r.1@ == vel_impulse_spec(
            va@, vb@, pre_a@, pre_b@, rest_a as int, rest_b as int, n@,
            wb as int, fx_add_spec(wa as int, wb as int),
        ),
{
    let pre_solve_normal_vel = pre_a.sub(pre_b).dot(n);
    let normal_vel = va.sub(vb).dot(n);
    let restitution = fx_div(fx_add(rest_a, rest_b), FX_TWO);
    let w_sum = fx_add(wa, wb);
    let s = fx_sub(fx_neg(normal_vel), fx_mul(restitution, pre_solve_normal_vel));
    let da = n.scale(s).scale(wa).div_s(w_sum);
    let db = n.scale(s).scale(wb).div_s(w_sum);
    (da, db)
}

/// Cross-weighted products divided by the combined weight nearly cancel:
/// each side suffers one truncating product and one truncating division, so
/// the weighted difference stays below one whole unit plus the combined
/// weight.
pub proof fn lemma_fx_scaled_div_balance(x: int, wa: int, wb: int)
    requires
        0 <= wa <= i64::MAX as int,
        0 <= wb <= i64::MAX as int,
        1 <= wa + wb <= i64::MAX as int,
        absi(x * wa) <= (i64::MAX as int) * 4294967296,
        absi(x * wb) <= (i64::MAX as int) * 4294967296,
        absi(fx_mul_spec(x, wa)) * 4294967296 <= (i64::MAX as int) * (wa + wb),
        absi(fx_mul_spec(x, wb)) * 4294967296 <= (i64::MAX as int) * (wa + wb),
    ensures
        absi(
            wb * fx_div_spec(fx_mul_spec(x, wa), wa + wb) - wa * fx_div_spec(
                fx_mul_spec(x, wb),
                wa + wb,
            ),
        ) < 4294967296 + wa + wb,
{
    let s = 4294967296int;
    let w = wa + wb;
    crate::fx::lemma_tdiv_bound(x * wa, s, i64::MAX as int);
    crate::fx::lemma_tdiv_bound(x * wb, s, i64::MAX as int);
    let ma = fx_mul_spec(x, wa);
    let mb = fx_mul_spec(x, wb);
    assert(ma == tdiv(x * wa, s));
    assert(mb == tdiv(x * wb, s));
    assert(absi(ma * s) == absi(ma) * s && absi(mb * s) == absi(mb) * s) by (nonlinear_arith)
        requires s > 0
    ;
    crate::fx::lemma_tdiv_bound(ma * s, w, i64::MAX as int);
    crate::fx::lemma_tdiv_bound(mb * s, w, i64::MAX as int);
    let da = fx_div_spec(ma, w);
    let db = fx_div_spec(mb, w);
    assert(da == tdiv(ma * s, w));
    assert(db == tdiv(mb * s, w));
    crate::fx::lemma_tdiv_close(ma * s, w);
    crate::fx::lemma_tdiv_close(mb * s, w);
    crate::solve_positions::lemma_fx_mul_weighted_balance(x, wa, wb);
    let ea = da * w - ma * s;
    let eb = db * w - mb * s;
    let l = wb * da - wa * db;
    assert(w * l == wb * (da * w) - wa * (db * w)) by (nonlinear_arith)
        requires
            l == wb * da - wa * db,
    ;
    assert(da * w == ma * s + ea && db * w == mb * s + eb);
    assert(wb * (ma * s + ea) == s * (wb * ma) + wb * ea) by (nonlinear_arith);
    assert(wa * (mb * s + eb) == s * (wa * mb) + wa * eb) by (nonlinear_arith);
    assert(s * (wb * ma) - s * (wa * mb) == s * (wb * ma - wa * mb)) by (nonlinear_arith);
    assert(w * l == s * (wb * ma - wa * mb) + wb * ea - wa * eb);
    assert(absi(wb * ea) <= wb * (w - 1) && absi(wa * eb) <= wa * (w - 1)) by (nonlinear_arith)
        requires
            absi(ea) <= w - 1,
            absi(eb) <= w - 1,
            wa >= 0,
            wb >= 0,
    ;
    assert(absi(s * (wb * ma - wa * mb)) <= s * (w - 1)) by (nonlinear_arith)
        requires
            absi(wb * ma - wa * mb) <= w - 1,
            s > 0,
    ;
    assert(absi(w * l) < w * (s + w)) by (nonlinear_arith)
        requires
            w * l == s * (wb * ma - wa * mb) + wb * ea - wa * eb,
            absi(s * (wb * ma - wa * mb)) <= s * (w - 1),
            absi(wb * ea) <= wb * (w - 1),
            absi(wa * eb) <= wa * (w - 1),
            w == wa + wb,
            wa >= 0,
            wb >= 0,
            w >= 1,
            s == 4294967296int,
    ;
    assert(absi(l) < s + w) by (nonlinear_arith)
        requires
            absi(w * l) < w * (s + w),
            w >= 1,
            s == 4294967296int,
    ;
}

/// The restitution impulse splits equal and opposite up to truncation.
///
/// `solve_vel` adds `vel_impulse_spec(..., wa, w)` to the first body's
/// velocity and subtracts `vel_impulse_spec(..., wb, w)` from the second's.
/// Weighting each change by the other body's inverse mass — its own share of
/// the pair's mass — the two agree on every component to within one unit
/// plus the combined inverse mass, and exactly when the inverse masses are
/// equal, where the two impulses are the same value.  (The bounds ask that
/// the intermediate products stay inside the saturating range.)
pub proof fn lemma_velocity_impulse_balance(
    va: Vec3g,
    vb: Vec3g,
    pre_a: Vec3g,
    pre_b: Vec3g,
    rest_a: int,
    rest_b: int,
    n: Vec3g,
    wa: int,
    wb: int,
)
    requires
        0 <= wa <= i64::MAX as int,
        0 <= wb <= i64::MAX as int,
        1 <= wa + wb <= i64::MAX as int,
        ({
            let u = v3_scale(n, restitution_scalar_spec(va, vb, pre_a, pre_b, rest_a, rest_b, n));
            &&& absi(u.x * wa) <= (i64::MAX as int) * 4294967296
            &&& absi(u.y * wa) <= (i64::MAX as int) * 4294967296
            &&& absi(u.z * wa) <= (i64::MAX as int) * 4294967296
            &&& absi(u.x * wb) <= (i64::MAX as int) * 4294967296
            &&& absi(u.y * wb) <= (i64::MAX as int) * 4294967296
            &&& absi(u.z * wb) <= (i64::MAX as int) * 4294967296
            &&& absi(fx_mul_spec(u.x, wa)) * 4294967296 <= (i64::MAX as int) * (wa + wb)
            &&& absi(fx_mul_spec(u.y, wa)) * 4294967296 <= (i64::MAX as int) * (wa + wb)
            &&& absi(fx_mul_spec(u.z, wa)) * 4294967296 <= (i64::MAX as int) * (wa + wb)
            &&& absi(fx_mul_spec(u.x, wb)) * 4294967296 <= (i64::MAX as int) * (wa + wb)
            &&& absi(fx_mul_spec(u.y, wb)) * 4294967296 <= (i64::MAX as int) * (wa + wb)
            &&& absi(fx_mul_spec(u.z, wb)) * 4294967296 <= (i64::MAX as int) * (wa + wb)
        }),
    ensures
        ({
            let da = vel_impulse_spec(va, vb, pre_a, pre_b, rest_a, rest_b, n, wa, wa + wb);
            let db = vel_impulse_spec(va, vb, pre_a, pre_b, rest_a, rest_b, n, wb, wa + wb);
            &&& absi(wb * da.x - wa * db.x) < 4294967296 + wa + wb
            &&& absi(wb * da.y - wa * db.y) < 4294967296 + wa + wb
            &&& absi(wb * da.z - wa * db.z) < 4294967296 + wa + wb
            &&& wa == wb ==> da == db
        }),
{
    let u = v3_scale(n, restitution_scalar_spec(va, vb, pre_a, pre_b, rest_a, rest_b, n));
    lemma_fx_scaled_div_balance(u.x, wa, wb);
    lemma_fx_scaled_div_balance(u.y, wa, wb);
    lemma_fx_scaled_div_balance(u.z, wa, wb);
}

/// Everything of a body except its linear velocity is unchanged.
pub open spec fn same_but_vel_lin(a: Bodyg, b: Bodyg) -> bool {
    &&& a.pos == b.pos
    &&& a.rot == b.rot
    &&& a.prev_pos == b.prev_pos
    &&& a.prev_rot == b.prev_rot
    &&& a.vel_ang == b.vel_ang
    &&& a.pre_lin == b.pre_lin
    &&& a.pre_ang == b.pre_ang
    &&& a.mass == b.mass
    &&& a.inv_mass == b.inv_mass
    &&& a.restitution == b.restitution
    &&& a.inertia == b.inertia
    &&& a.inv_inertia == b.inv_inertia
    &&& a.mode == b.mode
    &&& a.aabb == b.aabb
    &&& a.collider == b.collider
}

/// The body `i` is a member of some contact of the list.
pub open spec fn in_some_contact(contacts: Seq<Contact>, i: int) -> bool {
    exists|k: int|
        0 <= k < contacts.len() && ((#[trigger] contacts[k]).entity_a == i || contacts[k].entity_b
            == i)
}

/// A well-formed contact addresses two distinct live bodies.
pub open spec fn contact_wf(c: Contact, n_bodies: int) -> bool {
    &&& c.entity_a < n_bodies
    &&& c.entity_b < n_bodies
    &&& c.entity_a != c.entity_b
}

/// Zero weight takes none of the impulse.
pub proof fn lemma_zero_weight_impulse(
    va: Vec3g,
    vb: Vec3g,
    pre_a: Vec3g,
    pre_b: Vec3g,
    rest_a: int,
    rest_b: int,
    n: Vec3g,
    w_sum: int,
)
    requires
        w_sum != 0,
    ensures
        vel_impulse_spec(va, vb, pre_a, pre_b, rest_a, rest_b, n, 0, w_sum) == (Vec3g {
            x: 0,
            y: 0,
            z: 0,
        }),
{
    vstd::arithmetic::div_mod::lemma_div_of0(4294967296);
    vstd::arithmetic::div_mod::lemma_div_of0(
        crate::fx::absi(w_sum),
    );
}

/// One contact applied to the arena: each body's linear velocity takes its
/// inverse-mass share of the restitution impulse; a contact whose combined
/// inverse mass is zero changes nothing.  A contact is the tuple the
/// position pass records: the two handles, the normal, the penetration.
pub open spec fn apply_contact_spec(bodies: Seq<Bodyg>, c: (int, int, Vec3g, int)) -> Seq<Bodyg>
    recommends
        0 <= c.0 < bodies.len(),
        0 <= c.1 < bodies.len(),
{
    let a = bodies[c.0];
    let b = bodies[c.1];
    let w_sum = fx_add_spec(a.inv_mass, b.inv_mass);
    if w_sum == 0 {
        bodies
    } else {
        let da = vel_impulse_spec(
            a.vel_lin, b.vel_lin, a.pre_lin, b.pre_lin, a.restitution, b.restitution, c.2,
            a.inv_mass, w_sum,
        );
        let db = vel_impulse_spec(
            a.vel_lin, b.vel_lin, a.pre_lin, b.pre_lin, a.restitution, b.restitution, c.2,
            b.inv_mass, w_sum,
        );
        let na = Bodyg { vel_lin: v3_add(a.vel_lin, da), ..a };
        let nb = Bodyg { vel_lin: v3_sub(b.vel_lin, db), ..b };
        bodies.update(c.0, na).update(c.1, nb)
    }
}

/// The whole velocity pass, at the spec level: the contacts applied in
/// order.
pub open spec fn solve_vel_spec(bodies: Seq<Bodyg>, contacts: Seq<(int, int, Vec3g, int)>) -> Seq<Bodyg>
    decreases contacts.len(),
{
    if contacts.len() == 0 {
        bodies
    } else {
        apply_contact_spec(solve_vel_spec(bodies, contacts.drop_last()), contacts.last())
    }
}

/// Apply the restitution impulse of every contact recorded this substep.
/// The new arena is pinned exactly by `solve_vel_spec`; besides that, only
/// linear velocities change, a body with inverse mass zero keeps its
/// velocity through every contact, and a body in no contact is untouched.
pub fn solve_vel(bodies: &mut Vec<Body>, contacts: &Vec<Contact>)
    requires
        forall|k: int|
            0 <= k < contacts@.len() ==> contact_wf(#[trigger] contacts@[k], old(bodies)@.len() as int),
    ensures
        final(bodies)@.len() == old(bodies)@.len(),
        forall|i: int|
            0 <= i < old(bodies)@.len() ==> same_but_vel_lin(
                (#[trigger] final(bodies)@[i])@,
                old(bodies)@[i]@,
            ),
        forall|i: int|
            0 <= i < old(bodies)@.len() && old(bodies)@[i]@.inv_mass == 0
                ==> (#[trigger] final(bodies)@[i])@.vel_lin == old(bodies)@[i]@.vel_lin,
        forall|i: int|
            0 <= i < old(bodies)@.len() && !in_some_contact(contacts@, i)
                ==> #[trigger] final(bodies)@[i] == old(bodies)@[i],
        bodies_view(final(bodies)@) == solve_vel_spec(
            bodies_view(old(bodies)@),
            contacts_view(contacts@),
        ),
{
    let n_bodies = bodies.len();
    proof {
        assert(contacts_view(contacts@).subrange(0, 0)
            =~= Seq::<(int, int, Vec3g, int)>::empty());
    }
    let mut k: usize = 0;
    while k < contacts.len()
        invariant
            n_bodies == old(bodies)@.len(),
            bodies@.len() == n_bodies,
            forall|k2: int|
                0 <= k2 < contacts@.len() ==> contact_wf(#[trigger] contacts@[k2], n_bodies as int),
            forall|i: int|
                0 <= i < n_bodies ==> same_but_vel_lin((#[trigger] bodies@[i])@, old(bodies)@[i]@),
            forall|i: int|
                0 <= i < n_bodies && old(bodies)@[i]@.inv_mass == 0
                    ==> (#[trigger] bodies@[i])@.vel_lin == old(bodies)@[i]@.vel_lin,
            forall|i: int|
                0 <= i < n_bodies && !in_some_contact(contacts@, i) ==> #[trigger] bodies@[i]
                    == old(bodies)@[i],
            k <= contacts@.len(),
            bodies_view(bodies@) == solve_vel_spec(
                bodies_view(old(bodies)@),
                contacts_view(contacts@).subrange(0, k as int),
            ),
        decreases contacts@.len() - k,
    {
        let ghost pre_contacts = contacts_view(contacts@).subrange(0, k as int);
        let ghost cur_contacts = contacts_view(contacts@).subrange(0, k + 1);
        let ghost bodies_before = bodies_view(bodies@);
        let c = contacts[k];
        k = k + 1;
        proof {
            assert(cur_contacts.drop_last() =~= pre_contacts);
            assert(cur_contacts.last() == (
                c.entity_a as int,
                c.entity_b as int,
                c.normal@,
                c.penetration as int,
            ));
        }
        let body_a = bodies[c.entity_a];
        let body_b = bodies[c.entity_b];
        let wa = body_a.inverse_mass.0;
        let wb = body_b.inverse_mass.0;
        let w_sum = fx_add(wa, wb);
        proof {
            assert(bodies_before[c.entity_a as int] == body_a@);
            assert(bodies_before[c.entity_b as int] == body_b@);
        }
        if w_sum == 0 {
            proof {
                assert(solve_vel_spec(bodies_view(old(bodies)@), cur_contacts)
                    == bodies_before);
            }
            continue;
        }
        let (da, db) = velocity_impulses(
            body_a.velocity.linear,
            body_b.velocity.linear,
            body_a.pre_solve_velocity.linear,
            body_b.pre_solve_velocity.linear,
            body_a.restitution.0,
            body_b.restitution.0,
            c.normal,
            wa,
            wb,
        );
        proof {
            if body_a@.inv_mass == 0 {
                lemma_zero_weight_impulse(
                    body_a@.vel_lin, body_b@.vel_lin, body_a@.pre_lin, body_b@.pre_lin,
                    body_a@.restitution, body_b@.restitution, c.normal@,
                    fx_add_spec(wa as int, wb as int),
                );
                crate::solve_positions::lemma_add_sub_zero(body_a.velocity.linear@);
            }
            if body_b@.inv_mass == 0 {
                lemma_zero_weight_impulse(
                    body_a@.vel_lin, body_b@.vel_lin, body_a@.pre_lin, body_b@.pre_lin,
                    body_a@.restitution, body_b@.restitution, c.normal@,
                    fx_add_spec(wa as int, wb as int),
                );
                crate::solve_positions::lemma_add_sub_zero(body_b.velocity.linear@);
            }
        }
        bodies[c.entity_a].velocity.linear = body_a.velocity.linear.add(da);
        bodies[c.entity_b].velocity.linear = body_b.velocity.linear.sub(db);
        proof {
            let na = Bodyg { vel_lin: v3_add(body_a@.vel_lin, da@), ..body_a@ };
            let nb = Bodyg { vel_lin: v3_sub(body_b@.vel_lin, db@), ..body_b@ };
            assert(bodies_view(bodies@) =~= bodies_before.update(c.entity_a as int, na).update(
                c.entity_b as int,
                nb,
            ));
            assert(solve_vel_spec(bodies_view(old(bodies)@), cur_contacts)
                == bodies_view(bodies@));
        }
    }
    proof {
        assert(contacts_view(contacts@).subrange(0, contacts_view(contacts@).len() as int)
            =~= contacts_view(contacts@));
    }
}

} // verus!
