//! Narrow-phase intersection tests.
//!
//! The sphere-sphere test is analytic and its contract states the contact
//! condition and penetration exactly.  The general convex test probes the
//! two shapes' support mappings along a small set of directions and keeps
//! the axis of least overlap; its contract promises that shapes with
//! separated bounding boxes never report contact.  Both fix the normal
//! convention: from the first shape toward the second.

use vstd::prelude::*;
use crate::colliders::{collider_world_aabb, support_point_spec, Collider};
use crate::components::{aabb_separated, Aabb, Aabbg, Transform, Velocity};
use crate::contacts::Intersection;
use crate::fx::{
    fx_abs, fx_abs_spec, fx_add, fx_add_spec, fx_mul, fx_mul_spec, fx_neg, fx_neg_spec, fx_sqrt,
    fx_sqrt_spec, fx_sub, fx_sub_spec,
};
use crate::quat::{q_conjugate, q_rotate, Quatg};
use crate::vec3::{
    lemma_v3_len2_nonneg, v3_add, v3_div_s, v3_dot, v3_len, v3_len2, v3_neg, v3_normalize_or_zero,
    v3_sub, Vec3, Vec3g,
};

verus! {

/// Two spheres touch strictly: their squared center distance is below the
/// square of the combined radii.  Exactly touching spheres do not count.
pub open spec fn sphere_contact_exists(pa: Vec3g, ra: int, pb: Vec3g, rb: int) -> bool {
    v3_len2(v3_sub(pb, pa)) < fx_mul_spec(fx_add_spec(ra, rb), fx_add_spec(ra, rb))
}

/// Penetration of two overlapping spheres: combined radii minus the center
/// distance.
pub open spec fn sphere_penetration(pa: Vec3g, ra: int, pb: Vec3g, rb: int) -> int {
    fx_sub_spec(fx_add_spec(ra, rb), v3_len(v3_sub(pb, pa)))
}

/// Overlapping spheres with true (non-negative) radii penetrate by a
/// strictly positive depth.
pub proof fn lemma_sphere_penetration_positive(pa: Vec3g, ra: int, pb: Vec3g, rb: int)
    requires
        ra >= 0,
        rb >= 0,
        sphere_contact_exists(pa, ra, pb, rb),
    ensures
        sphere_penetration(pa, ra, pb, rb) > 0,
{
    let s = crate::fx::FX_SCALE as int;
    let c = crate::fx::fx_add_spec(ra, rb);
    let d2 = v3_len2(v3_sub(pb, pa));
    lemma_v3_len2_nonneg(v3_sub(pb, pa));
    let m = crate::fx::tdiv(c * c, s);
    assert(c * c >= 0) by (nonlinear_arith)
        requires c >= 0
    ;
    vstd::arithmetic::div_mod::lemma_fundamental_div_mod(c * c, s);
    vstd::arithmetic::div_mod::lemma_remainder_lower(c * c, s);
    vstd::arithmetic::div_mod::lemma_remainder_upper(c * c, s);
    vstd::arithmetic::div_mod::lemma_div_pos_is_pos(c * c, s);
    assert(d2 < crate::fx::fx_mul_spec(c, c));
    assert(d2 <= m - 1);
    let len = crate::fx::fx_sqrt_spec(d2);
    crate::fx::lemma_sqrt_floor_bounds((d2 * s) as nat);
    assert(len * len <= d2 * s);
    assert(d2 * s <= (m - 1) * s) by (nonlinear_arith)
        requires d2 <= m - 1, s > 0
    ;
    assert((m - 1) * s == m * s - s) by (nonlinear_arith);
    assert(m * s <= c * c) by (nonlinear_arith)
        requires c * c == s * m + (c * c) % s, (c * c) % s >= 0
    ;
    assert(len * len < c * c);
    assert(len < c) by (nonlinear_arith)
        requires len * len < c * c, len >= 0, c >= 0
    ;
}

/// Analytic sphere-sphere test.
///
/// Reports a contact exactly when the centers are strictly closer than the
/// combined radii and the center distance has not underflowed to zero (the
/// coincident-center case is guarded and skipped rather than divided by).
/// The normal points from the first sphere toward the second, and for true
/// (non-negative) radii the penetration is strictly positive.
pub fn sphere_sphere_intersect(pos_a: Vec3, radius_a: i64, pos_b: Vec3, radius_b: i64) -> (r:
    Option<Intersection>)
    ensures
        r is Some <==> (sphere_contact_exists(pos_a@, radius_a as int, pos_b@, radius_b as int)
            && v3_len(v3_sub(pos_b@, pos_a@)) != 0),
        r matches Some(i) ==> {
            &&& i.penetration as int == sphere_penetration(pos_a@, radius_a as int, pos_b@, radius_b as int)
            &&& i.normal@ == v3_div_s(v3_sub(pos_b@, pos_a@), v3_len(v3_sub(pos_b@, pos_a@)))
        },
        radius_a >= 0 && radius_b >= 0 ==> (r matches Some(i) ==> i.penetration > 0),
{
    proof {
        if radius_a >= 0 && radius_b >= 0 && sphere_contact_exists(
            pos_a@,
            radius_a as int,
            pos_b@,
            radius_b as int,
        ) {
            lemma_sphere_penetration_positive(pos_a@, radius_a as int, pos_b@, radius_b as int);
        }
    }
    let ab = pos_b.sub(pos_a);
    let combined_radius = fx_add(radius_a, radius_b);
    let ab_sqr_len = ab.length_squared();
    if ab_sqr_len < fx_mul(combined_radius, combined_radius) {
        let ab_length = fx_sqrt(ab_sqr_len);
        if ab_length == 0 {
            return None;
        }
        let penetration = fx_sub(combined_radius, ab_length);
        let normal = ab.div_s(ab_length);
        Some(Intersection { normal, penetration })
    } else {
        None
    }
}

/// One coordinate clamped into `[-h, h]`.
pub open spec fn clamp_coord(v: int, h: int) -> int {
    let a = if v > h {
        h
    } else {
        v
    };
    if a < fx_neg_spec(h) {
        fx_neg_spec(h)
    } else {
        a
    }
}

/// Box-sphere test in the box's local frame: the sphere center is clamped to
/// the box to find the closest point; a contact exists when that point is at
/// most one radius away, and the normal runs from the closest point to the
/// sphere center (so from the box toward the sphere).  The early rejection,
/// the tie at exactly one radius, and the guarded degenerate normal follow
/// the clamp test exactly.
pub open spec fn box_sphere_spec(
    bpos: Vec3g,
    brot: Quatg,
    half: Vec3g,
    spos: Vec3g,
    radius: int,
) -> Option<(Vec3g, int)> {
    let rel = q_rotate(q_conjugate(brot), v3_sub(spos, bpos));
    if fx_sub_spec(fx_abs_spec(rel.x), radius) > half.x || fx_sub_spec(fx_abs_spec(rel.y), radius)
        > half.y || fx_sub_spec(fx_abs_spec(rel.z), radius) > half.z {
        None
    } else {
        let closest = Vec3g {
            x: clamp_coord(rel.x, half.x),
            y: clamp_coord(rel.y, half.y),
            z: clamp_coord(rel.z, half.z),
        };
        let d2 = v3_len2(v3_sub(closest, rel));
        if d2 > fx_mul_spec(radius, radius) {
            None
        } else {
            let closest_world = v3_add(q_rotate(brot, closest), bpos);
            let n = v3_normalize_or_zero(v3_sub(spos, closest_world));
            if n == (Vec3g { x: 0, y: 0, z: 0 }) {
                None
            } else {
                Some((n, fx_sub_spec(radius, fx_sqrt_spec(d2))))
            }
        }
    }
}

/// Box-sphere test; the transform carries the box's position and rotation,
/// and the normal points from the box toward the sphere.
pub fn box_sphere_intersect(
    box_trans: &Transform,
    box_half_size: Vec3,
    sphere_trans: &Transform,
    sphere_radius: i64,
) -> (r: Option<Intersection>)
    ensures
        match r {
            Some(i) => box_sphere_spec(
                box_trans.translation@,
                box_trans.rotation@,
                box_half_size@,
                sphere_trans.translation@,
                sphere_radius as int,
            ) == Some((i.normal@, i.penetration as int)),
            None => box_sphere_spec(
                box_trans.translation@,
                box_trans.rotation@,
                box_half_size@,
                sphere_trans.translation@,
                sphere_radius as int,
            ) is None,
        },
{
    let rel = box_trans.rotation.conjugate().rotate(
        sphere_trans.translation.sub(box_trans.translation),
    );
    if fx_sub(fx_abs(rel.x), sphere_radius) > box_half_size.x
        || fx_sub(fx_abs(rel.y), sphere_radius) > box_half_size.y
        || fx_sub(fx_abs(rel.z), sphere_radius) > box_half_size.z {
        return None;
    }
    let mut dist = rel.x;
    if dist > box_half_size.x {
        dist = box_half_size.x;
    }
    let nx = fx_neg(box_half_size.x);
    if dist < nx {
        dist = nx;
    }
    let cx = dist;
    dist = rel.y;
    if dist > box_half_size.y {
        dist = box_half_size.y;
    }
    let ny = fx_neg(box_half_size.y);
    if dist < ny {
        dist = ny;
    }
    let cy = dist;
    dist = rel.z;
    if dist > box_half_size.z {
        dist = box_half_size.z;
    }
    let nz = fx_neg(box_half_size.z);
    if dist < nz {
        dist = nz;
    }
    let cz = dist;
    let closest_point = Vec3 { x: cx, y: cy, z: cz };
    let d2 = closest_point.sub(rel).length_squared();
    if d2 > fx_mul(sphere_radius, sphere_radius) {
        return None;
    }
    let closest_point_world = box_trans.rotation.rotate(closest_point).add(box_trans.translation);
    let normal = sphere_trans.translation.sub(closest_point_world).normalize_or_zero();
    if normal.x == 0 && normal.y == 0 && normal.z == 0 {
        return None;
    }
    let penetration = fx_sub(sphere_radius, fx_sqrt(d2));
    Some(Intersection { normal, penetration })
}

/// World bounding box of a shape at rest (no velocity margin).
pub open spec fn collider_world_aabb_rest(c: Collider, pos: Vec3g, rot: Quatg) -> Aabbg {
    collider_world_aabb(c, pos, rot, Vec3g { x: 0, y: 0, z: 0 }, 0)
}

/// Probe directions for a shape pair: the center line first, then the
/// rotated axes of the first shape if it is a box, then those of the second.
pub open spec fn gjk_probes(
    ca: Collider,
    pa: Vec3g,
    ra: Quatg,
    cb: Collider,
    pb: Vec3g,
    rb: Quatg,
) -> Seq<Vec3g> {
    let ux = Vec3g { x: crate::fx::FX_ONE as int, y: 0, z: 0 };
    let uy = Vec3g { x: 0, y: crate::fx::FX_ONE as int, z: 0 };
    let uz = Vec3g { x: 0, y: 0, z: crate::fx::FX_ONE as int };
    let s0 = seq![v3_sub(pb, pa)];
    let s1 = match ca {
        Collider::Box(_) => s0.push(q_rotate(ra, ux)).push(q_rotate(ra, uy)).push(q_rotate(ra, uz)),
        Collider::Sphere(_) => s0,
    };
    match cb {
        Collider::Box(_) => s1.push(q_rotate(rb, ux)).push(q_rotate(rb, uy)).push(q_rotate(rb, uz)),
        Collider::Sphere(_) => s1,
    }
}

/// Scan of a probe prefix: `None` once some probe separates the projections;
/// otherwise whether a usable probe was seen, the normal of least overlap so
/// far (oriented from the first shape toward the second), and that overlap.
pub open spec fn gjk_scan(
    ca: Collider,
    pa: Vec3g,
    ra: Quatg,
    cb: Collider,
    pb: Vec3g,
    rb: Quatg,
    bias: int,
    probes: Seq<Vec3g>,
) -> Option<(bool, Vec3g, int)>
    decreases probes.len(),
{
    if probes.len() == 0 {
        Some((false, Vec3g { x: 0, y: 0, z: 0 }, i64::MAX as int))
    } else {
        match gjk_scan(ca, pa, ra, cb, pb, rb, bias, probes.drop_last()) {
            None => None,
            Some((found, bn, bp)) => {
                let n = v3_normalize_or_zero(probes.last());
                if n == (Vec3g { x: 0, y: 0, z: 0 }) {
                    Some((found, bn, bp))
                } else {
                    let neg_n = v3_neg(n);
                    let max_a = v3_dot(n, support_point_spec(ca, pa, ra, n, bias));
                    let min_a = v3_dot(n, support_point_spec(ca, pa, ra, neg_n, bias));
                    let max_b = v3_dot(n, support_point_spec(cb, pb, rb, n, bias));
                    let min_b = v3_dot(n, support_point_spec(cb, pb, rb, neg_n, bias));
                    let pen_ab = fx_sub_spec(max_a, min_b);
                    let pen_ba = fx_sub_spec(max_b, min_a);
                    if pen_ab <= 0 || pen_ba <= 0 {
                        None
                    } else if pen_ab <= pen_ba {
                        if pen_ab < bp || !found {
                            Some((true, n, pen_ab))
                        } else {
                            Some((found, bn, bp))
                        }
                    } else {
                        if pen_ba < bp || !found {
                            Some((true, neg_n, pen_ba))
                        } else {
                            Some((found, bn, bp))
                        }
                    }
                }
            },
        }
    }
}

/// A separation found in a prefix stands for the whole probe list.
proof fn lemma_gjk_scan_none_persists(
    ca: Collider,
    pa: Vec3g,
    ra: Quatg,
    cb: Collider,
    pb: Vec3g,
    rb: Quatg,
    bias: int,
    probes: Seq<Vec3g>,
    k: int,
)
    requires
        0 <= k <= probes.len(),
        gjk_scan(ca, pa, ra, cb, pb, rb, bias, probes.subrange(0, k)) is None,
    ensures
        gjk_scan(ca, pa, ra, cb, pb, rb, bias, probes) is None,
    decreases probes.len() - k,
{
    if k == probes.len() {
        assert(probes.subrange(0, k) =~= probes);
    } else {
        assert(probes.subrange(0, k + 1).drop_last() =~= probes.subrange(0, k));
        lemma_gjk_scan_none_persists(ca, pa, ra, cb, pb, rb, bias, probes, k + 1);
    }
}

/// The whole general test, at the spec level: nothing for shapes whose rest
/// bounding boxes are separated; otherwise the scan's least-overlap axis, or
/// nothing when a probe separates the shapes or no probe was usable.
pub open spec fn gjk_spec(
    ca: Collider,
    pa: Vec3g,
    ra: Quatg,
    cb: Collider,
    pb: Vec3g,
    rb: Quatg,
    bias: int,
) -> Option<(Vec3g, int)> {
    if aabb_separated(collider_world_aabb_rest(ca, pa, ra), collider_world_aabb_rest(cb, pb, rb)) {
        None
    } else {
        match gjk_scan(ca, pa, ra, cb, pb, rb, bias, gjk_probes(ca, pa, ra, cb, pb, rb)) {
            None => None,
            Some((found, bn, bp)) => if found {
                Some((bn, bp))
            } else {
                None
            },
        }
    }
}

/// General convex-convex test by support mapping.
///
/// Candidate separating directions are probed through the shapes' support
/// points: the center line and, for a box, its three rotated axes.  If any
/// probe separates the projections the shapes are disjoint; otherwise the
/// axis of least overlap is reported, its normal oriented from the first
/// shape toward the second.  The result is pinned exactly by `gjk_spec`; in
/// particular, shapes whose rest bounding boxes are separated never report a
/// contact, and a reported contact has a positive depth and a non-zero
/// normal.
#[verifier::rlimit(100)]
pub fn gjk_intersect(
    collider_a: &Collider,
    trans_a: &Transform,
    collider_b: &Collider,
    trans_b: &Transform,
    bias: i64,
) -> (r: Option<Intersection>)
    ensures
        match r {
            Some(i) => gjk_spec(
                *collider_a,
                trans_a.translation@,
                trans_a.rotation@,
                *collider_b,
                trans_b.translation@,
                trans_b.rotation@,
                bias as int,
            ) == Some((i.normal@, i.penetration as int)),
            None => gjk_spec(
                *collider_a,
                trans_a.translation@,
                trans_a.rotation@,
                *collider_b,
                trans_b.translation@,
                trans_b.rotation@,
                bias as int,
            ) is None,
        },
        aabb_separated(
            collider_world_aabb_rest(*collider_a, trans_a.translation@, trans_a.rotation@),
            collider_world_aabb_rest(*collider_b, trans_b.translation@, trans_b.rotation@),
        ) ==> r is None,
        r matches Some(i) ==> i.penetration > 0 && (i.normal.x != 0 || i.normal.y != 0
            || i.normal.z != 0),
{
    let ghost pa = trans_a.translation@;
    let ghost ra = trans_a.rotation@;
    let ghost pb = trans_b.translation@;
    let ghost rbq = trans_b.rotation@;
    let zero_vel = Velocity::zero();
    let mut aabb_a = Aabb::zero();
    let mut aabb_b = Aabb::zero();
    collider_a.update_aabb(&mut aabb_a, trans_a, &zero_vel, 0);
    collider_b.update_aabb(&mut aabb_b, trans_b, &zero_vel, 0);
    if !aabb_a.overlaps(&aabb_b) {
        return None;
    }
    let mut probes: Vec<Vec3> = Vec::new();
    probes.push(trans_b.translation.sub(trans_a.translation));
    let unit_x = Vec3::new(crate::fx::FX_ONE, 0, 0);
    let unit_y = Vec3::new(0, crate::fx::FX_ONE, 0);
    let unit_z = Vec3::new(0, 0, crate::fx::FX_ONE);
    if let Collider::Box(_) = collider_a {
        probes.push(trans_a.rotation.rotate(unit_x));
        probes.push(trans_a.rotation.rotate(unit_y));
        probes.push(trans_a.rotation.rotate(unit_z));
    }
    if let Collider::Box(_) = collider_b {
        probes.push(trans_b.rotation.rotate(unit_x));
        probes.push(trans_b.rotation.rotate(unit_y));
        probes.push(trans_b.rotation.rotate(unit_z));
    }
    let ghost ps = gjk_probes(*collider_a, pa, ra, *collider_b, pb, rbq);
    proof {
        assert(probes@.len() == ps.len());
        assert forall|i: int| 0 <= i < ps.len() implies #[trigger] ps[i] == probes@[i]@ by {}
    }
    let mut best_pen: i64 = i64::MAX;
    let mut best_normal: Vec3 = Vec3::zero();
    let mut found: bool = false;
    let mut idx: usize = 0;
    proof {
        assert(ps.subrange(0, 0) =~= Seq::<Vec3g>::empty());
    }
    while idx < probes.len()
        invariant
            pa == trans_a.translation@,
            ra == trans_a.rotation@,
            pb == trans_b.translation@,
            rbq == trans_b.rotation@,
            probes@.len() == ps.len(),
            forall|i: int| 0 <= i < ps.len() ==> #[trigger] ps[i] == probes@[i]@,
            idx <= probes@.len(),
            ps == gjk_probes(*collider_a, pa, ra, *collider_b, pb, rbq),
            gjk_scan(*collider_a, pa, ra, *collider_b, pb, rbq, bias as int, ps.subrange(0, idx as int))
                == Some((found, best_normal@, best_pen as int)),
            found ==> best_pen > 0 && (best_normal.x != 0 || best_normal.y != 0
                || best_normal.z != 0),
        decreases probes@.len() - idx,
    {
        let ghost pre = ps.subrange(0, idx as int);
        let ghost cur = ps.subrange(0, idx + 1);
        proof {
            assert(cur.drop_last() =~= pre);
            assert(cur.last() == ps[idx as int]);
        }
        let n = probes[idx].normalize_or_zero();
        idx = idx + 1;
        if n.x == 0 && n.y == 0 && n.z == 0 {
            proof {
                assert(n@ == (Vec3g { x: 0, y: 0, z: 0 }));
                assert(gjk_scan(*collider_a, pa, ra, *collider_b, pb, rbq, bias as int, cur)
                    == Some((found, best_normal@, best_pen as int)));
            }
            continue;
        }
        let neg_n = n.neg();
        let max_a = n.dot(collider_a.get_support(trans_a, n, bias));
        let min_a = n.dot(collider_a.get_support(trans_a, neg_n, bias));
        let max_b = n.dot(collider_b.get_support(trans_b, n, bias));
        let min_b = n.dot(collider_b.get_support(trans_b, neg_n, bias));
        let pen_ab = fx_sub(max_a, min_b);
        let pen_ba = fx_sub(max_b, min_a);
        if pen_ab <= 0 || pen_ba <= 0 {
            proof {
                assert(gjk_scan(*collider_a, pa, ra, *collider_b, pb, rbq, bias as int, cur)
                    is None);
                lemma_gjk_scan_none_persists(
                    *collider_a, pa, ra, *collider_b, pb, rbq, bias as int, ps, idx as int,
                );
            }
            return None;
        }
        let ghost state_before = (found, best_normal@, best_pen as int);
        if pen_ab <= pen_ba {
            if pen_ab < best_pen || !found {
                best_pen = pen_ab;
                best_normal = n;
                found = true;
            }
        } else {
            if pen_ba < best_pen || !found {
                best_pen = pen_ba;
                best_normal = neg_n;
                found = true;
            }
        }
        proof {
            assert(gjk_scan(*collider_a, pa, ra, *collider_b, pb, rbq, bias as int, cur)
                == Some((found, best_normal@, best_pen as int)));
        }
    }
    proof {
        assert(ps.subrange(0, ps.len() as int) =~= ps);
    }
    if found {
        Some(Intersection { normal: best_normal, penetration: best_pen })
    } else {
        None
    }
}

} // verus!
