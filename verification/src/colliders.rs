//! Collider geometry: the closed shape set (sphere, box).
//!
//! Each shape exposes its center of mass, its inertia tensor for a given
//! mass, its local bounding box, a world-space support point for a probe
//! direction, a bound on the linear speed its rotation can induce along a
//! direction, and a ray intersection distance.  The shape set is a closed
//! tagged variant dispatched by `match`.

use vstd::prelude::*;
use crate::components::{Aabb, Aabbg, Transform, Velocity};
use crate::fx::{
    fx_add, fx_add_spec, fx_div, fx_div_spec, fx_mul, fx_mul_spec, fx_neg, fx_neg_spec, fx_sqrt,
    fx_sqrt_spec, fx_sub, fx_sub_spec, FX_FOUR, FX_HALF, FX_TWO,
};
use crate::quat::{q_rotate, Quat, Quatg};
use crate::vec3::{
    v3_add, v3_cross, v3_div_s, v3_dot, v3_len, v3_len2, v3_max_comp, v3_min_comp, v3_neg,
    v3_normalize_or_zero, v3_scale, v3_sub, Vec3, Vec3g,
};

verus! {

/// Two fifths, the coefficient of a solid sphere's inertia.
pub const TWO_FIFTHS: i64 = 1717986918;

/// Twelve, the divisor of a solid box's inertia.
pub const TWELVE: i64 = 51539607552;

/// A ray in object space.
#[derive(Clone, Copy, PartialEq, Eq, Structural, Debug)]
pub struct Ray {
    pub origin: Vec3,
    pub direction: Vec3,
}

/// A sphere about its own center of mass.
#[derive(Clone, Copy, PartialEq, Eq, Structural, Debug)]
pub struct Sphere {
    pub radius: i64,
    pub aabb: Aabb,
    pub center_of_mass: Vec3,
}

/// A rectangular box about its own center of mass.
#[derive(Clone, Copy, PartialEq, Eq, Structural, Debug)]
pub struct BoxCollider {
    pub half_size: Vec3,
    pub size: Vec3,
    pub aabb: Aabb,
    pub center_of_mass: Vec3,
}

/// The closed shape set.
#[derive(Clone, Copy, PartialEq, Eq, Structural, Debug)]
pub enum Collider {
    Sphere(Sphere),
    Box(BoxCollider),
}

/// A collider's dimensions are true lengths: no negative radius or extent.
pub open spec fn collider_wf(c: Collider) -> bool {
    match c {
        Collider::Sphere(s) => s.radius >= 0,
        Collider::Box(b) => b.half_size@.x >= 0 && b.half_size@.y >= 0 && b.half_size@.z >= 0,
    }
}

/// Corner `k` of a box with the given half extents, `0 <= k < 8`; the three
/// low bits of `k` choose the sign of the x, y and z component in turn.
pub open spec fn box_vert(half: Vec3g, k: int) -> Vec3g {
    Vec3g {
        x: if k >= 4 { half.x } else { fx_neg_spec(half.x) },
        y: if k % 4 >= 2 { half.y } else { fx_neg_spec(half.y) },
        z: if k % 2 == 1 { half.z } else { fx_neg_spec(half.z) },
    }
}

/// Corner `k` carried into world space.
pub open spec fn box_support_candidate(half: Vec3g, pos: Vec3g, orient: Quatg, k: int) -> Vec3g {
    v3_add(q_rotate(orient, box_vert(half, k)), pos)
}

/// Index of the corner among `0 ..= k` whose world-space position projects
/// furthest along `dir`; the earliest such corner wins ties.
pub open spec fn box_support_best(half: Vec3g, pos: Vec3g, orient: Quatg, dir: Vec3g, k: int) -> int
    decreases k,
{
    if k <= 0 {
        0
    } else {
        let b = box_support_best(half, pos, orient, dir, k - 1);
        if v3_dot(dir, box_support_candidate(half, pos, orient, k)) > v3_dot(
            dir,
            box_support_candidate(half, pos, orient, b),
        ) {
            k
        } else {
            b
        }
    }
}

/// Outward bias added to a support point: the probe direction normalised and
/// scaled by the bias.
pub open spec fn support_bias_offset(dir: Vec3g, bias: int) -> Vec3g {
    v3_scale(v3_normalize_or_zero(dir), bias)
}

/// The point a support query returns: for a sphere, the center advanced by
/// radius plus bias along the probe; for a box, its furthest corner plus the
/// normalised bias offset.
#[verifier::opaque]
pub open spec fn support_point_spec(c: Collider, pos: Vec3g, rot: Quatg, dir: Vec3g, bias: int) -> Vec3g {
    match c {
        Collider::Sphere(s) => v3_add(pos, v3_scale(dir, fx_add_spec(s.radius as int, bias))),
        Collider::Box(b) => v3_add(
            box_support_candidate(
                b.half_size@,
                pos,
                rot,
                box_support_best(b.half_size@, pos, rot, dir, 7),
            ),
            support_bias_offset(dir, bias),
        ),
    }
}

/// The best corner really is furthest along `dir` among the first `k + 1`.
pub proof fn lemma_box_support_best(half: Vec3g, pos: Vec3g, orient: Quatg, dir: Vec3g, k: int)
    requires
        0 <= k < 8,
    ensures
        0 <= box_support_best(half, pos, orient, dir, k) <= k,
        forall|j: int|
            0 <= j <= k ==> v3_dot(dir, #[trigger] box_support_candidate(half, pos, orient, j))
                <= v3_dot(
                dir,
                box_support_candidate(half, pos, orient, box_support_best(half, pos, orient, dir, k)),
            ),
    decreases k,
{
    if k > 0 {
        lemma_box_support_best(half, pos, orient, dir, k - 1);
    }
}

/// World-space corner `k` of a box.
pub fn box_vertex(half: Vec3, k: usize) -> (r: Vec3)
    requires
        k < 8,
    ensures
        r@ == box_vert(half@, k as int),
{
    let x = if k >= 4 {
        half.x
    } else {
        fx_neg(half.x)
    };
    let y = if k % 4 >= 2 {
        half.y
    } else {
        fx_neg(half.y)
    };
    let z = if k % 2 == 1 {
        half.z
    } else {
        fx_neg(half.z)
    };
    Vec3 { x, y, z }
}

/// The corner of a box furthest along `dir`, biased outward along the
/// normalised probe direction.
pub fn find_support_point(half: Vec3, dir: Vec3, pos: Vec3, orient: Quat, bias: i64) -> (r: Vec3)
    ensures
        r@ == v3_add(
            box_support_candidate(half@, pos@, orient@, box_support_best(half@, pos@, orient@, dir@, 7)),
            support_bias_offset(dir@, bias as int),
        ),
        forall|j: int|
            0 <= j < 8 ==> v3_dot(dir@, #[trigger] box_support_candidate(half@, pos@, orient@, j))
                <= v3_dot(
                dir@,
                box_support_candidate(
                    half@,
                    pos@,
                    orient@,
                    box_support_best(half@, pos@, orient@, dir@, 7),
                ),
            ),
{
    let v0 = box_vertex(half, 0);
    let mut max_pt: Vec3 = orient.rotate(v0).add(pos);
    let mut max_dist: i64 = dir.dot(max_pt);
    let mut k: usize = 1;
    while k < 8
        invariant
            1 <= k <= 8,
            max_pt@ == box_support_candidate(
                half@,
                pos@,
                orient@,
                box_support_best(half@, pos@, orient@, dir@, k - 1),
            ),
            max_dist as int == v3_dot(
                dir@,
                box_support_candidate(
                    half@,
                    pos@,
                    orient@,
                    box_support_best(half@, pos@, orient@, dir@, k - 1),
                ),
            ),
        decreases 8 - k,
    {
        let vk = box_vertex(half, k);
        let pt = orient.rotate(vk).add(pos);
        let dist = dir.dot(pt);
        if dist > max_dist {
            max_dist = dist;
            max_pt = pt;
        }
        k = k + 1;
    }
    proof {
        lemma_box_support_best(half@, pos@, orient@, dir@, 7);
    }
    let norm = dir.normalize_or_zero().scale(bias);
    max_pt.add(norm)
}

/// Speed induced at corner `k` by an angular velocity, projected on `dir`.
pub open spec fn box_speed_term(half: Vec3g, com: Vec3g, av: Vec3g, dir: Vec3g, k: int) -> int {
    v3_dot(dir, v3_cross(av, v3_sub(box_vert(half, k), com)))
}

/// Largest such speed among corners `0 ..= k`, never below zero.
pub open spec fn box_speed_best(half: Vec3g, com: Vec3g, av: Vec3g, dir: Vec3g, k: int) -> int
    decreases k + 1,
{
    if k < 0 {
        0
    } else {
        let m = box_speed_best(half, com, av, dir, k - 1);
        let s = box_speed_term(half, com, av, dir, k);
        if s > m {
            s
        } else {
            m
        }
    }
}

/// The bound dominates every corner's induced speed and is non-negative.
pub proof fn lemma_box_speed_best(half: Vec3g, com: Vec3g, av: Vec3g, dir: Vec3g, k: int)
    requires
        -1 <= k < 8,
    ensures
        box_speed_best(half, com, av, dir, k) >= 0,
        forall|j: int|
            0 <= j <= k ==> #[trigger] box_speed_term(half, com, av, dir, j) <= box_speed_best(
                half,
                com,
                av,
                dir,
                k,
            ),
    decreases k + 1,
{
    if k >= 0 {
        lemma_box_speed_best(half, com, av, dir, k - 1);
    }
}

/// Fastest linear speed any corner of a box gains from an angular velocity,
/// along `dir`.
pub fn fastest_linear_speed_box(half: Vec3, angular_velocity: Vec3, center_of_mass: Vec3, dir: Vec3) -> (r: i64)
    ensures
        r as int == box_speed_best(half@, center_of_mass@, angular_velocity@, dir@, 7),
        r >= 0,
        forall|j: int|
            0 <= j < 8 ==> #[trigger] box_speed_term(half@, center_of_mass@, angular_velocity@, dir@, j)
                <= r as int,
{
    let mut max_speed: i64 = 0;
    let mut k: usize = 0;
    while k < 8
        invariant
            0 <= k <= 8,
            max_speed as int == box_speed_best(
                half@,
                center_of_mass@,
                angular_velocity@,
                dir@,
                k - 1,
            ),
        decreases 8 - k,
    {
        let vk = box_vertex(half, k);
        let rel = vk.sub(center_of_mass);
        let linear_velocity = angular_velocity.cross(rel);
        let speed = dir.dot(linear_velocity);
        if speed > max_speed {
            max_speed = speed;
        }
        k = k + 1;
    }
    proof {
        lemma_box_speed_best(half@, center_of_mass@, angular_velocity@, dir@, 7);
    }
    max_speed
}

impl Sphere {
    /// A sphere of the given radius, with its local bounding box.
    pub fn new(radius: i64) -> (r: Sphere)
        ensures
            r.radius == radius,
            r.aabb.mins@ == v3_neg((Vec3g { x: radius as int, y: radius as int, z: radius as int })),
            r.aabb.maxs@ == (Vec3g { x: radius as int, y: radius as int, z: radius as int }),
            r.center_of_mass@ == (Vec3g { x: 0, y: 0, z: 0 }),
    {
        let ext = Vec3::splat(radius);
        Sphere { radius, aabb: Aabb { mins: ext.neg(), maxs: ext }, center_of_mass: Vec3::zero() }
    }
}

/// Inertia of a solid sphere: `(2/5) * mass * radius^2` on each diagonal
/// entry.
pub open spec fn sphere_inertia_diag(radius: int, mass: int) -> int {
    fx_mul_spec(fx_mul_spec(fx_mul_spec(TWO_FIFTHS as int, mass), radius), radius)
}

/// Inertia diagonal of a solid box: `mass / 12` times the sums of squared
/// extents of the two orthogonal axes.
pub open spec fn box_inertia_diag(size: Vec3g, mass: int) -> Vec3g {
    let dd = Vec3g {
        x: fx_mul_spec(size.x, size.x),
        y: fx_mul_spec(size.y, size.y),
        z: fx_mul_spec(size.z, size.z),
    };
    v3_div_s(
        v3_scale(
            Vec3g {
                x: fx_add_spec(dd.y, dd.z),
                y: fx_add_spec(dd.x, dd.z),
                z: fx_add_spec(dd.x, dd.y),
            },
            mass,
        ),
        TWELVE as int,
    )
}

impl BoxCollider {
    /// A box of the given full extents, with its half extents and local
    /// bounding box.
    pub fn new(size: Vec3) -> (r: BoxCollider)
        ensures
            r.size == size,
            r.half_size@ == v3_scale(size@, FX_HALF as int),
            r.aabb.mins@ == v3_neg(v3_scale(size@, FX_HALF as int)),
            r.aabb.maxs@ == v3_scale(size@, FX_HALF as int),
            r.center_of_mass@ == (Vec3g { x: 0, y: 0, z: 0 }),
    {
        let half_size = size.scale(FX_HALF);
        BoxCollider {
            half_size,
            size,
            aabb: Aabb { mins: half_size.neg(), maxs: half_size },
            center_of_mass: Vec3::zero(),
        }
    }
}

/// The world bounding box of a sphere: its radius grown by a margin
/// proportional to the body's linear speed, centred on the translation.
pub open spec fn sphere_world_aabb(radius: int, trans: Vec3g, linvel: Vec3g, factor: int) -> Aabbg {
    let margin = fx_mul_spec(factor, v3_len(linvel));
    let ext = fx_add_spec(radius, margin);
    Aabbg {
        mins: v3_sub(trans, Vec3g { x: ext, y: ext, z: ext }),
        maxs: v3_add(trans, Vec3g { x: ext, y: ext, z: ext }),
    }
}

/// Componentwise smallest world-space corner of a box, over corners
/// `0 ..= k`.
pub open spec fn box_corners_min(half: Vec3g, pos: Vec3g, rot: Quatg, k: int) -> Vec3g
    decreases k,
{
    if k <= 0 {
        box_support_candidate(half, pos, rot, 0)
    } else {
        v3_min_comp(
            box_corners_min(half, pos, rot, k - 1),
            box_support_candidate(half, pos, rot, k),
        )
    }
}

/// Componentwise largest world-space corner of a box, over corners `0 ..= k`.
pub open spec fn box_corners_max(half: Vec3g, pos: Vec3g, rot: Quatg, k: int) -> Vec3g
    decreases k,
{
    if k <= 0 {
        box_support_candidate(half, pos, rot, 0)
    } else {
        v3_max_comp(
            box_corners_max(half, pos, rot, k - 1),
            box_support_candidate(half, pos, rot, k),
        )
    }
}

/// The world bounding box of a box collider: the componentwise bounds of its
/// eight rotated corners, grown by the speed margin, so the box is enclosed
/// in any orientation.
#[verifier::opaque]
pub open spec fn box_world_aabb(half: Vec3g, pos: Vec3g, rot: Quatg, linvel: Vec3g, factor: int) -> Aabbg {
    let margin = fx_mul_spec(factor, v3_len(linvel));
    let m = Vec3g { x: margin, y: margin, z: margin };
    Aabbg {
        mins: v3_sub(box_corners_min(half, pos, rot, 7), m),
        maxs: v3_add(box_corners_max(half, pos, rot, 7), m),
    }
}

/// The corner bounds really bracket every corner among the first `k + 1`,
/// componentwise.
pub proof fn lemma_box_corners_bounds(half: Vec3g, pos: Vec3g, rot: Quatg, k: int)
    requires
        0 <= k < 8,
    ensures
        forall|j: int|
            0 <= j <= k ==> {
                let c = #[trigger] box_support_candidate(half, pos, rot, j);
                let mn = box_corners_min(half, pos, rot, k);
                let mx = box_corners_max(half, pos, rot, k);
                &&& mn.x <= c.x <= mx.x
                &&& mn.y <= c.y <= mx.y
                &&& mn.z <= c.z <= mx.z
            },
    decreases k,
{
    if k > 0 {
        lemma_box_corners_bounds(half, pos, rot, k - 1);
    }
}

/// The world bounding box of a box encloses all eight transformed corners,
/// for any non-negative margin: the stated invariant of the broad-phase
/// input.
pub proof fn lemma_box_world_aabb_encloses(
    half: Vec3g,
    pos: Vec3g,
    rot: Quatg,
    linvel: Vec3g,
    factor: int,
)
    requires
        factor >= 0,
    ensures
        forall|j: int|
            0 <= j < 8 ==> {
                let c = #[trigger] box_support_candidate(half, pos, rot, j);
                let wb = box_world_aabb(half, pos, rot, linvel, factor);
                &&& wb.mins.x <= c.x <= wb.maxs.x
                &&& wb.mins.y <= c.y <= wb.maxs.y
                &&& wb.mins.z <= c.z <= wb.maxs.z
            },
{
    reveal(box_world_aabb);
    lemma_box_corners_bounds(half, pos, rot, 7);
    let len = v3_len(linvel);
    crate::vec3::lemma_v3_len2_nonneg(linvel);
    crate::fx::lemma_sqrt_floor_bounds((v3_len2(linvel) * (crate::fx::FX_SCALE as int)) as nat);
    let margin = fx_mul_spec(factor, len);
    assert(factor * len >= 0) by (nonlinear_arith)
        requires factor >= 0, len >= 0
    ;
    vstd::arithmetic::div_mod::lemma_div_pos_is_pos(factor * len, crate::fx::FX_SCALE as int);
}

/// The world bounding box of any collider at a transform, grown by the
/// speed margin.
pub open spec fn collider_world_aabb(
    c: Collider,
    pos: Vec3g,
    rot: Quatg,
    linvel: Vec3g,
    factor: int,
) -> Aabbg {
    match c {
        Collider::Sphere(s) => sphere_world_aabb(s.radius as int, pos, linvel, factor),
        Collider::Box(b) => box_world_aabb(b.half_size@, pos, rot, linvel, factor),
    }
}

impl Collider {
    /// A sphere collider.
    pub fn new_sphere(radius: i64) -> (r: Collider)
        ensures
            r matches Collider::Sphere(s) && s.radius == radius && s.aabb.mins@ == v3_neg(
                Vec3g { x: radius as int, y: radius as int, z: radius as int },
            ) && s.aabb.maxs@ == (Vec3g { x: radius as int, y: radius as int, z: radius as int })
                && s.center_of_mass@ == (Vec3g { x: 0, y: 0, z: 0 }),
    {
        Collider::Sphere(Sphere::new(radius))
    }

    /// A box collider of the given full extents.
    pub fn new_box(x_length: i64, y_length: i64, z_length: i64) -> (r: Collider)
        ensures
            r matches Collider::Box(b) && b.size@ == (Vec3g {
                x: x_length as int,
                y: y_length as int,
                z: z_length as int,
            }) && b.half_size@ == v3_scale(b.size@, FX_HALF as int) && b.aabb.mins@ == v3_neg(
                b.half_size@,
            ) && b.aabb.maxs@ == b.half_size@ && b.center_of_mass@ == (Vec3g { x: 0, y: 0, z: 0 }),
    {
        Collider::Box(BoxCollider::new(Vec3::new(x_length, y_length, z_length)))
    }

    /// Shared center of mass accessor.
    pub fn get_center_of_mass(&self) -> (r: Vec3)
        ensures
            r == match self {
                Collider::Sphere(s) => s.center_of_mass,
                Collider::Box(b) => b.center_of_mass,
            },
    {
        match self {
            Collider::Sphere(s) => s.center_of_mass,
            Collider::Box(b) => b.center_of_mass,
        }
    }

    /// Diagonal of the body-space inertia tensor for the given mass.
    pub fn get_inertia_tensor(&self, mass: i64) -> (r: Vec3)
        ensures
            r@ == match self {
                Collider::Sphere(s) => {
                    let i = sphere_inertia_diag(s.radius as int, mass as int);
                    Vec3g { x: i, y: i, z: i }
                },
                Collider::Box(b) => box_inertia_diag(b.size@, mass as int),
            },
    {
        match self {
            Collider::Sphere(s) => {
                let i = fx_mul(fx_mul(fx_mul(TWO_FIFTHS, mass), s.radius), s.radius);
                Vec3::splat(i)
            },
            Collider::Box(b) => {
                let dd = Vec3 {
                    x: fx_mul(b.size.x, b.size.x),
                    y: fx_mul(b.size.y, b.size.y),
                    z: fx_mul(b.size.z, b.size.z),
                };
                Vec3 {
                    x: fx_add(dd.y, dd.z),
                    y: fx_add(dd.x, dd.z),
                    z: fx_add(dd.x, dd.y),
                }.scale(mass).div_s(TWELVE)
            },
        }
    }

    /// Local bounding box about the center of mass.
    pub fn get_aabb(&self) -> (r: Aabb)
        ensures
            r == match self {
                Collider::Sphere(s) => s.aabb,
                Collider::Box(b) => b.aabb,
            },
    {
        match self {
            Collider::Sphere(s) => s.aabb,
            Collider::Box(b) => b.aabb,
        }
    }

    /// Recompute the world bounding box for a transform, growing it by a
    /// margin proportional to the body's linear speed.
    pub fn update_aabb(&self, aabb: &mut Aabb, trans: &Transform, velocity: &Velocity, factor: i64)
        ensures
            final(aabb)@ == collider_world_aabb(
                *self,
                trans.translation@,
                trans.rotation@,
                velocity.linear@,
                factor as int,
            ),
    {
        proof {
            reveal(box_world_aabb);
        }
        let margin = fx_mul(factor, velocity.linear.length());
        match self {
            Collider::Sphere(s) => {
                let half_extends = Vec3::splat(fx_add(s.radius, margin));
                aabb.mins = trans.translation.sub(half_extends);
                aabb.maxs = trans.translation.add(half_extends);
            },
            Collider::Box(b) => {
                let c0 = trans.rotation.rotate(box_vertex(b.half_size, 0)).add(trans.translation);
                let mut mins = c0;
                let mut maxs = c0;
                let mut k: usize = 1;
                while k < 8
                    invariant
                        1 <= k <= 8,
                        mins@ == box_corners_min(
                            b.half_size@,
                            trans.translation@,
                            trans.rotation@,
                            k - 1,
                        ),
                        maxs@ == box_corners_max(
                            b.half_size@,
                            trans.translation@,
                            trans.rotation@,
                            k - 1,
                        ),
                    decreases 8 - k,
                {
                    let c = trans.rotation.rotate(box_vertex(b.half_size, k)).add(
                        trans.translation,
                    );
                    mins = mins.min_comp(c);
                    maxs = maxs.max_comp(c);
                    k = k + 1;
                }
                let m = Vec3::splat(margin);
                aabb.mins = mins.sub(m);
                aabb.maxs = maxs.add(m);
            },
        }
    }

    /// World-space support point: the point of the shape furthest along
    /// `dir`, biased outward by `bias`.
    pub fn get_support(&self, trans: &Transform, dir: Vec3, bias: i64) -> (r: Vec3)
        ensures
            r@ == support_point_spec(*self, trans.translation@, trans.rotation@, dir@, bias as int),
    {
        proof {
            reveal(support_point_spec);
        }
        match self {
            Collider::Sphere(s) => trans.translation.add(dir.scale(fx_add(s.radius, bias))),
            Collider::Box(b) => find_support_point(
                b.half_size,
                dir,
                trans.translation,
                trans.rotation,
                bias,
            ),
        }
    }

    /// Conservative bound on the linear speed the shape's rotation induces
    /// along `dir`; zero for a sphere about its own center.
    pub fn fastest_linear_speed(&self, angular_velocity: Vec3, dir: Vec3) -> (r: i64)
        ensures
            match self {
                Collider::Sphere(_) => r == 0,
                Collider::Box(b) => r as int == box_speed_best(
                    b.half_size@,
                    b.center_of_mass@,
                    angular_velocity@,
                    dir@,
                    7,
                ),
            },
            r >= 0,
    {
        match self {
            Collider::Sphere(_) => 0,
            Collider::Box(b) => fastest_linear_speed_box(
                b.half_size,
                angular_velocity,
                b.center_of_mass,
                dir,
            ),
        }
    }
}

/// Ray-sphere test about the origin: the discriminant of the quadratic
/// decides a hit, and the nearest non-negative root is the distance.  A
/// degenerate ray whose squared direction underflows to zero misses.
pub open spec fn sphere_ray_spec(radius: int, origin: Vec3g, dir: Vec3g) -> Option<int> {
    let a = v3_dot(dir, dir);
    let b = fx_mul_spec(FX_TWO as int, v3_dot(dir, origin));
    let c = fx_sub_spec(v3_dot(origin, origin), fx_mul_spec(radius, radius));
    let disc = fx_sub_spec(fx_mul_spec(b, b), fx_mul_spec(fx_mul_spec(FX_FOUR as int, a), c));
    if disc < 0 {
        None
    } else {
        let denom = fx_mul_spec(FX_TWO as int, a);
        if denom == 0 {
            None
        } else {
            let sq = fx_sqrt_spec(disc);
            let t1 = fx_div_spec(fx_sub_spec(fx_neg_spec(b), sq), denom);
            let t2 = fx_div_spec(fx_add_spec(fx_neg_spec(b), sq), denom);
            if t1 >= 0 && t2 >= 0 {
                Some(if t1 < t2 { t1 } else { t2 })
            } else if t1 >= 0 {
                Some(t1)
            } else if t2 >= 0 {
                Some(t2)
            } else {
                None
            }
        }
    }
}

/// Parameter interval in which a ray crosses one slab `[mn, mx]`.  A ray
/// parallel to the slab (zero direction component) crosses everywhere when
/// its origin lies strictly inside, and never otherwise.
pub open spec fn slab_spec(mn: int, mx: int, o: int, d: int) -> Option<(int, int)> {
    if d == 0 {
        if o <= mn || o >= mx {
            None
        } else {
            Some((-(i64::MAX as int), i64::MAX as int))
        }
    } else {
        let t1 = fx_div_spec(fx_sub_spec(mn, o), d);
        let t2 = fx_div_spec(fx_sub_spec(mx, o), d);
        if t1 > t2 {
            Some((t2, t1))
        } else {
            Some((t1, t2))
        }
    }
}

/// Slab-based ray-box test against a local bounding box: the x and y slab
/// intervals are intersected first, then the z interval; an empty
/// intersection or a box entirely behind the ray misses, and a ray starting
/// inside reports its exit distance.
pub open spec fn box_ray_spec(aabb: Aabbg, origin: Vec3g, dir: Vec3g) -> Option<int> {
    match (
        slab_spec(aabb.mins.x, aabb.maxs.x, origin.x, dir.x),
        slab_spec(aabb.mins.y, aabb.maxs.y, origin.y, dir.y),
        slab_spec(aabb.mins.z, aabb.maxs.z, origin.z, dir.z),
    ) {
        (Some(tx), Some(ty), Some(tz)) => {
            if tx.0 > ty.1 || ty.0 > tx.1 {
                None
            } else {
                let tmin = if ty.0 > tx.0 { ty.0 } else { tx.0 };
                let tmax = if ty.1 < tx.1 { ty.1 } else { tx.1 };
                if tmin > tz.1 || tz.0 > tmax {
                    None
                } else {
                    let tmin2 = if tz.0 > tmin { tz.0 } else { tmin };
                    let tmax2 = if tz.1 < tmax { tz.1 } else { tmax };
                    if tmax2 < 0 {
                        None
                    } else if tmin2 < 0 {
                        Some(tmax2)
                    } else {
                        Some(tmin2)
                    }
                }
            }
        },
        _ => None,
    }
}

impl Sphere {
    /// Distance at which an object-space ray first hits this sphere, if it
    /// does.
    ///
    /// Relies on nothing outside the crate; the quadratic is solved in
    /// fixed point and the nearest non-negative root returned.
    pub fn intersect(&self, ray: &Ray) -> (r: Option<i64>)
        ensures
            match r {
                Some(t) => sphere_ray_spec(self.radius as int, ray.origin@, ray.direction@)
                    == Some(t as int),
                None => sphere_ray_spec(self.radius as int, ray.origin@, ray.direction@) is None,
            },
    {
        let a = ray.direction.dot(ray.direction);
        let b = fx_mul(FX_TWO, ray.direction.dot(ray.origin));
        let c = fx_sub(ray.origin.dot(ray.origin), fx_mul(self.radius, self.radius));
        let disc = fx_sub(fx_mul(b, b), fx_mul(fx_mul(FX_FOUR, a), c));
        if disc < 0 {
            return None;
        }
        let denom = fx_mul(FX_TWO, a);
        if denom == 0 {
            return None;
        }
        let sq = fx_sqrt(disc);
        let t1 = fx_div(fx_sub(fx_neg(b), sq), denom);
        let t2 = fx_div(fx_add(fx_neg(b), sq), denom);
        if t1 >= 0 && t2 >= 0 {
            Some(if t1 < t2 { t1 } else { t2 })
        } else if t1 >= 0 {
            Some(t1)
        } else if t2 >= 0 {
            Some(t2)
        } else {
            None
        }
    }
}

/// One slab's crossing interval, executably.
fn slab_interval(mn: i64, mx: i64, o: i64, d: i64) -> (r: Option<(i64, i64)>)
    ensures
        match r {
            Some(t) => slab_spec(mn as int, mx as int, o as int, d as int)
                == Some((t.0 as int, t.1 as int)),
            None => slab_spec(mn as int, mx as int, o as int, d as int) is None,
        },
{
    if d == 0 {
        if o <= mn || o >= mx {
            None
        } else {
            Some((-i64::MAX, i64::MAX))
        }
    } else {
        let t1 = fx_div(fx_sub(mn, o), d);
        let t2 = fx_div(fx_sub(mx, o), d);
        if t1 > t2 {
            Some((t2, t1))
        } else {
            Some((t1, t2))
        }
    }
}

impl BoxCollider {
    /// Distance at which an object-space ray first hits this box, if it
    /// does, by the slab test against the local bounding box.
    pub fn intersect(&self, ray: &Ray) -> (r: Option<i64>)
        ensures
            match r {
                Some(t) => box_ray_spec(self.aabb@, ray.origin@, ray.direction@) == Some(t as int),
                None => box_ray_spec(self.aabb@, ray.origin@, ray.direction@) is None,
            },
    {
        let sx = slab_interval(self.aabb.mins.x, self.aabb.maxs.x, ray.origin.x, ray.direction.x);
        let sy = slab_interval(self.aabb.mins.y, self.aabb.maxs.y, ray.origin.y, ray.direction.y);
        let sz = slab_interval(self.aabb.mins.z, self.aabb.maxs.z, ray.origin.z, ray.direction.z);
        match (sx, sy, sz) {
            (Some(tx), Some(ty), Some(tz)) => {
                if tx.0 > ty.1 || ty.0 > tx.1 {
                    return None;
                }
                let tmin = if ty.0 > tx.0 { ty.0 } else { tx.0 };
                let tmax = if ty.1 < tx.1 { ty.1 } else { tx.1 };
                if tmin > tz.1 || tz.0 > tmax {
                    return None;
                }
                let tmin2 = if tz.0 > tmin { tz.0 } else { tmin };
                let tmax2 = if tz.1 < tmax { tz.1 } else { tmax };
                if tmax2 < 0 {
                    None
                } else if tmin2 < 0 {
                    Some(tmax2)
                } else {
                    Some(tmin2)
                }
            },
            _ => None,
        }
    }
}

impl Collider {
    /// Distance at which an object-space ray first hits this shape, if it
    /// does.
    pub fn intersect(&self, ray: &Ray) -> (r: Option<i64>)
        ensures
            match self {
                Collider::Sphere(s) => match r {
                    Some(t) => sphere_ray_spec(s.radius as int, ray.origin@, ray.direction@)
                        == Some(t as int),
                    None => sphere_ray_spec(s.radius as int, ray.origin@, ray.direction@) is None,
                },
                Collider::Box(b) => match r {
                    Some(t) => box_ray_spec(b.aabb@, ray.origin@, ray.direction@) == Some(t as int),
                    None => box_ray_spec(b.aabb@, ray.origin@, ray.direction@) is None,
                },
            },
    {
        match self {
            Collider::Sphere(s) => s.intersect(ray),
            Collider::Box(b) => b.intersect(ray),
        }
    }
}

impl Default for Collider {
    /// A sphere of radius one half.
    fn default() -> (r: Collider)
        ensures
            r matches Collider::Sphere(s) && s.radius == FX_HALF,
    {
        Collider::new_sphere(FX_HALF)
    }
}

} // verus!
