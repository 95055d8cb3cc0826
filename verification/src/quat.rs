//! Fixed-point quaternions for body orientation.
//!
//! The component order is `(x, y, z, w)` with `w` the scalar part.  As with
//! vectors, every executable operation is pinned to a spec-level counterpart
//! over the view `Quatg`.

use vstd::prelude::*;
use crate::fx::{
    fx_add, fx_add_spec, fx_div, fx_div_spec, fx_mul, fx_mul_spec, fx_neg, fx_neg_spec, fx_sqrt,
    fx_sqrt_spec, fx_sub, fx_sub_spec, FX_ONE,
};
use crate::vec3::{lemma_fx_square_nonneg, Vec3, Vec3g};

verus! {

/// Mathematical image of a quaternion.
pub ghost struct Quatg {
    pub x: int,
    pub y: int,
    pub z: int,
    pub w: int,
}

/// A fixed-point quaternion; each component denotes `raw / FX_SCALE`.
#[derive(Clone, Copy, PartialEq, Eq, Structural, Debug)]
pub struct Quat {
    pub x: i64,
    pub y: i64,
    pub z: i64,
    pub w: i64,
}

impl View for Quat {
    type V = Quatg;

    open spec fn view(&self) -> Quatg {
        Quatg { x: self.x as int, y: self.y as int, z: self.z as int, w: self.w as int }
    }
}

/// Hamilton product, each component summed left to right.
pub open spec fn q_mul(a: Quatg, b: Quatg) -> Quatg {
    Quatg {
        x: fx_sub_spec(
            fx_add_spec(
                fx_add_spec(fx_mul_spec(a.w, b.x), fx_mul_spec(a.x, b.w)),
                fx_mul_spec(a.y, b.z),
            ),
            fx_mul_spec(a.z, b.y),
        ),
        y: fx_add_spec(
            fx_add_spec(
                fx_sub_spec(fx_mul_spec(a.w, b.y), fx_mul_spec(a.x, b.z)),
                fx_mul_spec(a.y, b.w),
            ),
            fx_mul_spec(a.z, b.x),
        ),
        z: fx_add_spec(
            fx_sub_spec(
                fx_add_spec(fx_mul_spec(a.w, b.z), fx_mul_spec(a.x, b.y)),
                fx_mul_spec(a.y, b.x),
            ),
            fx_mul_spec(a.z, b.w),
        ),
        w: fx_sub_spec(
            fx_sub_spec(
                fx_sub_spec(fx_mul_spec(a.w, b.w), fx_mul_spec(a.x, b.x)),
                fx_mul_spec(a.y, b.y),
            ),
            fx_mul_spec(a.z, b.z),
        ),
    }
}

/// Conjugate: the rotation in the opposite sense; for a unit quaternion
/// this is its inverse.
pub open spec fn q_conjugate(a: Quatg) -> Quatg {
    Quatg { x: fx_neg_spec(a.x), y: fx_neg_spec(a.y), z: fx_neg_spec(a.z), w: a.w }
}

/// Squared norm over all four components, summed left to right.
pub open spec fn q_norm2(a: Quatg) -> int {
    fx_add_spec(
        fx_add_spec(
            fx_add_spec(fx_mul_spec(a.x, a.x), fx_mul_spec(a.y, a.y)),
            fx_mul_spec(a.z, a.z),
        ),
        fx_mul_spec(a.w, a.w),
    )
}

/// Norm.
pub open spec fn q_len(a: Quatg) -> int {
    fx_sqrt_spec(q_norm2(a))
}

/// Normalisation: each component divided by the norm; a quaternion of norm
/// zero is returned unchanged (the degenerate case is guarded, not divided).
pub open spec fn q_normalize_spec(a: Quatg) -> Quatg {
    let l = q_len(a);
    if l == 0 {
        a
    } else {
        Quatg {
            x: fx_div_spec(a.x, l),
            y: fx_div_spec(a.y, l),
            z: fx_div_spec(a.z, l),
            w: fx_div_spec(a.w, l),
        }
    }
}

/// A vector as a pure quaternion (zero scalar part).
pub open spec fn q_from_vec(v: Vec3g) -> Quatg {
    Quatg { x: v.x, y: v.y, z: v.z, w: 0 }
}

/// Rotation of a vector by the sandwich product `q * (v, 0) * conj(q)`.
pub open spec fn q_rotate(q: Quatg, v: Vec3g) -> Vec3g {
    let t = q_mul(q_mul(q, q_from_vec(v)), q_conjugate(q));
    Vec3g { x: t.x, y: t.y, z: t.z }
}

/// A quaternion's squared norm is a valid non-negative scalar.
pub proof fn lemma_q_norm2_nonneg(a: Quatg)
    ensures
        0 <= q_norm2(a) <= i64::MAX as int,
{
    lemma_fx_square_nonneg(a.x);
    lemma_fx_square_nonneg(a.y);
    lemma_fx_square_nonneg(a.z);
    lemma_fx_square_nonneg(a.w);
}

impl Quat {
    /// Build a quaternion from raw fixed-point components.
    pub fn from_xyzw(x: i64, y: i64, z: i64, w: i64) -> (r: Quat)
        ensures
            r@ == (Quatg { x: x as int, y: y as int, z: z as int, w: w as int }),
    {
        Quat { x, y, z, w }
    }

    /// The identity rotation.
    pub fn identity() -> (r: Quat)
        ensures
            r@ == (Quatg { x: 0, y: 0, z: 0, w: FX_ONE as int }),
    {
        Quat { x: 0, y: 0, z: 0, w: FX_ONE }
    }

    /// Hamilton product.
    pub fn mul(self, o: Quat) -> (r: Quat)
        ensures
            r@ == q_mul(self@, o@),
    {
        Quat {
            x: fx_sub(
                fx_add(fx_add(fx_mul(self.w, o.x), fx_mul(self.x, o.w)), fx_mul(self.y, o.z)),
                fx_mul(self.z, o.y),
            ),
            y: fx_add(
                fx_add(fx_sub(fx_mul(self.w, o.y), fx_mul(self.x, o.z)), fx_mul(self.y, o.w)),
                fx_mul(self.z, o.x),
            ),
            z: fx_add(
                fx_sub(fx_add(fx_mul(self.w, o.z), fx_mul(self.x, o.y)), fx_mul(self.y, o.x)),
                fx_mul(self.z, o.w),
            ),
            w: fx_sub(
                fx_sub(fx_sub(fx_mul(self.w, o.w), fx_mul(self.x, o.x)), fx_mul(self.y, o.y)),
                fx_mul(self.z, o.z),
            ),
        }
    }

    /// Conjugate.
    pub fn conjugate(self) -> (r: Quat)
        ensures
            r@ == q_conjugate(self@),
    {
        Quat { x: fx_neg(self.x), y: fx_neg(self.y), z: fx_neg(self.z), w: self.w }
    }

    /// Squared norm.
    pub fn norm_squared(self) -> (r: i64)
        ensures
            r as int == q_norm2(self@),
            r >= 0,
    {
        proof {
            lemma_q_norm2_nonneg(self@);
        }
        fx_add(
            fx_add(fx_add(fx_mul(self.x, self.x), fx_mul(self.y, self.y)), fx_mul(self.z, self.z)),
            fx_mul(self.w, self.w),
        )
    }

    /// Norm.
    pub fn length(self) -> (r: i64)
        ensures
            r as int == q_len(self@),
            r >= 0,
    {
        let n2 = self.norm_squared();
        fx_sqrt(n2)
    }

    /// Renormalise toward unit norm, guarding the zero-norm case.
    pub fn normalize(self) -> (r: Quat)
        ensures
            r@ == q_normalize_spec(self@),
    {
        let l = self.length();
        if l == 0 {
            self
        } else {
            Quat {
                x: fx_div(self.x, l),
                y: fx_div(self.y, l),
                z: fx_div(self.z, l),
                w: fx_div(self.w, l),
            }
        }
    }

    /// Rotate a vector by this quaternion.
    pub fn rotate(self, v: Vec3) -> (r: Vec3)
        ensures
            r@ == q_rotate(self@, v@),
    {
        let p = Quat { x: v.x, y: v.y, z: v.z, w: 0 };
        let t = self.mul(p).mul(self.conjugate());
        Vec3 { x: t.x, y: t.y, z: t.z }
    }
}

} // verus!
