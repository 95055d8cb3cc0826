//! Three-component fixed-point vectors.
//!
//! `Vec3` is the executable vector; its view `Vec3g` carries the raw
//! components as unbounded integers, and every operation is pinned to a
//! spec-level counterpart (`v3_add`, `v3_dot`, ...) built from the exact
//! scalar specs of `crate::fx`.

use vstd::prelude::*;
use crate::fx::{
    fx_add, fx_add_spec, fx_div, fx_div_spec, fx_mul, fx_mul_spec, fx_neg, fx_neg_spec, fx_sqrt,
    fx_sqrt_spec, fx_sub, fx_sub_spec, FX_SCALE,
};

verus! {

/// Mathematical image of a vector: one unbounded integer per component.
pub ghost struct Vec3g {
    pub x: int,
    pub y: int,
    pub z: int,
}

/// A fixed-point vector; each component denotes `raw / FX_SCALE`.
#[derive(Clone, Copy, PartialEq, Eq, Structural, Debug)]
pub struct Vec3 {
    pub x: i64,
    pub y: i64,
    pub z: i64,
}

impl View for Vec3 {
    type V = Vec3g;

    open spec fn view(&self) -> Vec3g {
        Vec3g { x: self.x as int, y: self.y as int, z: self.z as int }
    }
}

/// Componentwise saturating sum.
pub open spec fn v3_add(a: Vec3g, b: Vec3g) -> Vec3g {
    Vec3g { x: fx_add_spec(a.x, b.x), y: fx_add_spec(a.y, b.y), z: fx_add_spec(a.z, b.z) }
}

/// Componentwise saturating difference.
pub open spec fn v3_sub(a: Vec3g, b: Vec3g) -> Vec3g {
    Vec3g { x: fx_sub_spec(a.x, b.x), y: fx_sub_spec(a.y, b.y), z: fx_sub_spec(a.z, b.z) }
}

/// Componentwise saturating negation.
pub open spec fn v3_neg(a: Vec3g) -> Vec3g {
    Vec3g { x: fx_neg_spec(a.x), y: fx_neg_spec(a.y), z: fx_neg_spec(a.z) }
}

/// Vector scaled by a fixed-point scalar.
pub open spec fn v3_scale(a: Vec3g, s: int) -> Vec3g {
    Vec3g { x: fx_mul_spec(a.x, s), y: fx_mul_spec(a.y, s), z: fx_mul_spec(a.z, s) }
}

/// Componentwise quotient by a fixed-point scalar.
pub open spec fn v3_div_s(a: Vec3g, s: int) -> Vec3g
    recommends
        s != 0,
{
    Vec3g { x: fx_div_spec(a.x, s), y: fx_div_spec(a.y, s), z: fx_div_spec(a.z, s) }
}

/// Componentwise product: a diagonal matrix applied to a vector.
pub open spec fn v3_mul_elem(a: Vec3g, b: Vec3g) -> Vec3g {
    Vec3g { x: fx_mul_spec(a.x, b.x), y: fx_mul_spec(a.y, b.y), z: fx_mul_spec(a.z, b.z) }
}

/// Componentwise minimum.
pub open spec fn v3_min_comp(a: Vec3g, b: Vec3g) -> Vec3g {
    Vec3g {
        x: if b.x < a.x { b.x } else { a.x },
        y: if b.y < a.y { b.y } else { a.y },
        z: if b.z < a.z { b.z } else { a.z },
    }
}

/// Componentwise maximum.
pub open spec fn v3_max_comp(a: Vec3g, b: Vec3g) -> Vec3g {
    Vec3g {
        x: if b.x > a.x { b.x } else { a.x },
        y: if b.y > a.y { b.y } else { a.y },
        z: if b.z > a.z { b.z } else { a.z },
    }
}

/// Fixed-point dot product, summed left to right.
pub open spec fn v3_dot(a: Vec3g, b: Vec3g) -> int {
    fx_add_spec(
        fx_add_spec(fx_mul_spec(a.x, b.x), fx_mul_spec(a.y, b.y)),
        fx_mul_spec(a.z, b.z),
    )
}

/// Fixed-point cross product.
pub open spec fn v3_cross(a: Vec3g, b: Vec3g) -> Vec3g {
    Vec3g {
        x: fx_sub_spec(fx_mul_spec(a.y, b.z), fx_mul_spec(a.z, b.y)),
        y: fx_sub_spec(fx_mul_spec(a.z, b.x), fx_mul_spec(a.x, b.z)),
        z: fx_sub_spec(fx_mul_spec(a.x, b.y), fx_mul_spec(a.y, b.x)),
    }
}

/// Squared length.
pub open spec fn v3_len2(a: Vec3g) -> int {
    v3_dot(a, a)
}

/// Length: fixed-point square root of the squared length.
pub open spec fn v3_len(a: Vec3g) -> int {
    fx_sqrt_spec(v3_len2(a))
}

/// Direction of a vector: the vector divided by its length, or zero when the
/// length underflows to zero (the degenerate case is guarded, not divided).
pub open spec fn v3_normalize_or_zero(a: Vec3g) -> Vec3g {
    let l = v3_len(a);
    if l == 0 {
        Vec3g { x: 0, y: 0, z: 0 }
    } else {
        v3_div_s(a, l)
    }
}

/// A scalar's square is non-negative under the fixed-point product.
pub proof fn lemma_fx_square_nonneg(x: int)
    ensures
        0 <= fx_mul_spec(x, x) <= i64::MAX as int,
{
    assert(x * x >= 0) by (nonlinear_arith);
    vstd::arithmetic::div_mod::lemma_div_pos_is_pos(x * x, FX_SCALE as int);
}

/// A squared length is a valid non-negative scalar.
pub proof fn lemma_v3_len2_nonneg(a: Vec3g)
    ensures
        0 <= v3_len2(a) <= i64::MAX as int,
{
    lemma_fx_square_nonneg(a.x);
    lemma_fx_square_nonneg(a.y);
    lemma_fx_square_nonneg(a.z);
}

impl Vec3 {
    /// Build a vector from raw fixed-point components.
    pub fn new(x: i64, y: i64, z: i64) -> (r: Vec3)
        ensures
            r@ == (Vec3g { x: x as int, y: y as int, z: z as int }),
    {
        Vec3 { x, y, z }
    }

    /// The zero vector.
    pub fn zero() -> (r: Vec3)
        ensures
            r@ == (Vec3g { x: 0, y: 0, z: 0 }),
    {
        Vec3 { x: 0, y: 0, z: 0 }
    }

    /// All three components set to the same scalar.
    pub fn splat(s: i64) -> (r: Vec3)
        ensures
            r@ == (Vec3g { x: s as int, y: s as int, z: s as int }),
    {
        Vec3 { x: s, y: s, z: s }
    }

    /// Saturating vector sum.
    pub fn add(self, o: Vec3) -> (r: Vec3)
        ensures
            r@ == v3_add(self@, o@),
    {
        Vec3 { x: fx_add(self.x, o.x), y: fx_add(self.y, o.y), z: fx_add(self.z, o.z) }
    }

    /// Saturating vector difference.
    pub fn sub(self, o: Vec3) -> (r: Vec3)
        ensures
            r@ == v3_sub(self@, o@),
    {
        Vec3 { x: fx_sub(self.x, o.x), y: fx_sub(self.y, o.y), z: fx_sub(self.z, o.z) }
    }

    /// Saturating negation.
    pub fn neg(self) -> (r: Vec3)
        ensures
            r@ == v3_neg(self@),
    {
        Vec3 { x: fx_neg(self.x), y: fx_neg(self.y), z: fx_neg(self.z) }
    }

    /// Vector scaled by a fixed-point scalar.
    pub fn scale(self, s: i64) -> (r: Vec3)
        ensures
            r@ == v3_scale(self@, s as int),
    {
        Vec3 { x: fx_mul(self.x, s), y: fx_mul(self.y, s), z: fx_mul(self.z, s) }
    }

    /// Componentwise quotient by a non-zero scalar.
    pub fn div_s(self, s: i64) -> (r: Vec3)
        requires
            s != 0,
        ensures
            r@ == v3_div_s(self@, s as int),
    {
        Vec3 { x: fx_div(self.x, s), y: fx_div(self.y, s), z: fx_div(self.z, s) }
    }

    /// Componentwise product: applies a diagonal matrix held as a vector.
    pub fn mul_elem(self, o: Vec3) -> (r: Vec3)
        ensures
            r@ == v3_mul_elem(self@, o@),
    {
        Vec3 { x: fx_mul(self.x, o.x), y: fx_mul(self.y, o.y), z: fx_mul(self.z, o.z) }
    }

    /// Componentwise minimum.
    pub fn min_comp(self, o: Vec3) -> (r: Vec3)
        ensures
            r@ == v3_min_comp(self@, o@),
    {
        Vec3 {
            x: if o.x < self.x { o.x } else { self.x },
            y: if o.y < self.y { o.y } else { self.y },
            z: if o.z < self.z { o.z } else { self.z },
        }
    }

    /// Componentwise maximum.
    pub fn max_comp(self, o: Vec3) -> (r: Vec3)
        ensures
            r@ == v3_max_comp(self@, o@),
    {
        Vec3 {
            x: if o.x > self.x { o.x } else { self.x },
            y: if o.y > self.y { o.y } else { self.y },
            z: if o.z > self.z { o.z } else { self.z },
        }
    }

    /// Fixed-point dot product.
    pub fn dot(self, o: Vec3) -> (r: i64)
        ensures
            r as int == v3_dot(self@, o@),
    {
        fx_add(fx_add(fx_mul(self.x, o.x), fx_mul(self.y, o.y)), fx_mul(self.z, o.z))
    }

    /// Fixed-point cross product.
    pub fn cross(self, o: Vec3) -> (r: Vec3)
        ensures
            r@ == v3_cross(self@, o@),
    {
        Vec3 {
            x: fx_sub(fx_mul(self.y, o.z), fx_mul(self.z, o.y)),
            y: fx_sub(fx_mul(self.z, o.x), fx_mul(self.x, o.z)),
            z: fx_sub(fx_mul(self.x, o.y), fx_mul(self.y, o.x)),
        }
    }

    /// Squared length; always a valid non-negative scalar.
    pub fn length_squared(self) -> (r: i64)
        ensures
            r as int == v3_len2(self@),
            r >= 0,
    {
        proof {
            lemma_v3_len2_nonneg(self@);
        }
        self.dot(self)
    }

    /// Length.
    pub fn length(self) -> (r: i64)
        ensures
            r as int == v3_len(self@),
            r >= 0,
    {
        let d2 = self.length_squared();
        fx_sqrt(d2)
    }

    /// Unit direction, or zero for a vector whose length underflows to zero.
    pub fn normalize_or_zero(self) -> (r: Vec3)
        ensures
            r@ == v3_normalize_or_zero(self@),
    {
        let l = self.length();
        if l == 0 {
            Vec3::zero()
        } else {
            self.div_s(l)
        }
    }
}

} // verus!
