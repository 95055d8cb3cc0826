//! Saturating fixed-point scalars.
//!
//! A scalar is an `i64` whose raw value denotes the real number
//! `raw / FX_SCALE`.  Sums, differences and products saturate at the `i64`
//! bounds; quotients truncate toward zero, as the corresponding integer
//! operations do.  Each executable operation is pinned to a spec-level
//! function (`fx_add_spec`, `fx_mul_spec`, ...) that states its value
//! exactly, so every contract built on top of these is an exact statement
//! about integers.

use vstd::prelude::*;

verus! {

/// Raw units per whole unit: scalars carry 32 fractional bits.
pub const FX_SCALE: i64 = 4294967296;

/// The scalar one.
pub const FX_ONE: i64 = 4294967296;

/// The scalar one half.
pub const FX_HALF: i64 = 2147483648;

/// The scalar two.
pub const FX_TWO: i64 = 8589934592;

/// The scalar four.
pub const FX_FOUR: i64 = 17179869184;

/// Clamp an unbounded integer into the `i64` range.
pub open spec fn sat64(x: int) -> int {
    if x > i64::MAX as int {
        i64::MAX as int
    } else if x < i64::MIN as int {
        i64::MIN as int
    } else {
        x
    }
}

/// Absolute value of an unbounded integer.
pub open spec fn absi(x: int) -> int {
    if x < 0 {
        -x
    } else {
        x
    }
}

/// Quotient truncated toward zero, as Rust's integer division computes it.
pub open spec fn tdiv(p: int, q: int) -> int
    recommends
        q != 0,
{
    let m = absi(p) / absi(q);
    if (p < 0) <==> (q < 0) {
        m
    } else {
        -m
    }
}

/// Value of a saturating fixed-point sum.
pub open spec fn fx_add_spec(a: int, b: int) -> int {
    sat64(a + b)
}

/// Value of a saturating fixed-point difference.
pub open spec fn fx_sub_spec(a: int, b: int) -> int {
    sat64(a - b)
}

/// Value of a saturating fixed-point negation.
pub open spec fn fx_neg_spec(a: int) -> int {
    sat64(-a)
}

/// Value of a saturating fixed-point product: the exact product carries
/// 64 fractional bits and is rescaled by a truncating division.
pub open spec fn fx_mul_spec(a: int, b: int) -> int {
    sat64(tdiv(a * b, FX_SCALE as int))
}

/// Value of a saturating fixed-point quotient.
pub open spec fn fx_div_spec(a: int, b: int) -> int
    recommends
        b != 0,
{
    sat64(tdiv(a * (FX_SCALE as int), b))
}

/// Largest `r` with `r * r <= n`.
pub open spec fn sqrt_floor(n: nat) -> nat
    decreases n,
{
    if n == 0 {
        0
    } else {
        let r = sqrt_floor((n - 1) as nat);
        if (r + 1) * (r + 1) <= n {
            r + 1
        } else {
            r
        }
    }
}

/// Value of the fixed-point square root: for a raw value `a` denoting
/// `a / FX_SCALE`, the root's raw value is `floor(sqrt(a * FX_SCALE))`.
pub open spec fn fx_sqrt_spec(a: int) -> int
    recommends
        a >= 0,
{
    sqrt_floor((a * (FX_SCALE as int)) as nat) as int
}

/// `sqrt_floor(n)` is indeed the floor of the square root.
pub proof fn lemma_sqrt_floor_bounds(n: nat)
    ensures
        sqrt_floor(n) * sqrt_floor(n) <= n,
        n < (sqrt_floor(n) + 1) * (sqrt_floor(n) + 1),
    decreases n,
{
    if n == 0 {
        assert(sqrt_floor(0) == 0);
        assert(n < (sqrt_floor(n) + 1) * (sqrt_floor(n) + 1)) by (nonlinear_arith)
            requires n == 0, sqrt_floor(n) == 0
        ;
    } else {
        lemma_sqrt_floor_bounds((n - 1) as nat);
        let r = sqrt_floor((n - 1) as nat);
        if (r + 1) * (r + 1) <= n {
            assert((r + 1) * (r + 1) < (r + 2) * (r + 2)) by (nonlinear_arith)
                requires r >= 0
            ;
            assert((sqrt_floor(n) + 1) * (sqrt_floor(n) + 1) == (r + 2) * (r + 2));
        }
    }
}

/// Any `r` within the floor-sqrt bounds is the floor of the square root.
pub proof fn lemma_sqrt_floor_unique(n: nat, r: nat)
    requires
        r * r <= n,
        n < (r + 1) * (r + 1),
    ensures
        r == sqrt_floor(n),
{
    lemma_sqrt_floor_bounds(n);
    let s = sqrt_floor(n);
    if r < s {
        assert((r + 1) * (r + 1) <= s * s) by (nonlinear_arith)
            requires r + 1 <= s
        ;
    } else if s < r {
        assert((s + 1) * (s + 1) <= r * r) by (nonlinear_arith)
            requires s + 1 <= r
        ;
    }
}

/// A truncated quotient times its divisor lands within one divisor of the
/// dividend.
pub proof fn lemma_tdiv_close(p: int, q: int)
    requires
        q >= 1,
    ensures
        absi(tdiv(p, q) * q - p) < q,
{
    let m = absi(p) / q;
    vstd::arithmetic::div_mod::lemma_fundamental_div_mod(absi(p), q);
    vstd::arithmetic::div_mod::lemma_remainder_lower(absi(p), q);
    vstd::arithmetic::div_mod::lemma_remainder_upper(absi(p), q);
    vstd::arithmetic::div_mod::lemma_div_pos_is_pos(absi(p), q);
    let r = absi(p) - q * m;
    if p >= 0 {
        assert(tdiv(p, q) * q - p == -r);
    } else {
        assert(tdiv(p, q) == -m);
        assert((-m) * q == -(q * m)) by (nonlinear_arith);
        assert(tdiv(p, q) * q - p == -(q * m) + absi(p));
    }
}

/// A truncated quotient never exceeds the dividend scaled down: its
/// magnitude is at most the magnitude of the exact quotient.
pub proof fn lemma_tdiv_bound(p: int, q: int, bound: int)
    requires
        q >= 1,
        absi(p) <= bound * q,
        bound >= 0,
    ensures
        absi(tdiv(p, q)) <= bound,
{
    vstd::arithmetic::div_mod::lemma_div_is_ordered(absi(p), bound * q, q);
    vstd::arithmetic::div_mod::lemma_div_by_multiple(bound, q);
}

/// Saturating fixed-point sum.
pub fn fx_add(a: i64, b: i64) -> (r: i64)
    ensures
        r as int == fx_add_spec(a as int, b as int),
{
    let s: i128 = a as i128 + b as i128;
    if s > i64::MAX as i128 {
        i64::MAX
    } else if s < i64::MIN as i128 {
        i64::MIN
    } else {
        s as i64
    }
}

/// Saturating fixed-point difference.
pub fn fx_sub(a: i64, b: i64) -> (r: i64)
    ensures
        r as int == fx_sub_spec(a as int, b as int),
{
    let s: i128 = a as i128 - b as i128;
    if s > i64::MAX as i128 {
        i64::MAX
    } else if s < i64::MIN as i128 {
        i64::MIN
    } else {
        s as i64
    }
}

/// Saturating fixed-point negation.
pub fn fx_neg(a: i64) -> (r: i64)
    ensures
        r as int == fx_neg_spec(a as int),
{
    if a == i64::MIN {
        i64::MAX
    } else {
        -a
    }
}

/// Saturating fixed-point product.
pub fn fx_mul(a: i64, b: i64) -> (r: i64)
    ensures
        r as int == fx_mul_spec(a as int, b as int),
{
    proof {
        assert((a as int) * (b as int) <= 0x4000_0000_0000_0000_0000_0000_0000_0000
            && (a as int) * (b as int) >= -0x4000_0000_0000_0000_0000_0000_0000_0000) by (nonlinear_arith)
            requires
                -0x8000_0000_0000_0000 <= a as int <= 0x7FFF_FFFF_FFFF_FFFF,
                -0x8000_0000_0000_0000 <= b as int <= 0x7FFF_FFFF_FFFF_FFFF,
        ;
    }
    let p: i128 = (a as i128) * (b as i128);
    let q: i128 = if p >= 0 {
        let m: u128 = (p as u128) / 4294967296u128;
        proof {
            vstd::arithmetic::div_mod::lemma_div_nonincreasing(p as int, 4294967296);
        }
        m as i128
    } else {
        let np: i128 = -p;
        let m: u128 = (np as u128) / 4294967296u128;
        proof {
            vstd::arithmetic::div_mod::lemma_div_nonincreasing(np as int, 4294967296);
            vstd::arithmetic::div_mod::lemma_div_pos_is_pos(np as int, 4294967296);
        }
        -(m as i128)
    };
    assert(q as int == tdiv((a as int) * (b as int), FX_SCALE as int));
    if q > i64::MAX as i128 {
        i64::MAX
    } else if q < i64::MIN as i128 {
        i64::MIN
    } else {
        q as i64
    }
}

/// Saturating fixed-point quotient, truncated toward zero.
pub fn fx_div(a: i64, b: i64) -> (r: i64)
    requires
        b != 0,
    ensures
        r as int == fx_div_spec(a as int, b as int),
{
    let neg: bool = (a < 0) != (b < 0);
    let ma: u128 = if a >= 0 {
        a as u128
    } else {
        (-(a as i128)) as u128
    };
    let mb: u128 = if b >= 0 {
        b as u128
    } else {
        (-(b as i128)) as u128
    };
    proof {
        assert(ma as int * 4294967296 <= 0x8000_0000_0000_0000_0000_0000) by (nonlinear_arith)
            requires ma as int <= 0x8000_0000_0000_0000
        ;
        if a < 0 {
            assert((a as int) * 4294967296 < 0 && (-(a as int)) * 4294967296 == -((a as int)
                * 4294967296)) by (nonlinear_arith)
                requires (a as int) < 0
            ;
        } else {
            assert((a as int) * 4294967296 >= 0) by (nonlinear_arith)
                requires (a as int) >= 0
            ;
        }
        assert(ma as int * 4294967296 == absi((a as int) * (FX_SCALE as int)));
    }
    let m: u128 = (ma * 4294967296u128) / mb;
    assert(m as int == absi((a as int) * (FX_SCALE as int)) / absi(b as int));
    if neg {
        if m >= 0x8000_0000_0000_0000u128 {
            i64::MIN
        } else {
            -(m as i64)
        }
    } else {
        if m > i64::MAX as u128 {
            i64::MAX
        } else {
            m as i64
        }
    }
}

/// Fixed-point square root of a non-negative scalar.
pub fn fx_sqrt(a: i64) -> (r: i64)
    requires
        a >= 0,
    ensures
        r as int == fx_sqrt_spec(a as int),
        r >= 0,
{
    proof {
        assert((a as int) * 4294967296 <= 0x8000_0000_0000_0000_0000_0000) by (nonlinear_arith)
            requires 0 <= a as int <= 0x8000_0000_0000_0000
        ;
    }
    let n: u128 = (a as u128) * 4294967296u128;
    let mut lo: u128 = 0;
    let mut hi: u128 = 0x1_0000_0000_0000u128;
    proof {
        assert(n < 0x1_0000_0000_0000 * 0x1_0000_0000_0000) by (nonlinear_arith)
            requires n as int <= 0x8000_0000_0000_0000_0000_0000
        ;
    }
    while lo + 1 < hi
        invariant
            lo * lo <= n,
            n < hi * hi,
            lo < hi,
            hi <= 0x1_0000_0000_0000u128,
        decreases hi - lo,
    {
        proof {
            vstd::arithmetic::div_mod::lemma_div_is_ordered(2, (hi - lo) as int, 2);
            vstd::arithmetic::div_mod::lemma_div_decreases((hi - lo) as int, 2);
        }
        let mid: u128 = lo + (hi - lo) / 2;
        proof {
            assert(mid * mid < 0x1_0000_0000_0000 * 0x1_0000_0000_0000) by (nonlinear_arith)
                requires mid < 0x1_0000_0000_0000
            ;
        }
        if mid * mid <= n {
            lo = mid;
        } else {
            hi = mid;
        }
    }
    proof {
        assert(hi * hi <= (lo + 1) * (lo + 1)) by (nonlinear_arith)
            requires hi <= lo + 1, hi >= 0, lo >= 0
        ;
        lemma_sqrt_floor_unique(n as nat, lo as nat);
    }
    lo as i64
}

/// Value of the saturating absolute value.
pub open spec fn fx_abs_spec(a: int) -> int {
    sat64(absi(a))
}

/// Absolute value, saturating at `i64::MAX` for `i64::MIN`.
pub fn fx_abs(a: i64) -> (r: i64)
    ensures
        r as int == fx_abs_spec(a as int),
{
    if a >= 0 {
        a
    } else if a == i64::MIN {
        i64::MAX
    } else {
        -a
    }
}

/// Clamp a scalar into `[lo, hi]`.
pub fn fx_clamp(a: i64, lo: i64, hi: i64) -> (r: i64)
    requires
        lo <= hi,
    ensures
        r == if a < lo { lo } else if a > hi { hi } else { a },
{
    if a < lo {
        lo
    } else if a > hi {
        hi
    } else {
        a
    }
}

/// The scalar denoting the integer `n`.
pub fn fx_from_int(n: i64) -> (r: i64)
    ensures
        r as int == sat64(n as int * FX_SCALE as int),
{
    let p: i128 = (n as i128) * 4294967296i128;
    if p > i64::MAX as i128 {
        i64::MAX
    } else if p < i64::MIN as i128 {
        i64::MIN
    } else {
        p as i64
    }
}

} // verus!
