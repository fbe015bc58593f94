//! Q31.32 fixed-point scalars stored in `i64`.
//!
//! A value `v: i64` stands for the rational number `v / 2^32`. Every
//! operation saturates at `FX_MAX` / `FX_MIN`, so all operations are total:
//! the saturation bounds play the role that infinities play in
//! floating-point slab tests. Each executable operation is specified
//! exactly by the spec function of the same name with the `spec_` prefix.

use vstd::prelude::*;

verus! {

/// The fixed-point representation of 1.0 (2^32).
pub const FX_ONE: i64 = 0x1_0000_0000;

/// The fixed-point representation of 2.0.
pub const FX_TWO: i64 = 0x2_0000_0000;

/// The fixed-point representation of 4.0.
pub const FX_FOUR: i64 = 0x4_0000_0000;

/// Largest representable fixed-point value; stands in for +infinity.
pub const FX_MAX: i64 = 0x7fff_ffff_ffff_ffff;

/// Smallest representable fixed-point value; stands in for -infinity.
/// Symmetric to `FX_MAX` so that negation is always representable.
pub const FX_MIN: i64 = -0x7fff_ffff_ffff_ffff;

/// Clamp a mathematical integer into the representable fixed-point range.
pub open spec fn fx_clamp(q: int) -> i64 {
    if q > FX_MAX as int {
        FX_MAX
    } else if q < FX_MIN as int {
        FX_MIN
    } else {
        q as i64
    }
}

/// Absolute value of a mathematical integer.
pub open spec fn abs_int(p: int) -> int {
    if p >= 0 {
        p
    } else {
        -p
    }
}

/// Division truncating toward zero (the rounding of the hardware divide),
/// defined for a non-zero divisor.
pub open spec fn div_trunc(p: int, d: int) -> int {
    if (p >= 0) == (d >= 0) {
        abs_int(p) / abs_int(d)
    } else {
        -(abs_int(p) / abs_int(d))
    }
}

pub open spec fn spec_fx_add(a: i64, b: i64) -> i64 {
    fx_clamp(a + b)
}

pub open spec fn spec_fx_sub(a: i64, b: i64) -> i64 {
    fx_clamp(a - b)
}

pub open spec fn spec_fx_neg(a: i64) -> i64 {
    fx_clamp(-a)
}

pub open spec fn spec_fx_abs(a: i64) -> i64 {
    fx_clamp(abs_int(a as int))
}

pub open spec fn spec_fx_mul(a: i64, b: i64) -> i64 {
    fx_clamp(div_trunc(a * b, FX_ONE as int))
}

/// Division: `0` over `0` is `0`, anything else over `0` saturates with the
/// sign of the dividend, as an IEEE division would produce an infinity.
pub open spec fn spec_fx_div(a: i64, b: i64) -> i64 {
    if b == 0 {
        if a > 0 {
            FX_MAX
        } else if a < 0 {
            FX_MIN
        } else {
            0
        }
    } else {
        fx_clamp(div_trunc(a * (FX_ONE as int), b as int))
    }
}

pub open spec fn spec_fx_min(a: i64, b: i64) -> i64 {
    if a < b {
        a
    } else {
        b
    }
}

pub open spec fn spec_fx_max(a: i64, b: i64) -> i64 {
    if a > b {
        a
    } else {
        b
    }
}

/// `r` is the integer square root (rounded down) of `n`.
pub open spec fn is_isqrt(n: int, r: int) -> bool {
    0 <= r && r * r <= n && n < (r + 1) * (r + 1)
}

/// The integer square root, rounded down, of a non-negative integer.
pub open spec fn sqrt_floor(n: int) -> int {
    choose|r: int| is_isqrt(n, r)
}

/// Square root of a fixed-point value, rounded down; non-positive inputs
/// give 0.
pub open spec fn spec_fx_sqrt(a: i64) -> i64 {
    if a <= 0 {
        0
    } else {
        fx_clamp(sqrt_floor(a * (FX_ONE as int)))
    }
}

/// Integer power of a fixed-point base, saturating like `spec_fx_mul`.
pub open spec fn spec_fx_powi(b: i64, e: u32) -> i64
    decreases e,
{
    if e == 0 {
        FX_ONE
    } else {
        spec_fx_mul(b, spec_fx_powi(b, (e - 1) as u32))
    }
}

/// The product of two `i64` values fits in an `i128`.
proof fn lemma_i64_mul_fits(a: int, b: int)
    by (nonlinear_arith)
    requires
        -0x8000_0000_0000_0000 <= a <= 0x7fff_ffff_ffff_ffff,
        -0x8000_0000_0000_0000 <= b <= 0x7fff_ffff_ffff_ffff,
    ensures
        -0x4000_0000_0000_0000_0000_0000_0000_0000 <= a * b
            <= 0x4000_0000_0000_0000_0000_0000_0000_0000,
{
}

/// Saturating fixed-point addition.
pub fn fx_add(a: i64, b: i64) -> (r: i64)
    ensures
        r == spec_fx_add(a, b),
{
    let s: i128 = a as i128 + b as i128;
    if s > FX_MAX as i128 {
        FX_MAX
    } else if s < FX_MIN as i128 {
        FX_MIN
    } else {
        s as i64
    }
}

/// Saturating fixed-point subtraction.
pub fn fx_sub(a: i64, b: i64) -> (r: i64)
    ensures
        r == spec_fx_sub(a, b),
{
    let s: i128 = a as i128 - b as i128;
    if s > FX_MAX as i128 {
        FX_MAX
    } else if s < FX_MIN as i128 {
        FX_MIN
    } else {
        s as i64
    }
}

/// Saturating fixed-point negation.
pub fn fx_neg(a: i64) -> (r: i64)
    ensures
        r == spec_fx_neg(a),
{
    if a == i64::MIN {
        FX_MAX
    } else {
        -a
    }
}

/// Saturating fixed-point absolute value.
pub fn fx_abs(a: i64) -> (r: i64)
    ensures
        r == spec_fx_abs(a),
{
    if a < 0 {
        fx_neg(a)
    } else {
        a
    }
}

pub fn fx_min(a: i64, b: i64) -> (r: i64)
    ensures
        r == spec_fx_min(a, b),
{
    if a < b {
        a
    } else {
        b
    }
}

pub fn fx_max(a: i64, b: i64) -> (r: i64)
    ensures
        r == spec_fx_max(a, b),
{
    if a > b {
        a
    } else {
        b
    }
}

/// Magnitude of an `i128` whose value fits the stated bound, as a `u128`.
fn mag_i128(p: i128) -> (m: u128)
    requires
        p > -0x8000_0000_0000_0000_0000_0000_0000_0000,
    ensures
        m == abs_int(p as int),
{
    if p < 0 {
        (-(p as i128)) as u128
    } else {
        p as u128
    }
}

/// Saturating fixed-point multiplication, truncating toward zero.
pub fn fx_mul(a: i64, b: i64) -> (r: i64)
    ensures
        r == spec_fx_mul(a, b),
{
    proof {
        lemma_i64_mul_fits(a as int, b as int);
    }
    let p: i128 = (a as i128) * (b as i128);
    let m: u128 = mag_i128(p);
    let q: u128 = m / (FX_ONE as u128);
    if p >= 0 {
        if q > FX_MAX as u128 {
            FX_MAX
        } else {
            q as i64
        }
    } else {
        if q > FX_MAX as u128 {
            FX_MIN
        } else {
            -(q as i64)
        }
    }
}

/// Saturating fixed-point division, truncating toward zero; division by
/// zero saturates with the sign of the dividend.
pub fn fx_div(a: i64, b: i64) -> (r: i64)
    ensures
        r == spec_fx_div(a, b),
{
    if b == 0 {
        if a > 0 {
            FX_MAX
        } else if a < 0 {
            FX_MIN
        } else {
            0
        }
    } else {
        proof {
            lemma_i64_mul_fits(a as int, FX_ONE as int);
        }
        let p: i128 = (a as i128) * (FX_ONE as i128);
        let m: u128 = mag_i128(p);
        let mb: u128 = if b < 0 {
            (-(b as i128)) as u128
        } else {
            b as u128
        };
        let q: u128 = m / mb;
        let neg: bool = (a < 0) != (b < 0);
        proof {
            lemma_div_trunc_mag(p as int, b as int);
        }
        if !neg {
            if q > FX_MAX as u128 {
                FX_MAX
            } else {
                q as i64
            }
        } else {
            if q > FX_MAX as u128 {
                FX_MIN
            } else {
                -(q as i64)
            }
        }
    }
}

/// `div_trunc` agrees with magnitude division and an applied sign.
proof fn lemma_div_trunc_mag(p: int, d: int)
    requires
        d != 0,
    ensures
        (p >= 0) == (d >= 0) ==> div_trunc(p, d) == abs_int(p) / abs_int(d),
        (p >= 0) != (d >= 0) ==> div_trunc(p, d) == -(abs_int(p) / abs_int(d)),
{
}

/// Existence of the rounded-down integer square root.
pub proof fn lemma_sqrt_exists(n: nat)
    ensures
        exists|r: int| is_isqrt(n as int, r),
    decreases n,
{
    if n == 0 {
        assert(is_isqrt(0, 0));
    } else {
        lemma_sqrt_exists((n - 1) as nat);
        let r = choose|r: int| #[trigger] is_isqrt(n - 1, r);
        if (r + 1) * (r + 1) == n {
            assert((r + 2) * (r + 2) > n) by (nonlinear_arith)
                requires
                    r >= 0 && (r + 1) * (r + 1) == n,
            ;
            assert(is_isqrt(n as int, r + 1));
        } else {
            assert(is_isqrt(n as int, r));
        }
    }
}

/// Uniqueness of the rounded-down integer square root.
pub proof fn lemma_sqrt_unique(n: int, r1: int, r2: int)
    by (nonlinear_arith)
    requires
        is_isqrt(n, r1),
        is_isqrt(n, r2),
    ensures
        r1 == r2,
{
}

/// Integer square root of a `u128`, rounded down, by bisection.
fn isqrt_u128(n: u128) -> (r: u128)
    ensures
        is_isqrt(n as int, r as int),
{
    if n == 0 {
        return 0;
    }
    let mut lo: u128 = 0;
    let mut hi: u128 = 0x1_0000_0000_0000_0000;
    while hi - lo > 1
        invariant
            lo < hi,
            hi <= 0x1_0000_0000_0000_0000,
            lo * lo <= n as int,
            (n as int) < hi as int * hi as int,
        decreases hi - lo,
    {
        let mid: u128 = lo + (hi - lo) / 2;
        proof {
            assert(mid * mid < 0x1_0000_0000_0000_0000_0000_0000_0000_0000) by (nonlinear_arith)
                requires
                    mid < 0x1_0000_0000_0000_0000,
            ;
        }
        if mid * mid <= n {
            lo = mid;
        } else {
            hi = mid;
        }
    }
    proof {
        assert(hi == lo + 1);
    }
    lo
}

/// A root below 2^48 squared stays below 2^96.
proof fn lemma_sqrt_bound(n: int, r: int)
    by (nonlinear_arith)
    requires
        is_isqrt(n, r),
        n < 0x1_0000_0000_0000_0000_0000_0000,
    ensures
        r < 0x1_0000_0000_0000,
{
}

/// Fixed-point square root, rounded down; non-positive inputs give 0.
pub fn fx_sqrt(a: i64) -> (r: i64)
    ensures
        r == spec_fx_sqrt(a),
{
    if a <= 0 {
        return 0;
    }
    proof {
        assert(a as int * FX_ONE as int <= 0x8000_0000_0000_0000 * 0x1_0000_0000)
            by (nonlinear_arith)
            requires
                0 <= a <= 0x7fff_ffff_ffff_ffff && FX_ONE == 0x1_0000_0000,
        ;
    }
    let n: u128 = (a as u128) * (FX_ONE as u128);
    let s: u128 = isqrt_u128(n);
    proof {
        lemma_sqrt_exists(n as nat);
        lemma_sqrt_unique(n as int, s as int, sqrt_floor(n as int));
        lemma_sqrt_bound(n as int, s as int);
    }
    s as i64
}

/// Fixed-point power with a natural exponent, saturating per factor.
pub fn fx_powi(b: i64, e: u32) -> (r: i64)
    ensures
        r == spec_fx_powi(b, e),
{
    let mut acc: i64 = FX_ONE;
    let mut i: u32 = 0;
    while i < e
        invariant
            i <= e,
            acc == spec_fx_powi(b, i),
        decreases e - i,
    {
        acc = fx_mul(b, acc);
        i = i + 1;
    }
    acc
}

/// The integer nearest to a fixed-point value, halves rounding away from
/// zero.
pub open spec fn spec_fx_round_count(a: i64) -> int {
    if a >= 0 {
        (a + (FX_ONE as int) / 2) / (FX_ONE as int)
    } else {
        -(((-a) + (FX_ONE as int) / 2) / (FX_ONE as int))
    }
}

/// Round a fixed-point value to the nearest integer count, halves away
/// from zero.
pub fn fx_round_count(a: i64) -> (r: i64)
    ensures
        r == spec_fx_round_count(a),
{
    if a >= 0 {
        let q: u128 = ((a as u128) + (FX_ONE as u128) / 2) / (FX_ONE as u128);
        q as i64
    } else {
        let m: u128 = ((-(a as i128)) as u128 + (FX_ONE as u128) / 2) / (FX_ONE as u128);
        -(m as i64)
    }
}

/// Clamp a fixed-point value into [0, 1].
pub open spec fn spec_fx_clamp01(a: i64) -> i64 {
    if a < 0 {
        0
    } else if a > FX_ONE {
        FX_ONE
    } else {
        a
    }
}

/// Clamp a fixed-point value into [0, 1].
pub fn fx_clamp01(a: i64) -> (r: i64)
    ensures
        r == spec_fx_clamp01(a),
{
    if a < 0 {
        0
    } else if a > FX_ONE {
        FX_ONE
    } else {
        a
    }
}

/// A multiplication whose mathematical product is an exact multiple of
/// the scale is computed exactly.
pub proof fn lemma_fx_mul_exact(a: i64, b: i64, q: int)
    requires
        a * b == q * (FX_ONE as int),
        FX_MIN as int <= q <= FX_MAX as int,
    ensures
        spec_fx_mul(a, b) == q,
{
    let s = FX_ONE as int;
    let p = a * b;
    if q >= 0 {
        assert(p >= 0 && -p <= 0) by (nonlinear_arith)
            requires
                p == q * s && q >= 0 && s > 0,
        ;
        vstd::arithmetic::div_mod::lemma_div_multiples_vanish(q, s);
        assert(abs_int(p) / abs_int(s) == q);
    } else {
        assert(p < 0 && (-p) == (-q) * s) by (nonlinear_arith)
            requires
                p == q * s && q < 0 && s > 0,
        ;
        vstd::arithmetic::div_mod::lemma_div_multiples_vanish(-q, s);
        assert(abs_int(p) / abs_int(s) == -q);
    }
}

/// A division whose mathematical quotient is exact is computed exactly.
pub proof fn lemma_fx_div_exact(a: i64, b: i64, q: int)
    requires
        b != 0,
        a * (FX_ONE as int) == q * b,
        FX_MIN as int <= q <= FX_MAX as int,
    ensures
        spec_fx_div(a, b) == q,
{
    let p = a * (FX_ONE as int);
    if q == 0 {
        assert(p == 0) by (nonlinear_arith)
            requires
                p == q * b && q == 0,
        ;
        vstd::arithmetic::div_mod::lemma_div_multiples_vanish(0, abs_int(b as int));
    } else if q > 0 && b > 0 {
        assert(p > 0 && p == b * q) by (nonlinear_arith)
            requires
                p == q * b && q > 0 && b > 0,
        ;
        vstd::arithmetic::div_mod::lemma_div_multiples_vanish(q, b as int);
        assert(abs_int(p) / abs_int(b as int) == q);
    } else if q > 0 && b < 0 {
        assert(p < 0 && -p == (-(b as int)) * q) by (nonlinear_arith)
            requires
                p == q * b && q > 0 && b < 0,
        ;
        vstd::arithmetic::div_mod::lemma_div_multiples_vanish(q, -(b as int));
        assert(abs_int(p) / abs_int(b as int) == q);
    } else if q < 0 && b > 0 {
        assert(p < 0 && -p == (b as int) * (-q)) by (nonlinear_arith)
            requires
                p == q * b && q < 0 && b > 0,
        ;
        vstd::arithmetic::div_mod::lemma_div_multiples_vanish(-q, b as int);
        assert(abs_int(p) / abs_int(b as int) == -q);
    } else {
        assert(p > 0 && p == (-(b as int)) * (-q)) by (nonlinear_arith)
            requires
                p == q * b && q < 0 && b < 0,
        ;
        vstd::arithmetic::div_mod::lemma_div_multiples_vanish(-q, -(b as int));
        assert(abs_int(p) / abs_int(b as int) == -q);
    }
}

/// A square root of an exact square is computed exactly.
pub proof fn lemma_fx_sqrt_exact(a: i64, r: int)
    requires
        a > 0,
        a * (FX_ONE as int) == r * r,
        0 <= r <= FX_MAX as int,
    ensures
        spec_fx_sqrt(a) == r,
{
    let n = a * (FX_ONE as int);
    assert(is_isqrt(n, r)) by (nonlinear_arith)
        requires
            n == r * r && r >= 0,
    ;
    lemma_sqrt_unique(n, sqrt_floor(n), r);
}

/// The fixed-point value of a small integer.
pub open spec fn spec_fx_from_int(n: i64) -> i64 {
    fx_clamp(n * (FX_ONE as int))
}

/// Convert an integer count to its fixed-point value, saturating.
pub fn fx_from_int(n: i64) -> (r: i64)
    ensures
        r == spec_fx_from_int(n),
{
    proof {
        lemma_i64_mul_fits(n as int, FX_ONE as int);
    }
    let p: i128 = (n as i128) * (FX_ONE as i128);
    if p > FX_MAX as i128 {
        FX_MAX
    } else if p < FX_MIN as i128 {
        FX_MIN
    } else {
        p as i64
    }
}

} // verus!
