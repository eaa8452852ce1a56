//! Fixed-point scalars: one world unit is `FX_ONE` micro-units, held in
//! an `i64`.  Multiplication and division round toward negative
//! infinity, matching the mathematical (Euclidean) quotient, so every
//! executable operation has an exact closed form over `int`.

use vstd::prelude::*;

verus! {

/// Micro-units per world unit.
pub const FX_ONE: i64 = 1_000_000;

/// Largest product of two operands that the fixed-point routines accept.
/// Every stored scalar in this crate stays far below `10^12`, so pairwise
/// products stay below `10^24`, which leaves ample room in an `i128`.
pub open spec fn fx_product_cap() -> int {
    1_000_000_000_000_000_000_000_000
}

/// Mathematical value of a fixed-point product: `(a * b) / FX_ONE`,
/// rounded toward negative infinity.
pub open spec fn fx_mul_s(a: int, b: int) -> int {
    (a * b) / (FX_ONE as int)
}

/// Mathematical value of `(a * b) / d`, rounded toward negative infinity.
pub open spec fn mul_div_s(a: int, b: int, d: int) -> int {
    (a * b) / d
}

/// `(a * b) / d` with the mathematical rounding, for a positive divisor.
pub fn mul_div_floor(a: i64, b: i64, d: i64) -> (r: i64)
    requires
        d > 0,
        -fx_product_cap() <= a * b <= fx_product_cap(),
        i64::MIN <= (a * b) / (d as int) <= i64::MAX,
    ensures
        r == mul_div_s(a as int, b as int, d as int),
{
    let p: i128 = (a as i128) * (b as i128);
    let q: i128 = match p.checked_div_euclid(d as i128) {
        Some(q) => q,
        None => 0,
    };
    q as i64
}

/// Fixed-point product of two scalars.
pub fn fx_mul(a: i64, b: i64) -> (r: i64)
    requires
        -fx_product_cap() <= a * b <= fx_product_cap(),
    ensures
        r == fx_mul_s(a as int, b as int),
{
    proof {
        lemma_div_shrinks_magnitude(a * b, FX_ONE as int);
    }
    mul_div_floor(a, b, FX_ONE)
}

/// The floor quotient of `n` by a positive `d` is no larger in magnitude
/// than `n` itself once `d >= 1`, and bounded by `|n| / d` from above.
pub proof fn lemma_div_shrinks_magnitude(n: int, d: int)
    requires
        d >= 1,
    ensures
        n >= 0 ==> 0 <= n / d <= n,
        n < 0 ==> n <= n / d <= 0,
{
    if n >= 0 {
        assert(0 <= n / d <= n) by (nonlinear_arith)
            requires d >= 1 && n >= 0;
    } else {
        assert(n <= n / d <= 0) by (nonlinear_arith)
            requires d >= 1 && n < 0;
    }
}

/// Magnitude bound for a floor quotient: if `|a| <= aa` and `|b| <= bb`
/// then `|(a*b)/d|` is at most `(aa*bb)/d + 1`.
pub proof fn lemma_mul_div_bound(a: int, b: int, d: int, aa: int, bb: int)
    requires
        d >= 1,
        0 <= aa,
        0 <= bb,
        -aa <= a <= aa,
        -bb <= b <= bb,
    ensures
        -(aa * bb) / d - 1 <= (a * b) / d <= (aa * bb) / d,
{
    assert(-(aa * bb) <= a * b <= aa * bb) by (nonlinear_arith)
        requires 0 <= aa && 0 <= bb && -aa <= a <= aa && -bb <= b <= bb;
    assert((a * b) / d <= (aa * bb) / d) by (nonlinear_arith)
        requires d >= 1 && a * b <= aa * bb;
    assert(-(aa * bb) / d - 1 <= (a * b) / d) by (nonlinear_arith)
        requires d >= 1 && -(aa * bb) <= a * b;
}

/// Bounds on the operands give bounds on the fixed-point product, and
/// show that the product stays within the accepted cap.
pub proof fn lemma_fx_mul_fits(a: int, b: int, aa: int, bb: int)
    requires
        0 <= aa,
        0 <= bb,
        -aa <= a <= aa,
        -bb <= b <= bb,
        aa * bb <= fx_product_cap(),
    ensures
        -fx_product_cap() <= a * b <= fx_product_cap(),
        -(aa * bb) / (FX_ONE as int) - 1 <= fx_mul_s(a, b) <= (aa * bb) / (FX_ONE as int),
{
    assert(-(aa * bb) <= a * b <= aa * bb) by (nonlinear_arith)
        requires 0 <= aa && 0 <= bb && -aa <= a <= aa && -bb <= b <= bb;
    lemma_mul_div_bound(a, b, FX_ONE as int, aa, bb);
}

/// `x` clamped into `[lo, hi]`.
pub open spec fn clamp_s(x: int, lo: int, hi: int) -> int {
    if x < lo {
        lo
    } else if x > hi {
        hi
    } else {
        x
    }
}

/// Clamp a scalar into `[lo, hi]`.
pub fn clamp(x: i64, lo: i64, hi: i64) -> (r: i64)
    requires
        lo <= hi,
    ensures
        r == clamp_s(x as int, lo as int, hi as int),
        lo <= r <= hi,
{
    if x < lo {
        lo
    } else if x > hi {
        hi
    } else {
        x
    }
}

/// Integer square root: the unique `r` with `r * r <= n < (r+1) * (r+1)`.
pub fn isqrt(n: u64) -> (r: u64)
    ensures
        r * r <= n,
        n < (r + 1) * (r + 1),
{
    let mut lo: u64 = 0;
    let mut hi: u64 = 4_294_967_296;
    while hi - lo > 1
        invariant
            lo < hi <= 4_294_967_296,
            lo * lo <= n,
            n < hi * hi,
        decreases hi - lo,
    {
        let mid: u64 = lo + (hi - lo) / 2;
        proof {
            assert(mid * mid <= 0xffff_ffff_0000_0001) by (nonlinear_arith)
                requires mid <= 4_294_967_295;
        }
        if mid * mid <= n {
            lo = mid;
        } else {
            hi = mid;
        }
    }
    lo
}

} // verus!
