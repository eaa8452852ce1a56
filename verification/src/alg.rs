//! Fixed-point linear algebra: three-component vectors, quaternions and
//! the rotation matrices built from them.  Every executable routine has
//! a closed-form contract over `int`, so callers reason about exact
//! values rather than approximations.

use vstd::prelude::*;
use vstd::arithmetic::div_mod::{lemma_div_is_ordered, lemma_div_multiples_vanish};
use crate::fx::{FX_ONE, fx_mul, fx_mul_s, mul_div_floor, fx_product_cap};

verus! {

/// Largest magnitude a world-space coordinate may take: 400 world units.
pub const POS_CAP: i64 = 400_000_000;

/// Largest angle magnitude accepted by the rotation constructors.
pub const TURN_CAP: i64 = 1_000_000_000_000;

/// A point or direction in world space, in micro-units per axis.
#[derive(Clone, Copy, Debug, PartialEq, Eq, Structural)]
pub struct V3 {
    pub x: i64,
    pub y: i64,
    pub z: i64,
}

/// All three components within `cap` in magnitude.
pub open spec fn v3_within(v: V3, cap: int) -> bool {
    &&& -cap <= v.x <= cap
    &&& -cap <= v.y <= cap
    &&& -cap <= v.z <= cap
}

/// Squared length of a vector, in squared micro-units.
pub open spec fn dot_self_s(v: V3) -> int {
    v.x * v.x + v.y * v.y + v.z * v.z
}

/// The floor square root: the unique non-negative `r` with
/// `r * r <= n < (r + 1) * (r + 1)`.
pub open spec fn is_sqrt_floor(n: int, r: int) -> bool {
    r >= 0 && r * r <= n && n < (r + 1) * (r + 1)
}

/// Floor square root of a non-negative value.
pub open spec fn sqrt_s(n: int) -> int {
    choose|r: int| is_sqrt_floor(n, r)
}

/// The floor square root is unique, so any witness equals `sqrt_s`.
pub proof fn lemma_sqrt_s(n: int, m: int)
    requires
        is_sqrt_floor(n, m),
    ensures
        sqrt_s(n) == m,
{
    assert(is_sqrt_floor(n, sqrt_s(n)));
    let r = sqrt_s(n);
    assert(r == m) by (nonlinear_arith)
        requires
            r >= 0 && r * r <= n && n < (r + 1) * (r + 1),
            m >= 0 && m * m <= n && n < (m + 1) * (m + 1),
    ;
}

/// Fixed-point length of a vector: `sqrt_s` of the squared length.
pub open spec fn mag_s(v: V3) -> int {
    sqrt_s(dot_self_s(v))
}

/// One component of the normalized vector: scaled so a length-`FX_ONE`
/// result means one world unit; zero vectors normalize to zero.
pub open spec fn norm_comp_s(c: int, m: int) -> int {
    if m == 0 {
        0
    } else {
        (c * FX_ONE) / m
    }
}

/// Componentwise difference.
pub fn v3_sub(a: V3, b: V3) -> (r: V3)
    requires
        v3_within(a, 2 * POS_CAP),
        v3_within(b, 2 * POS_CAP),
    ensures
        r.x == a.x - b.x,
        r.y == a.y - b.y,
        r.z == a.z - b.z,
{
    V3 { x: a.x - b.x, y: a.y - b.y, z: a.z - b.z }
}

/// Length of a vector whose components stay within `POS_CAP`.
pub fn v3_mag(v: V3) -> (m: i64)
    requires
        v3_within(v, POS_CAP as int),
    ensures
        m == mag_s(v),
        is_sqrt_floor(dot_self_s(v), m as int),
        0 <= m <= 700_000_000,
{
    proof {
        assert(0 <= v.x * v.x <= 160_000_000_000_000_000
            && 0 <= v.y * v.y <= 160_000_000_000_000_000
            && 0 <= v.z * v.z <= 160_000_000_000_000_000) by (nonlinear_arith)
            requires v3_within(v, POS_CAP as int);
    }
    let d: i64 = v.x * v.x + v.y * v.y + v.z * v.z;
    let m64: u64 = crate::fx::isqrt(d as u64);
    proof {
        assert(is_sqrt_floor(d as int, m64 as int));
        lemma_sqrt_s(d as int, m64 as int);
        assert((m64 as int) * (m64 as int) <= 480_000_000_000_000_000);
        assert(m64 <= 700_000_000) by (nonlinear_arith)
            requires (m64 as int) * (m64 as int) <= 480_000_000_000_000_000;
    }
    m64 as i64
}

/// Normalize a vector to fixed-point unit length (zero stays zero).
/// Every component of the result stays within `FX_ONE`.
pub fn v3_normalize(v: V3) -> (r: V3)
    requires
        v3_within(v, POS_CAP as int),
    ensures
        r.x == norm_comp_s(v.x as int, mag_s(v)),
        r.y == norm_comp_s(v.y as int, mag_s(v)),
        r.z == norm_comp_s(v.z as int, mag_s(v)),
        v3_within(r, FX_ONE as int),
{
    let m = v3_mag(v);
    if m == 0 {
        V3 { x: 0, y: 0, z: 0 }
    } else {
        proof {
            assert(0 <= v.x * v.x <= 160_000_000_000_000_000
                && 0 <= v.y * v.y <= 160_000_000_000_000_000
                && 0 <= v.z * v.z <= 160_000_000_000_000_000) by (nonlinear_arith)
                requires v3_within(v, POS_CAP as int);
            lemma_norm_comp_in_unit(v.x as int, dot_self_s(v), m as int);
            lemma_norm_comp_in_unit(v.y as int, dot_self_s(v), m as int);
            lemma_norm_comp_in_unit(v.z as int, dot_self_s(v), m as int);
        }
        V3 {
            x: mul_div_floor(v.x, FX_ONE, m),
            y: mul_div_floor(v.y, FX_ONE, m),
            z: mul_div_floor(v.z, FX_ONE, m),
        }
    }
}

/// A component of a vector never exceeds the vector's length, so the
/// normalized component stays within one fixed-point unit.
proof fn lemma_norm_comp_in_unit(c: int, d: int, m: int)
    requires
        m >= 1,
        is_sqrt_floor(d, m),
        c * c <= d,
        d <= 480_000_000_000_000_000,
    ensures
        -FX_ONE <= (c * FX_ONE) / m <= FX_ONE,
        -fx_product_cap() <= c * FX_ONE <= fx_product_cap(),
{
    let s = FX_ONE as int;
    assert(-m <= c <= m) by (nonlinear_arith)
        requires
            m >= 1,
            c * c <= d,
            d < (m + 1) * (m + 1),
    ;
    assert(-(m * s) <= c * s <= m * s) by (nonlinear_arith)
        requires -m <= c <= m && s >= 1;
    lemma_div_is_ordered(c * s, m * s, m);
    lemma_div_is_ordered(-(m * s), c * s, m);
    lemma_div_multiples_vanish(s, m);
    lemma_div_multiples_vanish(-s, m);
    assert((-(m * s)) == (-s) * m) by (nonlinear_arith);
    assert(m * s == s * m) by (nonlinear_arith);
    assert(m <= 1_000_000_000) by (nonlinear_arith)
        requires
            m >= 1,
            m * m <= d,
            d <= 480_000_000_000_000_000,
    ;
    assert(-fx_product_cap() <= c * s <= fx_product_cap()) by (nonlinear_arith)
        requires -m <= c <= m && m <= 1_000_000_000 && s == 1_000_000;
}

/// One component of the cross product, as fixed-point products.
pub open spec fn cross_comp_s(a1: int, b2: int, a2: int, b1: int) -> int {
    fx_mul_s(a1, b2) - fx_mul_s(a2, b1)
}

/// Cross product of two roughly unit-length vectors.
pub fn v3_cross(a: V3, b: V3) -> (r: V3)
    requires
        v3_within(a, 2 * FX_ONE as int),
        v3_within(b, 2 * FX_ONE as int),
    ensures
        r.x == cross_comp_s(a.y as int, b.z as int, a.z as int, b.y as int),
        r.y == cross_comp_s(a.z as int, b.x as int, a.x as int, b.z as int),
        r.z == cross_comp_s(a.x as int, b.y as int, a.y as int, b.x as int),
        v3_within(r, 9_000_000),
{
    proof {
        let u: int = 2 * FX_ONE as int;
        assert(u * u == 4_000_000_000_000 && (u * u) / (FX_ONE as int) == 4 * FX_ONE)
            by (nonlinear_arith)
            requires u == 2_000_000;
        crate::fx::lemma_fx_mul_fits(a.y as int, b.z as int, u, u);
        crate::fx::lemma_fx_mul_fits(a.z as int, b.y as int, u, u);
        crate::fx::lemma_fx_mul_fits(a.z as int, b.x as int, u, u);
        crate::fx::lemma_fx_mul_fits(a.x as int, b.z as int, u, u);
        crate::fx::lemma_fx_mul_fits(a.x as int, b.y as int, u, u);
        crate::fx::lemma_fx_mul_fits(a.y as int, b.x as int, u, u);
    }
    V3 {
        x: fx_mul(a.y, b.z) - fx_mul(a.z, b.y),
        y: fx_mul(a.z, b.x) - fx_mul(a.x, b.z),
        z: fx_mul(a.x, b.y) - fx_mul(a.y, b.x),
    }
}

/// The rotation of `v` about the vertical axis by `angle` micro-radians.
pub open spec fn rot_y_x_s(v: V3, angle: int) -> int {
    fx_mul_s(v.x as int, crate::trig::cos_at(angle)) + fx_mul_s(v.z as int, crate::trig::sin_at(angle))
}

/// The vertical-axis rotation leaves the `y` component fixed.
pub open spec fn rot_y_z_s(v: V3, angle: int) -> int {
    fx_mul_s(v.z as int, crate::trig::cos_at(angle)) - fx_mul_s(v.x as int, crate::trig::sin_at(angle))
}

/// Rotate `v` about the world's vertical axis by `angle` micro-radians.
pub fn v3_rotate_y(v: V3, angle: i64) -> (r: V3)
    requires
        v3_within(v, POS_CAP as int),
        angle <= i64::MAX - crate::trig::QUARTER_TURN,
    ensures
        r.x == rot_y_x_s(v, angle as int),
        r.y == v.y,
        r.z == rot_y_z_s(v, angle as int),
        v3_within(r, 2 * POS_CAP + 2),
{
    let c = crate::trig::cos_fx(angle);
    let s = crate::trig::sin_fx(angle);
    proof {
        let pc: int = POS_CAP as int;
        let s1: int = FX_ONE as int;
        assert(pc * s1 == 400_000_000_000_000 && (pc * s1) / s1 == pc)
            by (nonlinear_arith)
            requires pc == 400_000_000 && s1 == 1_000_000;
        crate::fx::lemma_fx_mul_fits(v.x as int, c as int, pc, s1);
        crate::fx::lemma_fx_mul_fits(v.z as int, s as int, pc, s1);
        crate::fx::lemma_fx_mul_fits(v.z as int, c as int, pc, s1);
        crate::fx::lemma_fx_mul_fits(v.x as int, s as int, pc, s1);
    }
    V3 {
        x: fx_mul(v.x, c) + fx_mul(v.z, s),
        y: v.y,
        z: fx_mul(v.z, c) - fx_mul(v.x, s),
    }
}

/// A four-component value, as carried in per-object uniform blocks.
#[derive(Clone, Copy, Debug, PartialEq, Eq, Structural)]
pub struct V4 {
    pub x: i64,
    pub y: i64,
    pub z: i64,
    pub w: i64,
}

/// A rotation, as quaternion components scaled by `FX_ONE`.
#[derive(Clone, Copy, Debug, PartialEq, Eq, Structural)]
pub struct Quat {
    pub s: i64,
    pub x: i64,
    pub y: i64,
    pub z: i64,
}

/// All four components within `cap` in magnitude.
pub open spec fn quat_within(q: Quat, cap: int) -> bool {
    &&& -cap <= q.s <= cap
    &&& -cap <= q.x <= cap
    &&& -cap <= q.y <= cap
    &&& -cap <= q.z <= cap
}

/// The identity rotation.
pub fn quat_identity() -> (q: Quat)
    ensures
        q == (Quat { s: FX_ONE, x: 0, y: 0, z: 0 }),
{
    Quat { s: FX_ONE, x: 0, y: 0, z: 0 }
}

/// Scalar part of the rotation by `angle` about `axis`.
pub open spec fn axis_angle_s_s(angle: int) -> int {
    crate::trig::cos_at(angle / 2)
}

/// One vector component of the rotation by `angle` about `axis`.
pub open spec fn axis_angle_comp_s(axis_c: int, angle: int) -> int {
    fx_mul_s(axis_c, crate::trig::sin_at(angle / 2))
}

/// The quaternion turning by `angle` micro-radians about the unit
/// vector `axis`.
pub fn quat_from_axis_angle(axis: V3, angle: i64) -> (q: Quat)
    requires
        v3_within(axis, FX_ONE as int),
        -TURN_CAP <= angle <= TURN_CAP,
    ensures
        q.s == axis_angle_s_s(angle as int),
        q.x == axis_angle_comp_s(axis.x as int, angle as int),
        q.y == axis_angle_comp_s(axis.y as int, angle as int),
        q.z == axis_angle_comp_s(axis.z as int, angle as int),
        quat_within(q, FX_ONE + 1),
{
    let half: i64 = mul_div_floor(angle, 1, 2);
    let c = crate::trig::cos_fx(half);
    let sn = crate::trig::sin_fx(half);
    proof {
        let s1: int = FX_ONE as int;
        assert(s1 * s1 == 1_000_000_000_000 && (s1 * s1) / s1 == s1) by (nonlinear_arith)
            requires s1 == 1_000_000;
        crate::fx::lemma_fx_mul_fits(axis.x as int, sn as int, s1, s1);
        crate::fx::lemma_fx_mul_fits(axis.y as int, sn as int, s1, s1);
        crate::fx::lemma_fx_mul_fits(axis.z as int, sn as int, s1, s1);
    }
    Quat { s: c, x: fx_mul(axis.x, sn), y: fx_mul(axis.y, sn), z: fx_mul(axis.z, sn) }
}

/// Scalar part of the Hamilton product.
pub open spec fn qmul_s_s(a: Quat, b: Quat) -> int {
    fx_mul_s(a.s as int, b.s as int) - fx_mul_s(a.x as int, b.x as int)
        - fx_mul_s(a.y as int, b.y as int) - fx_mul_s(a.z as int, b.z as int)
}

/// First vector part of the Hamilton product.
pub open spec fn qmul_x_s(a: Quat, b: Quat) -> int {
    fx_mul_s(a.s as int, b.x as int) + fx_mul_s(a.x as int, b.s as int)
        + fx_mul_s(a.y as int, b.z as int) - fx_mul_s(a.z as int, b.y as int)
}

/// Second vector part of the Hamilton product.
pub open spec fn qmul_y_s(a: Quat, b: Quat) -> int {
    fx_mul_s(a.s as int, b.y as int) - fx_mul_s(a.x as int, b.z as int)
        + fx_mul_s(a.y as int, b.s as int) + fx_mul_s(a.z as int, b.x as int)
}

/// Third vector part of the Hamilton product.
pub open spec fn qmul_z_s(a: Quat, b: Quat) -> int {
    fx_mul_s(a.s as int, b.z as int) + fx_mul_s(a.x as int, b.y as int)
        - fx_mul_s(a.y as int, b.x as int) + fx_mul_s(a.z as int, b.s as int)
}

/// Hamilton product of two rotations.
pub fn quat_mul(a: Quat, b: Quat) -> (r: Quat)
    requires
        quat_within(a, 20_000_000),
        quat_within(b, 2_000_000),
    ensures
        r.s == qmul_s_s(a, b),
        r.x == qmul_x_s(a, b),
        r.y == qmul_y_s(a, b),
        r.z == qmul_z_s(a, b),
        quat_within(r, 170_000_000),
        quat_within(a, 1_100_000) && quat_within(b, 1_100_000)
            ==> quat_within(r, 5_000_000),
{
    proof {
        if quat_within(a, 1_100_000) && quat_within(b, 1_100_000) {
            let ua: int = 1_100_000;
            assert(ua * ua == 1_210_000_000_000 && (ua * ua) / (FX_ONE as int) == 1_210_000)
                by (nonlinear_arith)
                requires ua == 1_100_000;
            crate::fx::lemma_fx_mul_fits(a.s as int, b.s as int, ua, ua);
            crate::fx::lemma_fx_mul_fits(a.s as int, b.x as int, ua, ua);
            crate::fx::lemma_fx_mul_fits(a.s as int, b.y as int, ua, ua);
            crate::fx::lemma_fx_mul_fits(a.s as int, b.z as int, ua, ua);
            crate::fx::lemma_fx_mul_fits(a.x as int, b.s as int, ua, ua);
            crate::fx::lemma_fx_mul_fits(a.x as int, b.x as int, ua, ua);
            crate::fx::lemma_fx_mul_fits(a.x as int, b.y as int, ua, ua);
            crate::fx::lemma_fx_mul_fits(a.x as int, b.z as int, ua, ua);
            crate::fx::lemma_fx_mul_fits(a.y as int, b.s as int, ua, ua);
            crate::fx::lemma_fx_mul_fits(a.y as int, b.x as int, ua, ua);
            crate::fx::lemma_fx_mul_fits(a.y as int, b.y as int, ua, ua);
            crate::fx::lemma_fx_mul_fits(a.y as int, b.z as int, ua, ua);
            crate::fx::lemma_fx_mul_fits(a.z as int, b.s as int, ua, ua);
            crate::fx::lemma_fx_mul_fits(a.z as int, b.x as int, ua, ua);
            crate::fx::lemma_fx_mul_fits(a.z as int, b.y as int, ua, ua);
            crate::fx::lemma_fx_mul_fits(a.z as int, b.z as int, ua, ua);
        }
        let aa: int = 20_000_000;
        let bb: int = 2_000_000;
        assert(aa * bb == 40_000_000_000_000 && (aa * bb) / (FX_ONE as int) == 40_000_000)
            by (nonlinear_arith)
            requires aa == 20_000_000 && bb == 2_000_000;
        crate::fx::lemma_fx_mul_fits(a.s as int, b.s as int, aa, bb);
        crate::fx::lemma_fx_mul_fits(a.s as int, b.x as int, aa, bb);
        crate::fx::lemma_fx_mul_fits(a.s as int, b.y as int, aa, bb);
        crate::fx::lemma_fx_mul_fits(a.s as int, b.z as int, aa, bb);
        crate::fx::lemma_fx_mul_fits(a.x as int, b.s as int, aa, bb);
        crate::fx::lemma_fx_mul_fits(a.x as int, b.x as int, aa, bb);
        crate::fx::lemma_fx_mul_fits(a.x as int, b.y as int, aa, bb);
        crate::fx::lemma_fx_mul_fits(a.x as int, b.z as int, aa, bb);
        crate::fx::lemma_fx_mul_fits(a.y as int, b.s as int, aa, bb);
        crate::fx::lemma_fx_mul_fits(a.y as int, b.x as int, aa, bb);
        crate::fx::lemma_fx_mul_fits(a.y as int, b.y as int, aa, bb);
        crate::fx::lemma_fx_mul_fits(a.y as int, b.z as int, aa, bb);
        crate::fx::lemma_fx_mul_fits(a.z as int, b.s as int, aa, bb);
        crate::fx::lemma_fx_mul_fits(a.z as int, b.x as int, aa, bb);
        crate::fx::lemma_fx_mul_fits(a.z as int, b.y as int, aa, bb);
        crate::fx::lemma_fx_mul_fits(a.z as int, b.z as int, aa, bb);
    }
    Quat {
        s: fx_mul(a.s, b.s) - fx_mul(a.x, b.x) - fx_mul(a.y, b.y) - fx_mul(a.z, b.z),
        x: fx_mul(a.s, b.x) + fx_mul(a.x, b.s) + fx_mul(a.y, b.z) - fx_mul(a.z, b.y),
        y: fx_mul(a.s, b.y) - fx_mul(a.x, b.z) + fx_mul(a.y, b.s) + fx_mul(a.z, b.x),
        z: fx_mul(a.s, b.z) + fx_mul(a.x, b.y) - fx_mul(a.y, b.x) + fx_mul(a.z, b.s),
    }
}

/// A three-by-three rotation matrix in fixed point, rows by columns.
#[derive(Clone, Copy, Debug, PartialEq, Eq, Structural)]
pub struct Mat3 {
    pub e00: i64,
    pub e01: i64,
    pub e02: i64,
    pub e10: i64,
    pub e11: i64,
    pub e12: i64,
    pub e20: i64,
    pub e21: i64,
    pub e22: i64,
}

/// All nine entries within `cap` in magnitude.
pub open spec fn mat3_within(m: Mat3, cap: int) -> bool {
    &&& -cap <= m.e00 <= cap && -cap <= m.e01 <= cap && -cap <= m.e02 <= cap
    &&& -cap <= m.e10 <= cap && -cap <= m.e11 <= cap && -cap <= m.e12 <= cap
    &&& -cap <= m.e20 <= cap && -cap <= m.e21 <= cap && -cap <= m.e22 <= cap
}

/// Entry `(i, j)` of the rotation matrix of a quaternion.
pub open spec fn rot_entry_s(q: Quat, i: int, j: int) -> int {
    let ss = q.s as int;
    let xx = q.x as int;
    let yy = q.y as int;
    let zz = q.z as int;
    if i == 0 && j == 0 {
        FX_ONE - 2 * fx_mul_s(yy, yy) - 2 * fx_mul_s(zz, zz)
    } else if i == 0 && j == 1 {
        2 * fx_mul_s(xx, yy) - 2 * fx_mul_s(zz, ss)
    } else if i == 0 && j == 2 {
        2 * fx_mul_s(xx, zz) + 2 * fx_mul_s(yy, ss)
    } else if i == 1 && j == 0 {
        2 * fx_mul_s(xx, yy) + 2 * fx_mul_s(zz, ss)
    } else if i == 1 && j == 1 {
        FX_ONE - 2 * fx_mul_s(xx, xx) - 2 * fx_mul_s(zz, zz)
    } else if i == 1 && j == 2 {
        2 * fx_mul_s(yy, zz) - 2 * fx_mul_s(xx, ss)
    } else if i == 2 && j == 0 {
        2 * fx_mul_s(xx, zz) - 2 * fx_mul_s(yy, ss)
    } else if i == 2 && j == 1 {
        2 * fx_mul_s(yy, zz) + 2 * fx_mul_s(xx, ss)
    } else {
        FX_ONE - 2 * fx_mul_s(xx, xx) - 2 * fx_mul_s(yy, yy)
    }
}

/// The rotation matrix of a quaternion whose components stay within
/// `170_000_000`.
pub fn quat_to_mat(q: Quat) -> (m: Mat3)
    requires
        quat_within(q, 170_000_000),
    ensures
        m.e00 == rot_entry_s(q, 0, 0),
        m.e01 == rot_entry_s(q, 0, 1),
        m.e02 == rot_entry_s(q, 0, 2),
        m.e10 == rot_entry_s(q, 1, 0),
        m.e11 == rot_entry_s(q, 1, 1),
        m.e12 == rot_entry_s(q, 1, 2),
        m.e20 == rot_entry_s(q, 2, 0),
        m.e21 == rot_entry_s(q, 2, 1),
        m.e22 == rot_entry_s(q, 2, 2),
        mat3_within(m, 120_000_000_000),
{
    proof {
        let qq: int = 170_000_000;
        assert(qq * qq == 28_900_000_000_000_000
            && (qq * qq) / (FX_ONE as int) == 28_900_000_000) by (nonlinear_arith)
            requires qq == 170_000_000;
        crate::fx::lemma_fx_mul_fits(q.x as int, q.x as int, qq, qq);
        crate::fx::lemma_fx_mul_fits(q.y as int, q.y as int, qq, qq);
        crate::fx::lemma_fx_mul_fits(q.z as int, q.z as int, qq, qq);
        crate::fx::lemma_fx_mul_fits(q.x as int, q.y as int, qq, qq);
        crate::fx::lemma_fx_mul_fits(q.x as int, q.z as int, qq, qq);
        crate::fx::lemma_fx_mul_fits(q.y as int, q.z as int, qq, qq);
        crate::fx::lemma_fx_mul_fits(q.x as int, q.s as int, qq, qq);
        crate::fx::lemma_fx_mul_fits(q.y as int, q.s as int, qq, qq);
        crate::fx::lemma_fx_mul_fits(q.z as int, q.s as int, qq, qq);
    }
    let xx = fx_mul(q.x, q.x);
    let yy = fx_mul(q.y, q.y);
    let zz = fx_mul(q.z, q.z);
    let xy = fx_mul(q.x, q.y);
    let xz = fx_mul(q.x, q.z);
    let yz = fx_mul(q.y, q.z);
    let xs = fx_mul(q.x, q.s);
    let ys = fx_mul(q.y, q.s);
    let zs = fx_mul(q.z, q.s);
    Mat3 {
        e00: FX_ONE - 2 * yy - 2 * zz,
        e01: 2 * xy - 2 * zs,
        e02: 2 * xz + 2 * ys,
        e10: 2 * xy + 2 * zs,
        e11: FX_ONE - 2 * xx - 2 * zz,
        e12: 2 * yz - 2 * xs,
        e20: 2 * xz - 2 * ys,
        e21: 2 * yz + 2 * xs,
        e22: FX_ONE - 2 * xx - 2 * yy,
    }
}

} // verus!
