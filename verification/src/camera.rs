//! The camera: pose and projection state, the packed view-projection
//! matrix mirrored to the GPU, and the input-driven controller that
//! moves the eye.

use vstd::prelude::*;
use vstd::arithmetic::div_mod::{
    lemma_div_is_ordered, lemma_div_is_ordered_by_denominator, lemma_div_multiples_vanish,
    lemma_div_pos_is_pos, lemma_small_mod,
};
use crate::alg::{
    POS_CAP, V3, cross_comp_s, norm_comp_s, v3_cross, v3_normalize, v3_sub, v3_within,
};
use crate::fx::{FX_ONE, clamp_s, fx_mul, fx_mul_s, lemma_fx_mul_fits, mul_div_floor};
use crate::trig::{QUARTER_TURN, TURN, cos_at, sin_at, sin_half_s};

verus! {

/// Largest magnitude of a camera coordinate: 150 world units.
pub const CAM_CAP: i64 = 150_000_000;

/// View and projection state: where the camera sits, what it looks
/// at, and the frustum it projects through.
#[derive(Clone, Copy, Debug, PartialEq, Eq, Structural)]
pub struct Camera {
    pub eye: V3,
    pub target: V3,
    pub up: V3,
    /// Width over height, in fixed point.
    pub aspect: i64,
    /// Vertical field of view, in micro-radians.
    pub fovy: i64,
    pub znear: i64,
    pub zfar: i64,
}

/// The standing invariant of a camera.
pub open spec fn camera_wf(cam: Camera) -> bool {
    &&& v3_within(cam.eye, CAM_CAP as int)
    &&& v3_within(cam.target, CAM_CAP as int)
    &&& v3_within(cam.up, FX_ONE as int)
    &&& 200_000 <= cam.fovy <= 2_400_000
    &&& 1 <= cam.znear
    &&& cam.znear + FX_ONE <= cam.zfar
    &&& cam.zfar <= POS_CAP
    &&& 0 <= cam.aspect <= 4_300_000_000_000_000
}

impl Camera {
    /// A camera at `eye` looking at `target`, with the vertical up,
    /// a 45-degree field of view, and the frustum from a tenth of a
    /// unit to one hundred units.
    pub fn new(eye: V3, target: V3, width: u32, height: u32) -> (cam: Camera)
        requires
            v3_within(eye, CAM_CAP as int),
            v3_within(target, CAM_CAP as int),
            width >= 1,
            height >= 1,
        ensures
            camera_wf(cam),
            cam.eye == eye,
            cam.target == target,
            cam.up == (V3 { x: 0i64, y: 1_000_000i64, z: 0i64 }),
            cam.aspect == (width as int * FX_ONE) / (height as int),
            cam.fovy == 785_398,
            cam.znear == 100_000,
            cam.zfar == 100_000_000,
    {
        let aspect = aspect_of(width, height);
        Camera {
            eye,
            target,
            up: V3 { x: 0, y: 1_000_000, z: 0 },
            aspect,
            fovy: 785_398,
            znear: 100_000,
            zfar: 100_000_000,
        }
    }

    /// Track a surface size change: the aspect ratio becomes width
    /// over height.
    pub fn set_aspect(&mut self, width: u32, height: u32)
        requires
            width >= 1,
            height >= 1,
        ensures
            final(self).aspect == (width as int * FX_ONE) / (height as int),
            0 <= final(self).aspect <= 4_300_000_000_000_000,
            final(self).eye == old(self).eye,
            final(self).target == old(self).target,
            final(self).up == old(self).up,
            final(self).fovy == old(self).fovy,
            final(self).znear == old(self).znear,
            final(self).zfar == old(self).zfar,
    {
        self.aspect = aspect_of(width, height);
    }
}

/// Width over height in fixed point.
fn aspect_of(width: u32, height: u32) -> (a: i64)
    requires
        width >= 1,
        height >= 1,
    ensures
        a == (width as int * FX_ONE) / (height as int),
        0 <= a <= 4_300_000_000_000_000,
{
    proof {
        let w = width as int;
        let h = height as int;
        assert(0 <= w * FX_ONE <= 4_300_000_000_000_000) by (nonlinear_arith)
            requires 1 <= w <= 4_294_967_295;
        lemma_div_pos_is_pos(w * FX_ONE, h);
        lemma_div_is_ordered_by_denominator(w * FX_ONE, 1, h);
        lemma_div_multiples_vanish(w * FX_ONE, 1);
        assert((w * FX_ONE) * 1 == w * FX_ONE) by (nonlinear_arith);
    }
    mul_div_floor(width as i64, FX_ONE, height as i64)
}

/// Length of the view direction.
pub open spec fn fmag_s(cam: Camera) -> int {
    let dx = cam.target.x - cam.eye.x;
    let dy = cam.target.y - cam.eye.y;
    let dz = cam.target.z - cam.eye.z;
    crate::alg::sqrt_s(dx * dx + dy * dy + dz * dz)
}

/// The normalized view direction.
pub open spec fn fnx_s(cam: Camera) -> int {
    norm_comp_s(cam.target.x - cam.eye.x, fmag_s(cam))
}

pub open spec fn fny_s(cam: Camera) -> int {
    norm_comp_s(cam.target.y - cam.eye.y, fmag_s(cam))
}

pub open spec fn fnz_s(cam: Camera) -> int {
    norm_comp_s(cam.target.z - cam.eye.z, fmag_s(cam))
}

/// The raw side vector: view direction crossed with up.
pub open spec fn scx_s(cam: Camera) -> int {
    cross_comp_s(fny_s(cam), cam.up.z as int, fnz_s(cam), cam.up.y as int)
}

pub open spec fn scy_s(cam: Camera) -> int {
    cross_comp_s(fnz_s(cam), cam.up.x as int, fnx_s(cam), cam.up.z as int)
}

pub open spec fn scz_s(cam: Camera) -> int {
    cross_comp_s(fnx_s(cam), cam.up.y as int, fny_s(cam), cam.up.x as int)
}

/// Length of the raw side vector.
pub open spec fn smag_s(cam: Camera) -> int {
    crate::alg::sqrt_s(
        scx_s(cam) * scx_s(cam) + scy_s(cam) * scy_s(cam) + scz_s(cam) * scz_s(cam),
    )
}

/// The normalized side vector.
pub open spec fn snx_s(cam: Camera) -> int {
    norm_comp_s(scx_s(cam), smag_s(cam))
}

pub open spec fn sny_s(cam: Camera) -> int {
    norm_comp_s(scy_s(cam), smag_s(cam))
}

pub open spec fn snz_s(cam: Camera) -> int {
    norm_comp_s(scz_s(cam), smag_s(cam))
}

/// The view-space vertical: side crossed with view direction.
pub open spec fn ux_s(cam: Camera) -> int {
    cross_comp_s(sny_s(cam), fnz_s(cam), snz_s(cam), fny_s(cam))
}

pub open spec fn uy_s(cam: Camera) -> int {
    cross_comp_s(snz_s(cam), fnx_s(cam), snx_s(cam), fnz_s(cam))
}

pub open spec fn uz_s(cam: Camera) -> int {
    cross_comp_s(snx_s(cam), fny_s(cam), sny_s(cam), fnx_s(cam))
}

/// Side vector against the eye: the first view translation.
pub open spec fn dots_eye_s(cam: Camera) -> int {
    fx_mul_s(snx_s(cam), cam.eye.x as int) + fx_mul_s(sny_s(cam), cam.eye.y as int)
        + fx_mul_s(snz_s(cam), cam.eye.z as int)
}

pub open spec fn dotu_eye_s(cam: Camera) -> int {
    fx_mul_s(ux_s(cam), cam.eye.x as int) + fx_mul_s(uy_s(cam), cam.eye.y as int)
        + fx_mul_s(uz_s(cam), cam.eye.z as int)
}

pub open spec fn dotf_eye_s(cam: Camera) -> int {
    fx_mul_s(fnx_s(cam), cam.eye.x as int) + fx_mul_s(fny_s(cam), cam.eye.y as int)
        + fx_mul_s(fnz_s(cam), cam.eye.z as int)
}

/// Half the field of view.
pub open spec fn thalf_s(cam: Camera) -> int {
    (cam.fovy as int) / 2
}

/// Tangent of half the field of view (guarded against a vanishing
/// cosine, which a well-formed camera never reaches).
pub open spec fn tanh_s(cam: Camera) -> int {
    if cos_at(thalf_s(cam)) <= 0 {
        FX_ONE as int
    } else {
        (sin_at(thalf_s(cam)) * FX_ONE) / cos_at(thalf_s(cam))
    }
}

/// Cotangent of half the field of view: the projection's focal
/// factor.
pub open spec fn fcot_s(cam: Camera) -> int {
    if tanh_s(cam) <= 0 {
        FX_ONE as int
    } else {
        (FX_ONE * FX_ONE) / tanh_s(cam)
    }
}

/// The focal factor over the aspect ratio (an aspect below one
/// micro-unit counts as one).
pub open spec fn faspect_s(cam: Camera) -> int {
    (fcot_s(cam) * FX_ONE) / (if cam.aspect < 1 { 1int } else { cam.aspect as int })
}

/// The projection's depth scale.
pub open spec fn cproj_s(cam: Camera) -> int {
    -(((cam.znear + cam.zfar) * FX_ONE) / (cam.zfar - cam.znear))
}

/// The projection's depth offset.
pub open spec fn dproj_s(cam: Camera) -> int {
    -((2 * cam.znear * cam.zfar) / (cam.zfar - cam.znear))
}

/// Row two of the view matrix (the negated view direction and its
/// translation), by column.
pub open spec fn view2_s(cam: Camera, c: int) -> int {
    if c == 0 {
        -fnx_s(cam)
    } else if c == 1 {
        -fny_s(cam)
    } else if c == 2 {
        -fnz_s(cam)
    } else {
        dotf_eye_s(cam)
    }
}

/// Entry `(r, c)` of the packed view-projection matrix, the
/// perspective projection times the look-at view, remapped to the
/// half-depth clip range.
pub open spec fn vp_entry_s(cam: Camera, r: int, c: int) -> int {
    if r == 0 {
        if c == 0 {
            fx_mul_s(faspect_s(cam), snx_s(cam))
        } else if c == 1 {
            fx_mul_s(faspect_s(cam), sny_s(cam))
        } else if c == 2 {
            fx_mul_s(faspect_s(cam), snz_s(cam))
        } else {
            fx_mul_s(faspect_s(cam), -dots_eye_s(cam))
        }
    } else if r == 1 {
        if c == 0 {
            fx_mul_s(fcot_s(cam), ux_s(cam))
        } else if c == 1 {
            fx_mul_s(fcot_s(cam), uy_s(cam))
        } else if c == 2 {
            fx_mul_s(fcot_s(cam), uz_s(cam))
        } else {
            fx_mul_s(fcot_s(cam), -dotu_eye_s(cam))
        }
    } else if r == 2 {
        let pv2 = fx_mul_s(cproj_s(cam), view2_s(cam, c)) + if c == 3 {
            dproj_s(cam)
        } else {
            0
        };
        (pv2 + -view2_s(cam, c)) / 2
    } else {
        -view2_s(cam, c)
    }
}

/// A packed four-by-four matrix of fixed-point entries, row then
/// column.
#[derive(Clone, Copy, Debug, PartialEq, Eq, Structural)]
pub struct Mat4 {
    pub m00: i64, pub m01: i64, pub m02: i64, pub m03: i64,
    pub m10: i64, pub m11: i64, pub m12: i64, pub m13: i64,
    pub m20: i64, pub m21: i64, pub m22: i64, pub m23: i64,
    pub m30: i64, pub m31: i64, pub m32: i64, pub m33: i64,
}

/// The sixteen equations tying a packed matrix to a camera.
pub open spec fn mat_is_view_proj_s(cam: Camera, m: Mat4) -> bool {
    &&& m.m00 == vp_entry_s(cam, 0, 0) && m.m01 == vp_entry_s(cam, 0, 1)
    &&& m.m02 == vp_entry_s(cam, 0, 2) && m.m03 == vp_entry_s(cam, 0, 3)
    &&& m.m10 == vp_entry_s(cam, 1, 0) && m.m11 == vp_entry_s(cam, 1, 1)
    &&& m.m12 == vp_entry_s(cam, 1, 2) && m.m13 == vp_entry_s(cam, 1, 3)
    &&& m.m20 == vp_entry_s(cam, 2, 0) && m.m21 == vp_entry_s(cam, 2, 1)
    &&& m.m22 == vp_entry_s(cam, 2, 2) && m.m23 == vp_entry_s(cam, 2, 3)
    &&& m.m30 == vp_entry_s(cam, 3, 0) && m.m31 == vp_entry_s(cam, 3, 1)
    &&& m.m32 == vp_entry_s(cam, 3, 2) && m.m33 == vp_entry_s(cam, 3, 3)
}

impl Camera {
    /// Build the packed view-projection matrix for the current pose
    /// and frustum.
    pub fn build_view_projection_matrix(&self) -> (m: Mat4)
        requires
            camera_wf(*self),
        ensures
            mat_is_view_proj_s(*self, m),
    {
        let cam = *self;
        // Look-at basis.
        let diff = v3_sub(cam.target, cam.eye);
        let fnorm = v3_normalize(diff);
        let sraw = v3_cross(fnorm, cam.up);
        let snorm = v3_normalize(sraw);
        let uvec = v3_cross(snorm, fnorm);
        proof {
            let e = CAM_CAP as int;
            let s1 = FX_ONE as int;
            assert((1_000_000 * 150_000_000int) / 1_000_000 == 150_000_000) by (nonlinear_arith);
            lemma_fx_mul_fits(snorm.x as int, cam.eye.x as int, s1, e);
            lemma_fx_mul_fits(snorm.y as int, cam.eye.y as int, s1, e);
            lemma_fx_mul_fits(snorm.z as int, cam.eye.z as int, s1, e);
            lemma_fx_mul_fits(fnorm.x as int, cam.eye.x as int, s1, e);
            lemma_fx_mul_fits(fnorm.y as int, cam.eye.y as int, s1, e);
            lemma_fx_mul_fits(fnorm.z as int, cam.eye.z as int, s1, e);
            assert((9_000_000 * 150_000_000int) / 1_000_000 == 1_350_000_000) by (nonlinear_arith);
            lemma_fx_mul_fits(uvec.x as int, cam.eye.x as int, 9_000_000, e);
            lemma_fx_mul_fits(uvec.y as int, cam.eye.y as int, 9_000_000, e);
            lemma_fx_mul_fits(uvec.z as int, cam.eye.z as int, 9_000_000, e);
        }
        let ds: i64 = fx_mul(snorm.x, cam.eye.x) + fx_mul(snorm.y, cam.eye.y)
            + fx_mul(snorm.z, cam.eye.z);
        let du: i64 = fx_mul(uvec.x, cam.eye.x) + fx_mul(uvec.y, cam.eye.y)
            + fx_mul(uvec.z, cam.eye.z);
        let df: i64 = fx_mul(fnorm.x, cam.eye.x) + fx_mul(fnorm.y, cam.eye.y)
            + fx_mul(fnorm.z, cam.eye.z);
        // Projection factors.
        let thalf: i64 = mul_div_floor(cam.fovy, 1, 2);
        proof {
            assert(cam.fovy * 1 == cam.fovy as int) by (nonlinear_arith);
            lemma_fovy_half_bounds(cam.fovy as int);
        }
        let sinh = crate::trig::sin_fx(thalf);
        let cosh = crate::trig::cos_fx(thalf);
        proof {
            lemma_half_angle_trig(thalf as int);
        }
        let tanh: i64 = if cosh <= 0 {
            FX_ONE
        } else {
            proof {
                let sv = sinh as int;
                let cv = cosh as int;
                assert(0 <= sv * FX_ONE <= 1_000_000_000_000) by (nonlinear_arith)
                    requires 0 <= sv <= 1_000_000;
                lemma_div_pos_is_pos(sv * FX_ONE, cv);
                lemma_div_is_ordered_by_denominator(sv * FX_ONE, cv, FX_ONE as int);
                lemma_div_multiples_vanish(sv, FX_ONE as int);
                lemma_div_is_ordered_by_denominator(sv * FX_ONE, 1, cv);
                lemma_div_multiples_vanish(sv * FX_ONE, 1);
                assert((sv * FX_ONE) * 1 == sv * FX_ONE) by (nonlinear_arith);
            }
            mul_div_floor(sinh, FX_ONE, cosh)
        };
        let fcot: i64 = if tanh <= 0 {
            FX_ONE
        } else {
            proof {
                let tv = tanh as int;
                lemma_div_pos_is_pos(1_000_000_000_000, tv);
                lemma_div_is_ordered_by_denominator(1_000_000_000_000, 50_000, tv);
                assert(1_000_000_000_000int / 50_000 == 20_000_000);
            }
            mul_div_floor(FX_ONE, FX_ONE, tanh)
        };
        let amax: i64 = if cam.aspect < 1 { 1 } else { cam.aspect };
        let fa: i64 = {
            proof {
                let fv = fcot as int;
                assert(0 <= fv * FX_ONE <= 20_000_000_000_000) by (nonlinear_arith)
                    requires 0 <= fv <= 20_000_000;
                lemma_div_pos_is_pos(fv * FX_ONE, amax as int);
                lemma_div_is_ordered_by_denominator(fv * FX_ONE, 1, amax as int);
                lemma_div_multiples_vanish(fv * FX_ONE, 1);
                assert((fv * FX_ONE) * 1 == fv * FX_ONE) by (nonlinear_arith);
            }
            mul_div_floor(fcot, FX_ONE, amax)
        };
        let depth: i64 = cam.zfar - cam.znear;
        let cproj: i64 = {
            proof {
                let nf = (cam.znear + cam.zfar) as int;
                assert(0 <= nf * FX_ONE <= 800_000_000_000_000) by (nonlinear_arith)
                    requires 0 <= nf <= 800_000_000;
                lemma_div_pos_is_pos(nf * FX_ONE, depth as int);
                lemma_div_is_ordered_by_denominator(nf * FX_ONE, 1_000_000, depth as int);
                lemma_div_multiples_vanish(nf, FX_ONE as int);
                assert(nf * FX_ONE == FX_ONE * nf) by (nonlinear_arith);
            }
            -mul_div_floor(cam.znear + cam.zfar, FX_ONE, depth)
        };
        let dproj: i64 = {
            proof {
                let zn = (2 * cam.znear) as int;
                assert(0 <= zn * (cam.zfar as int) <= 320_000_000_000_000_000)
                    by (nonlinear_arith)
                    requires 0 <= zn <= 800_000_000 && 0 <= cam.zfar <= 400_000_000;
                lemma_div_pos_is_pos(zn * (cam.zfar as int), depth as int);
                lemma_div_is_ordered_by_denominator(zn * (cam.zfar as int), 1_000_000, depth as int);
                assert(320_000_000_000_000_000int / 1_000_000 == 320_000_000_000);
                lemma_div_is_ordered(
                    zn * (cam.zfar as int),
                    320_000_000_000_000_000,
                    1_000_000,
                );
            }
            -mul_div_floor(2 * cam.znear, cam.zfar, depth)
        };
        // Assemble: rows zero and one are the side and vertical rows
        // under their focal factors; rows two and three carry depth.
        proof {
            lemma_fx_mul_fits(fa as int, snorm.x as int, 20_000_000_000_000, FX_ONE as int);
            lemma_fx_mul_fits(fa as int, snorm.y as int, 20_000_000_000_000, FX_ONE as int);
            lemma_fx_mul_fits(fa as int, snorm.z as int, 20_000_000_000_000, FX_ONE as int);
            lemma_fx_mul_fits(fa as int, -(ds as int), 20_000_000_000_000, 450_000_010);
            lemma_fx_mul_fits(fcot as int, uvec.x as int, 20_000_000, 9_000_000);
            lemma_fx_mul_fits(fcot as int, uvec.y as int, 20_000_000, 9_000_000);
            lemma_fx_mul_fits(fcot as int, uvec.z as int, 20_000_000, 9_000_000);
            lemma_fx_mul_fits(fcot as int, -(du as int), 20_000_000, 4_050_000_010);
            lemma_fx_mul_fits(cproj as int, -(fnorm.x as int), 800_000_000, FX_ONE as int);
            lemma_fx_mul_fits(cproj as int, -(fnorm.y as int), 800_000_000, FX_ONE as int);
            lemma_fx_mul_fits(cproj as int, -(fnorm.z as int), 800_000_000, FX_ONE as int);
            lemma_fx_mul_fits(cproj as int, df as int, 800_000_000, 450_000_010);
        }
        let v20: i64 = -fnorm.x;
        let v21: i64 = -fnorm.y;
        let v22: i64 = -fnorm.z;
        let v23: i64 = df;
        let pv20: i64 = fx_mul(cproj, v20);
        let pv21: i64 = fx_mul(cproj, v21);
        let pv22: i64 = fx_mul(cproj, v22);
        let pv23: i64 = fx_mul(cproj, v23) + dproj;
        proof {
            lemma_half_sum(pv20 as int, -(v20 as int));
            lemma_half_sum(pv21 as int, -(v21 as int));
            lemma_half_sum(pv22 as int, -(v22 as int));
            lemma_half_sum(pv23 as int, -(v23 as int));
        }
        Mat4 {
            m00: fx_mul(fa, snorm.x),
            m01: fx_mul(fa, snorm.y),
            m02: fx_mul(fa, snorm.z),
            m03: fx_mul(fa, -ds),
            m10: fx_mul(fcot, uvec.x),
            m11: fx_mul(fcot, uvec.y),
            m12: fx_mul(fcot, uvec.z),
            m13: fx_mul(fcot, -du),
            m20: mul_div_floor(pv20 + -v20, 1, 2),
            m21: mul_div_floor(pv21 + -v21, 1, 2),
            m22: mul_div_floor(pv22 + -v22, 1, 2),
            m23: mul_div_floor(pv23 + -v23, 1, 2),
            m30: -v20,
            m31: -v21,
            m32: -v22,
            m33: -v23,
        }
    }
}

/// Half of a well-formed field of view sits strictly inside the first
/// quarter-and-a-bit of the turn.
proof fn lemma_fovy_half_bounds(fovy: int)
    requires
        200_000 <= fovy <= 2_400_000,
    ensures
        100_000 <= fovy / 2 <= 1_200_000,
{
    lemma_div_is_ordered(200_000, fovy, 2);
    lemma_div_is_ordered(fovy, 2_400_000, 2);
    assert(200_000int / 2 == 100_000);
    assert(2_400_000int / 2 == 1_200_000);
}

/// For a half-angle in the working range, the sine is at least half
/// the angle and the cosine is positive.
proof fn lemma_half_angle_trig(th: int)
    requires
        100_000 <= th <= 1_200_000,
    ensures
        sin_at(th) >= 50_000,
        sin_at(th) <= FX_ONE,
        1 <= cos_at(th) <= FX_ONE,
{
    lemma_small_mod(th as nat, TURN as nat);
    assert(sin_at(th) == sin_half_s(th));
    crate::trig::lemma_sin_half_lower(th);
    crate::trig::lemma_sin_half_props(th);
    lemma_div_is_ordered(100_000, th, 2);
    assert(100_000int / 2 == 50_000);
    let a = th + QUARTER_TURN;
    lemma_small_mod(a as nat, TURN as nat);
    assert(cos_at(th) == sin_at(a));
    assert(sin_at(a) == sin_half_s(a));
    crate::trig::lemma_sin_half_props(a);
}

/// Floor halving distributes over the sum the matrix remap needs.
proof fn lemma_half_sum(a: int, b: int)
    requires
        -1_000_000_000_000 <= a <= 1_000_000_000_000,
        -1_000_000_000_000 <= b <= 1_000_000_000_000,
    ensures
        ((a + b) * 1) / 2 == (a + b) / 2,
        -1_000_000_000_000 <= (a + b) / 2 <= 1_000_000_000_000,
{
    assert((a + b) * 1 == a + b) by (nonlinear_arith);
    lemma_div_is_ordered(a + b, 2_000_000_000_000, 2);
    lemma_div_is_ordered(-2_000_000_000_000, a + b, 2);
    assert(2_000_000_000_000int / 2 == 1_000_000_000_000);
    assert((-2_000_000_000_000int) / 2 == -1_000_000_000_000);
}

/// The packed view-projection matrix mirrored to the GPU each frame.
#[derive(Clone, Copy, Debug, PartialEq, Eq, Structural)]
pub struct CameraUniform {
    pub view_proj: Mat4,
}

impl CameraUniform {
    /// The identity matrix, before any camera has been applied.
    pub fn new() -> (u: CameraUniform)
        ensures
            u.view_proj.m00 == FX_ONE && u.view_proj.m11 == FX_ONE,
            u.view_proj.m22 == FX_ONE && u.view_proj.m33 == FX_ONE,
            u.view_proj.m01 == 0 && u.view_proj.m02 == 0 && u.view_proj.m03 == 0,
            u.view_proj.m10 == 0 && u.view_proj.m12 == 0 && u.view_proj.m13 == 0,
            u.view_proj.m20 == 0 && u.view_proj.m21 == 0 && u.view_proj.m23 == 0,
            u.view_proj.m30 == 0 && u.view_proj.m31 == 0 && u.view_proj.m32 == 0,
    {
        CameraUniform {
            view_proj: Mat4 {
                m00: FX_ONE, m01: 0, m02: 0, m03: 0,
                m10: 0, m11: FX_ONE, m12: 0, m13: 0,
                m20: 0, m21: 0, m22: FX_ONE, m23: 0,
                m30: 0, m31: 0, m32: 0, m33: FX_ONE,
            },
        }
    }

    /// Rebuild the packed matrix from the camera's current pose.
    pub fn update_view_proj(&mut self, camera: &Camera)
        requires
            camera_wf(*camera),
        ensures
            mat_is_view_proj_s(*camera, final(self).view_proj),
    {
        self.view_proj = camera.build_view_projection_matrix();
    }
}

/// The movement keys the controller understands; anything else is
/// reported unhandled.
#[derive(Clone, Copy, Debug, PartialEq, Eq, Structural)]
pub enum ControlKey {
    Forward,
    Backward,
    Left,
    Right,
    Other,
}

/// Held-key state driving the camera between frames.
#[derive(Clone, Copy, Debug, PartialEq, Eq, Structural)]
pub struct CameraController {
    pub speed: i64,
    pub is_forward_pressed: bool,
    pub is_backward_pressed: bool,
    pub is_left_pressed: bool,
    pub is_right_pressed: bool,
}

/// The controller's speed stays within a step the camera box absorbs.
pub open spec fn controller_wf(ctl: CameraController) -> bool {
    1 <= ctl.speed <= 10_000_000
}

/// Where the eye ends up after one controller step: forward and
/// backward moves along the normalized view direction (forward only
/// while the target is further than one step away), then strafes that
/// re-aim the eye around the target at its current distance.  Every
/// write is clamped into the camera box.
pub open spec fn eye_after_s(cam: Camera, ctl: CameraController) -> (int, int, int) {
    let cc = CAM_CAP as int;
    let m1 = fmag_s(cam);
    let fx1 = fnx_s(cam);
    let fy1 = fny_s(cam);
    let fz1 = fnz_s(cam);
    let sp = ctl.speed as int;
    let e1 = if ctl.is_forward_pressed && m1 > sp {
        (
            clamp_s(cam.eye.x + fx_mul_s(fx1, sp), -cc, cc),
            clamp_s(cam.eye.y + fx_mul_s(fy1, sp), -cc, cc),
            clamp_s(cam.eye.z + fx_mul_s(fz1, sp), -cc, cc),
        )
    } else {
        (cam.eye.x as int, cam.eye.y as int, cam.eye.z as int)
    };
    let e2 = if ctl.is_backward_pressed {
        (
            clamp_s(e1.0 - fx_mul_s(fx1, sp), -cc, cc),
            clamp_s(e1.1 - fx_mul_s(fy1, sp), -cc, cc),
            clamp_s(e1.2 - fx_mul_s(fz1, sp), -cc, cc),
        )
    } else {
        e1
    };
    let rx = cross_comp_s(cam.up.y as int, fz1, cam.up.z as int, fy1);
    let ry = cross_comp_s(cam.up.z as int, fx1, cam.up.x as int, fz1);
    let rz = cross_comp_s(cam.up.x as int, fy1, cam.up.y as int, fx1);
    let wx = cam.target.x - e2.0;
    let wy = cam.target.y - e2.1;
    let wz = cam.target.z - e2.2;
    let m2 = crate::alg::sqrt_s(wx * wx + wy * wy + wz * wz);
    let e3 = if ctl.is_right_pressed {
        let tx = wx + fx_mul_s(rx, sp);
        let ty = wy + fx_mul_s(ry, sp);
        let tz = wz + fx_mul_s(rz, sp);
        let tm = crate::alg::sqrt_s(tx * tx + ty * ty + tz * tz);
        (
            clamp_s(cam.target.x - fx_mul_s(norm_comp_s(tx, tm), m2), -cc, cc),
            clamp_s(cam.target.y - fx_mul_s(norm_comp_s(ty, tm), m2), -cc, cc),
            clamp_s(cam.target.z - fx_mul_s(norm_comp_s(tz, tm), m2), -cc, cc),
        )
    } else {
        e2
    };
    if ctl.is_left_pressed {
        let tx = wx - fx_mul_s(rx, sp);
        let ty = wy - fx_mul_s(ry, sp);
        let tz = wz - fx_mul_s(rz, sp);
        let tm = crate::alg::sqrt_s(tx * tx + ty * ty + tz * tz);
        (
            clamp_s(cam.target.x - fx_mul_s(norm_comp_s(tx, tm), m2), -cc, cc),
            clamp_s(cam.target.y - fx_mul_s(norm_comp_s(ty, tm), m2), -cc, cc),
            clamp_s(cam.target.z - fx_mul_s(norm_comp_s(tz, tm), m2), -cc, cc),
        )
    } else {
        e3
    }
}

impl CameraController {
    /// A controller with nothing pressed.
    pub fn new(speed: i64) -> (ctl: CameraController)
        requires
            1 <= speed <= 10_000_000,
        ensures
            controller_wf(ctl),
            ctl.speed == speed,
            !ctl.is_forward_pressed && !ctl.is_backward_pressed,
            !ctl.is_left_pressed && !ctl.is_right_pressed,
    {
        CameraController {
            speed,
            is_forward_pressed: false,
            is_backward_pressed: false,
            is_left_pressed: false,
            is_right_pressed: false,
        }
    }

    /// Record a key transition.  Returns whether the key was one the
    /// controller listens to; the matching flag follows `pressed` and
    /// every other flag is untouched.
    pub fn process_events(&mut self, key: ControlKey, pressed: bool) -> (handled: bool)
        ensures
            handled == !(key is Other),
            final(self).speed == old(self).speed,
            final(self).is_forward_pressed
                == if key is Forward { pressed } else { old(self).is_forward_pressed },
            final(self).is_backward_pressed
                == if key is Backward { pressed } else { old(self).is_backward_pressed },
            final(self).is_left_pressed
                == if key is Left { pressed } else { old(self).is_left_pressed },
            final(self).is_right_pressed
                == if key is Right { pressed } else { old(self).is_right_pressed },
    {
        match key {
            ControlKey::Forward => {
                self.is_forward_pressed = pressed;
                true
            },
            ControlKey::Backward => {
                self.is_backward_pressed = pressed;
                true
            },
            ControlKey::Left => {
                self.is_left_pressed = pressed;
                true
            },
            ControlKey::Right => {
                self.is_right_pressed = pressed;
                true
            },
            ControlKey::Other => false,
        }
    }

    /// Apply the held keys to the camera's eye.  With nothing held the
    /// camera is untouched.
    pub fn update_camera(&self, camera: &mut Camera)
        requires
            controller_wf(*self),
            camera_wf(*old(camera)),
        ensures
            camera_wf(*final(camera)),
            (
                final(camera).eye.x as int,
                final(camera).eye.y as int,
                final(camera).eye.z as int,
            ) == eye_after_s(*old(camera), *self),
            final(camera).target == old(camera).target,
            final(camera).up == old(camera).up,
            final(camera).aspect == old(camera).aspect,
            final(camera).fovy == old(camera).fovy,
            final(camera).znear == old(camera).znear,
            final(camera).zfar == old(camera).zfar,
            !self.is_forward_pressed && !self.is_backward_pressed && !self.is_left_pressed
                && !self.is_right_pressed ==> final(camera).eye == old(camera).eye,
    {
        let cam0 = *camera;
        let sp = self.speed;
        let diff = v3_sub(cam0.target, cam0.eye);
        let m1 = crate::alg::v3_mag(diff);
        let fn1 = v3_normalize(diff);
        proof {
            lemma_fx_mul_fits(fn1.x as int, sp as int, FX_ONE as int, 10_000_000);
            lemma_fx_mul_fits(fn1.y as int, sp as int, FX_ONE as int, 10_000_000);
            lemma_fx_mul_fits(fn1.z as int, sp as int, FX_ONE as int, 10_000_000);
            assert((1_000_000 * 10_000_000int) / 1_000_000 == 10_000_000) by (nonlinear_arith);
        }
        if self.is_forward_pressed && m1 > sp {
            camera.eye = V3 {
                x: crate::fx::clamp(camera.eye.x + fx_mul(fn1.x, sp), -CAM_CAP, CAM_CAP),
                y: crate::fx::clamp(camera.eye.y + fx_mul(fn1.y, sp), -CAM_CAP, CAM_CAP),
                z: crate::fx::clamp(camera.eye.z + fx_mul(fn1.z, sp), -CAM_CAP, CAM_CAP),
            };
        }
        if self.is_backward_pressed {
            camera.eye = V3 {
                x: crate::fx::clamp(camera.eye.x - fx_mul(fn1.x, sp), -CAM_CAP, CAM_CAP),
                y: crate::fx::clamp(camera.eye.y - fx_mul(fn1.y, sp), -CAM_CAP, CAM_CAP),
                z: crate::fx::clamp(camera.eye.z - fx_mul(fn1.z, sp), -CAM_CAP, CAM_CAP),
            };
        }
        let right = v3_cross(cam0.up, fn1);
        let fwd2 = v3_sub(cam0.target, camera.eye);
        let m2 = crate::alg::v3_mag(fwd2);
        proof {
            lemma_fx_mul_fits(right.x as int, sp as int, 9_000_000, 10_000_000);
            lemma_fx_mul_fits(right.y as int, sp as int, 9_000_000, 10_000_000);
            lemma_fx_mul_fits(right.z as int, sp as int, 9_000_000, 10_000_000);
            assert((9_000_000 * 10_000_000int) / 1_000_000 == 90_000_000) by (nonlinear_arith);
        }
        if self.is_right_pressed {
            let t = V3 {
                x: fwd2.x + fx_mul(right.x, sp),
                y: fwd2.y + fx_mul(right.y, sp),
                z: fwd2.z + fx_mul(right.z, sp),
            };
            let n = v3_normalize(t);
            proof {
                lemma_fx_mul_fits(n.x as int, m2 as int, FX_ONE as int, 700_000_000);
                lemma_fx_mul_fits(n.y as int, m2 as int, FX_ONE as int, 700_000_000);
                lemma_fx_mul_fits(n.z as int, m2 as int, FX_ONE as int, 700_000_000);
                assert((1_000_000 * 700_000_000int) / 1_000_000 == 700_000_000)
                    by (nonlinear_arith);
            }
            camera.eye = V3 {
                x: crate::fx::clamp(cam0.target.x - fx_mul(n.x, m2), -CAM_CAP, CAM_CAP),
                y: crate::fx::clamp(cam0.target.y - fx_mul(n.y, m2), -CAM_CAP, CAM_CAP),
                z: crate::fx::clamp(cam0.target.z - fx_mul(n.z, m2), -CAM_CAP, CAM_CAP),
            };
        }
        if self.is_left_pressed {
            let t = V3 {
                x: fwd2.x - fx_mul(right.x, sp),
                y: fwd2.y - fx_mul(right.y, sp),
                z: fwd2.z - fx_mul(right.z, sp),
            };
            let n = v3_normalize(t);
            proof {
                lemma_fx_mul_fits(n.x as int, m2 as int, FX_ONE as int, 700_000_000);
                lemma_fx_mul_fits(n.y as int, m2 as int, FX_ONE as int, 700_000_000);
                lemma_fx_mul_fits(n.z as int, m2 as int, FX_ONE as int, 700_000_000);
                assert((1_000_000 * 700_000_000int) / 1_000_000 == 700_000_000)
                    by (nonlinear_arith);
            }
            camera.eye = V3 {
                x: crate::fx::clamp(cam0.target.x - fx_mul(n.x, m2), -CAM_CAP, CAM_CAP),
                y: crate::fx::clamp(cam0.target.y - fx_mul(n.y, m2), -CAM_CAP, CAM_CAP),
                z: crate::fx::clamp(cam0.target.z - fx_mul(n.z, m2), -CAM_CAP, CAM_CAP),
            };
        }
    }
}

} // verus!
