//! One positioned copy of a model: a translation, a rotation and a
//! per-axis scale, together with its packed matrix form as handed to
//! instanced rendering.

use vstd::prelude::*;
use vstd::arithmetic::div_mod::lemma_div_multiples_vanish;
use crate::alg::{
    Mat3, Quat, V3, quat_to_mat, quat_within, rot_entry_s, v3_within,
};
use crate::fx::{FX_ONE, fx_mul, fx_mul_s, fx_product_cap, lemma_fx_mul_fits};

verus! {

/// One placed copy of a model.
#[derive(Clone, Copy, Debug, PartialEq, Eq, Structural)]
pub struct Instance {
    pub position: V3,
    pub rotation: Quat,
    pub scale: V3,
}

/// Ranges under which an instance can be packed: position in the world
/// box, rotation components bounded, scale at most two units per axis.
pub open spec fn instance_wf(inst: Instance) -> bool {
    &&& v3_within(inst.position, crate::alg::POS_CAP as int)
    &&& quat_within(inst.rotation, 170_000_000)
    &&& v3_within(inst.scale, 2 * FX_ONE as int)
}

/// The packed four-by-four model matrix, row then column.  The last
/// row is constantly `(0, 0, 0, FX_ONE)`.
#[derive(Clone, Copy, Debug, PartialEq, Eq, Structural)]
pub struct InstanceRaw {
    pub m00: i64, pub m01: i64, pub m02: i64, pub m03: i64,
    pub m10: i64, pub m11: i64, pub m12: i64, pub m13: i64,
    pub m20: i64, pub m21: i64, pub m22: i64, pub m23: i64,
    pub m30: i64, pub m31: i64, pub m32: i64, pub m33: i64,
}

/// One scale factor of an instance, by column index.
pub open spec fn scale_comp_s(inst: Instance, c: int) -> int {
    if c == 0 {
        inst.scale.x as int
    } else if c == 1 {
        inst.scale.y as int
    } else {
        inst.scale.z as int
    }
}

/// One translation component of an instance, by row index.
pub open spec fn pos_comp_s(inst: Instance, r: int) -> int {
    if r == 0 {
        inst.position.x as int
    } else if r == 1 {
        inst.position.y as int
    } else {
        inst.position.z as int
    }
}

/// Entry `(r, c)` of the packed model matrix: the rotation column
/// scaled by the axis scale, the translation in the last column.
pub open spec fn raw_entry_s(inst: Instance, r: int, c: int) -> int {
    if r == 3 {
        if c == 3 {
            FX_ONE as int
        } else {
            0
        }
    } else if c == 3 {
        pos_comp_s(inst, r)
    } else {
        fx_mul_s(rot_entry_s(inst.rotation, r, c), scale_comp_s(inst, c))
    }
}

/// The sixteen packing equations, gathered for contracts.
pub open spec fn raw_matches_s(inst: Instance, raw: InstanceRaw) -> bool {
    &&& raw.m00 == raw_entry_s(inst, 0, 0) && raw.m01 == raw_entry_s(inst, 0, 1)
    &&& raw.m02 == raw_entry_s(inst, 0, 2) && raw.m03 == raw_entry_s(inst, 0, 3)
    &&& raw.m10 == raw_entry_s(inst, 1, 0) && raw.m11 == raw_entry_s(inst, 1, 1)
    &&& raw.m12 == raw_entry_s(inst, 1, 2) && raw.m13 == raw_entry_s(inst, 1, 3)
    &&& raw.m20 == raw_entry_s(inst, 2, 0) && raw.m21 == raw_entry_s(inst, 2, 1)
    &&& raw.m22 == raw_entry_s(inst, 2, 2) && raw.m23 == raw_entry_s(inst, 2, 3)
    &&& raw.m30 == raw_entry_s(inst, 3, 0) && raw.m31 == raw_entry_s(inst, 3, 1)
    &&& raw.m32 == raw_entry_s(inst, 3, 2) && raw.m33 == raw_entry_s(inst, 3, 3)
}

impl Instance {
    /// Pack the transform into the matrix layout the instance buffer
    /// carries.
    pub fn to_raw(&self) -> (raw: InstanceRaw)
        requires
            instance_wf(*self),
        ensures
            raw_matches_s(*self, raw),
            raw_within(raw, 500_000_000_000),
    {
        let rot: Mat3 = quat_to_mat(self.rotation);
        proof {
            let rc: int = 120_000_000_000;
            let sc: int = 2 * FX_ONE as int;
            assert(rc * sc == 240_000_000_000_000_000 && rc * sc <= fx_product_cap())
                by (nonlinear_arith)
                requires rc == 120_000_000_000 && sc == 2_000_000;
            lemma_fx_mul_fits(rot.e00 as int, self.scale.x as int, rc, sc);
            lemma_fx_mul_fits(rot.e01 as int, self.scale.y as int, rc, sc);
            lemma_fx_mul_fits(rot.e02 as int, self.scale.z as int, rc, sc);
            lemma_fx_mul_fits(rot.e10 as int, self.scale.x as int, rc, sc);
            lemma_fx_mul_fits(rot.e11 as int, self.scale.y as int, rc, sc);
            lemma_fx_mul_fits(rot.e12 as int, self.scale.z as int, rc, sc);
            lemma_fx_mul_fits(rot.e20 as int, self.scale.x as int, rc, sc);
            lemma_fx_mul_fits(rot.e21 as int, self.scale.y as int, rc, sc);
            lemma_fx_mul_fits(rot.e22 as int, self.scale.z as int, rc, sc);
        }
        InstanceRaw {
            m00: fx_mul(rot.e00, self.scale.x),
            m01: fx_mul(rot.e01, self.scale.y),
            m02: fx_mul(rot.e02, self.scale.z),
            m03: self.position.x,
            m10: fx_mul(rot.e10, self.scale.x),
            m11: fx_mul(rot.e11, self.scale.y),
            m12: fx_mul(rot.e12, self.scale.z),
            m13: self.position.y,
            m20: fx_mul(rot.e20, self.scale.x),
            m21: fx_mul(rot.e21, self.scale.y),
            m22: fx_mul(rot.e22, self.scale.z),
            m23: self.position.z,
            m30: 0,
            m31: 0,
            m32: 0,
            m33: FX_ONE,
        }
    }
}

/// All entries of a packed matrix within `cap` in magnitude.
pub open spec fn raw_within(raw: InstanceRaw, cap: int) -> bool {
    &&& -cap <= raw.m00 <= cap && -cap <= raw.m01 <= cap
    &&& -cap <= raw.m02 <= cap && -cap <= raw.m03 <= cap
    &&& -cap <= raw.m10 <= cap && -cap <= raw.m11 <= cap
    &&& -cap <= raw.m12 <= cap && -cap <= raw.m13 <= cap
    &&& -cap <= raw.m20 <= cap && -cap <= raw.m21 <= cap
    &&& -cap <= raw.m22 <= cap && -cap <= raw.m23 <= cap
    &&& -cap <= raw.m30 <= cap && -cap <= raw.m31 <= cap
    &&& -cap <= raw.m32 <= cap && -cap <= raw.m33 <= cap
}

/// One output component of applying a packed matrix to a point.
pub open spec fn apply_raw_comp_s(m0: int, m1: int, m2: int, m3: int, p: V3) -> int {
    fx_mul_s(m0, p.x as int) + fx_mul_s(m1, p.y as int) + fx_mul_s(m2, p.z as int) + m3
}

/// Apply a packed matrix to a point whose components stay within two
/// units, returning the transformed point.
pub fn apply_raw(raw: &InstanceRaw, p: V3) -> (r: V3)
    requires
        raw_within(*raw, 500_000_000_000),
        v3_within(p, 2 * FX_ONE as int),
    ensures
        r.x == apply_raw_comp_s(raw.m00 as int, raw.m01 as int, raw.m02 as int, raw.m03 as int, p),
        r.y == apply_raw_comp_s(raw.m10 as int, raw.m11 as int, raw.m12 as int, raw.m13 as int, p),
        r.z == apply_raw_comp_s(raw.m20 as int, raw.m21 as int, raw.m22 as int, raw.m23 as int, p),
{
    proof {
        let mc: int = 500_000_000_000;
        let pc: int = 2 * FX_ONE as int;
        assert(mc * pc == 1_000_000_000_000_000_000 && mc * pc <= fx_product_cap()
            && (mc * pc) / (FX_ONE as int) == 1_000_000_000_000) by (nonlinear_arith)
            requires mc == 500_000_000_000 && pc == 2_000_000;
        lemma_fx_mul_fits(raw.m00 as int, p.x as int, mc, pc);
        lemma_fx_mul_fits(raw.m01 as int, p.y as int, mc, pc);
        lemma_fx_mul_fits(raw.m02 as int, p.z as int, mc, pc);
        lemma_fx_mul_fits(raw.m10 as int, p.x as int, mc, pc);
        lemma_fx_mul_fits(raw.m11 as int, p.y as int, mc, pc);
        lemma_fx_mul_fits(raw.m12 as int, p.z as int, mc, pc);
        lemma_fx_mul_fits(raw.m20 as int, p.x as int, mc, pc);
        lemma_fx_mul_fits(raw.m21 as int, p.y as int, mc, pc);
        lemma_fx_mul_fits(raw.m22 as int, p.z as int, mc, pc);
    }
    V3 {
        x: fx_mul(raw.m00, p.x) + fx_mul(raw.m01, p.y) + fx_mul(raw.m02, p.z) + raw.m03,
        y: fx_mul(raw.m10, p.x) + fx_mul(raw.m11, p.y) + fx_mul(raw.m12, p.z) + raw.m13,
        z: fx_mul(raw.m20, p.x) + fx_mul(raw.m21, p.y) + fx_mul(raw.m22, p.z) + raw.m23,
    }
}

/// One output component of transforming a point directly: scale each
/// axis, rotate, then translate.
pub open spec fn direct_comp_s(inst: Instance, r: int, p: V3) -> int {
    fx_mul_s(rot_entry_s(inst.rotation, r, 0), fx_mul_s(scale_comp_s(inst, 0), p.x as int))
        + fx_mul_s(rot_entry_s(inst.rotation, r, 1), fx_mul_s(scale_comp_s(inst, 1), p.y as int))
        + fx_mul_s(rot_entry_s(inst.rotation, r, 2), fx_mul_s(scale_comp_s(inst, 2), p.z as int))
        + pos_comp_s(inst, r)
}

/// Multiplying by one fixed-point unit is exact.
pub proof fn lemma_fx_mul_one(a: int)
    ensures
        fx_mul_s(a, FX_ONE as int) == a,
        fx_mul_s(a, 0) == 0,
{
    lemma_div_multiples_vanish(a, FX_ONE as int);
    assert(a * FX_ONE == FX_ONE * a) by (nonlinear_arith);
    assert(a * 0 == 0) by (nonlinear_arith);
    assert(fx_mul_s(a, 0) == 0int / (FX_ONE as int));
}

/// One matrix cell against the direct transform: with a corner
/// coordinate of zero or one unit, the two rounding orders agree.
proof fn lemma_round_trip_cell(rawe: int, rot: int, sc: int, pc: int)
    requires
        rawe == fx_mul_s(rot, sc),
        pc == 0 || pc == FX_ONE,
    ensures
        fx_mul_s(rawe, pc) == fx_mul_s(rot, fx_mul_s(sc, pc)),
{
    if pc == 0 {
        lemma_fx_mul_one(rawe);
        lemma_fx_mul_one(sc);
        lemma_fx_mul_one(rot);
    } else {
        lemma_fx_mul_one(rawe);
        lemma_fx_mul_one(sc);
    }
}

/// Round trip of the packed form: on every corner of the unit cube,
/// applying the packed matrix gives exactly the directly transformed
/// corner (scale, then rotate, then translate).
pub proof fn lemma_raw_round_trip(inst: Instance, raw: InstanceRaw, p: V3)
    requires
        instance_wf(inst),
        raw_matches_s(inst, raw),
        p.x == 0 || p.x == FX_ONE,
        p.y == 0 || p.y == FX_ONE,
        p.z == 0 || p.z == FX_ONE,
    ensures
        apply_raw_comp_s(raw.m00 as int, raw.m01 as int, raw.m02 as int, raw.m03 as int, p)
            == direct_comp_s(inst, 0, p),
        apply_raw_comp_s(raw.m10 as int, raw.m11 as int, raw.m12 as int, raw.m13 as int, p)
            == direct_comp_s(inst, 1, p),
        apply_raw_comp_s(raw.m20 as int, raw.m21 as int, raw.m22 as int, raw.m23 as int, p)
            == direct_comp_s(inst, 2, p),
{
    let q = inst.rotation;
    lemma_round_trip_cell(raw.m00 as int, rot_entry_s(q, 0, 0), scale_comp_s(inst, 0), p.x as int);
    lemma_round_trip_cell(raw.m01 as int, rot_entry_s(q, 0, 1), scale_comp_s(inst, 1), p.y as int);
    lemma_round_trip_cell(raw.m02 as int, rot_entry_s(q, 0, 2), scale_comp_s(inst, 2), p.z as int);
    lemma_round_trip_cell(raw.m10 as int, rot_entry_s(q, 1, 0), scale_comp_s(inst, 0), p.x as int);
    lemma_round_trip_cell(raw.m11 as int, rot_entry_s(q, 1, 1), scale_comp_s(inst, 1), p.y as int);
    lemma_round_trip_cell(raw.m12 as int, rot_entry_s(q, 1, 2), scale_comp_s(inst, 2), p.z as int);
    lemma_round_trip_cell(raw.m20 as int, rot_entry_s(q, 2, 0), scale_comp_s(inst, 0), p.x as int);
    lemma_round_trip_cell(raw.m21 as int, rot_entry_s(q, 2, 1), scale_comp_s(inst, 1), p.y as int);
    lemma_round_trip_cell(raw.m22 as int, rot_entry_s(q, 2, 2), scale_comp_s(inst, 2), p.z as int);
}

/// Component of a point by column index.
pub open spec fn comp_of(p: V3, c: int) -> int {
    if c == 0 {
        p.x as int
    } else if c == 1 {
        p.y as int
    } else {
        p.z as int
    }
}

} // verus!
