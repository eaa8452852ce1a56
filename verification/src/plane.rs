//! A unit plane primitive: four corners and two triangles, the mesh
//! data every flat surface is built from.

use vstd::prelude::*;
use crate::alg::{POS_CAP, V3};
use crate::fx::FX_ONE;
use crate::model::ModelVertex;

verus! {

/// The four corners of a front-facing square of half-width `scale`.
pub fn plane_vertices(scale: i64) -> (vs: Vec<ModelVertex>)
    requires
        0 <= scale <= POS_CAP,
    ensures
        vs@.len() == 4,
        vs@[0] == (ModelVertex {
            position: V3 { x: (-scale) as i64, y: (-scale) as i64, z: scale },
            tex_u: 0,
            tex_v: 0,
            normal: V3 { x: 0, y: 0, z: FX_ONE },
        }),
        vs@[1] == (ModelVertex {
            position: V3 { x: scale, y: (-scale) as i64, z: scale },
            tex_u: FX_ONE,
            tex_v: 0,
            normal: V3 { x: 0, y: 0, z: (-FX_ONE) as i64 },
        }),
        vs@[2] == (ModelVertex {
            position: V3 { x: scale, y: scale, z: scale },
            tex_u: FX_ONE,
            tex_v: FX_ONE,
            normal: V3 { x: FX_ONE, y: 0, z: 0 },
        }),
        vs@[3] == (ModelVertex {
            position: V3 { x: (-scale) as i64, y: scale, z: scale },
            tex_u: 0,
            tex_v: FX_ONE,
            normal: V3 { x: (-FX_ONE) as i64, y: 0, z: 0 },
        }),
{
    let mut vs: Vec<ModelVertex> = Vec::new();
    vs.push(ModelVertex {
        position: V3 { x: -scale, y: -scale, z: scale },
        tex_u: 0,
        tex_v: 0,
        normal: V3 { x: 0, y: 0, z: FX_ONE },
    });
    vs.push(ModelVertex {
        position: V3 { x: scale, y: -scale, z: scale },
        tex_u: FX_ONE,
        tex_v: 0,
        normal: V3 { x: 0, y: 0, z: -FX_ONE },
    });
    vs.push(ModelVertex {
        position: V3 { x: scale, y: scale, z: scale },
        tex_u: FX_ONE,
        tex_v: FX_ONE,
        normal: V3 { x: FX_ONE, y: 0, z: 0 },
    });
    vs.push(ModelVertex {
        position: V3 { x: -scale, y: scale, z: scale },
        tex_u: 0,
        tex_v: FX_ONE,
        normal: V3 { x: -FX_ONE, y: 0, z: 0 },
    });
    vs
}

/// The two front-face triangles over the plane's corners.
pub fn plane_indices() -> (is: Vec<u32>)
    ensures
        is@ =~= seq![0u32, 1u32, 2u32, 0u32, 2u32, 3u32],
{
    let mut is: Vec<u32> = Vec::new();
    is.push(0);
    is.push(1);
    is.push(2);
    is.push(0);
    is.push(2);
    is.push(3);
    is
}

} // verus!
