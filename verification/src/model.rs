//! Models: meshes, materials, animation clips, and the keyframe
//! sampling that drives node positions.

use vstd::prelude::*;
use crate::alg::V3;

verus! {

/// A texture owned by a material or a pass: the GPU object and a full
/// view of it.
pub struct SceneTexture {
    pub texture: wgpu::Texture,
    pub view: wgpu::TextureView,
}

/// One vertex of a mesh: position, texture coordinates, normal.
#[derive(Clone, Copy, Debug, PartialEq, Eq, Structural)]
pub struct ModelVertex {
    pub position: V3,
    pub tex_u: i64,
    pub tex_v: i64,
    pub normal: V3,
}

/// A named material: its diffuse texture feeds the per-object bind
/// groups.
pub struct Material {
    pub name: String,
    pub diffuse_texture: SceneTexture,
}

/// A mesh: GPU vertex and index buffers, the number of indices to
/// draw, and the index of its material in the owning model.
pub struct Mesh {
    pub name: String,
    pub vertex_buffer: wgpu::Buffer,
    pub index_buffer: wgpu::Buffer,
    pub num_elements: u32,
    pub material: usize,
}

/// Keyframe payloads: only translations are interpreted; any other
/// channel kind is recognized but ignored.
pub enum Keyframes {
    Translation(Vec<V3>),
    Other,
}

/// A named animation clip: keyframes and the parallel list of their
/// timestamps, in microseconds from the clip start.
pub struct AnimationClip {
    pub name: String,
    pub keyframes: Keyframes,
    pub timestamps: Vec<u64>,
}

/// A model: meshes, the materials they index into, and its clips.
pub struct Model {
    pub meshes: Vec<Mesh>,
    pub materials: Vec<Material>,
    pub animations: Vec<AnimationClip>,
}

/// Every mesh's material index lands inside the model's materials,
/// and every clip is internally consistent.
pub open spec fn model_wf(m: Model) -> bool {
    &&& forall|i: int| 0 <= i < m.meshes@.len()
        ==> (#[trigger] m.meshes@[i]).material < m.materials@.len()
    &&& forall|i: int| 0 <= i < m.animations@.len()
        ==> clip_wf(#[trigger] m.animations@[i])
    &&& m.meshes@.len() <= 100_000
    &&& m.materials@.len() <= 100_000
}

/// Translation clips carry exactly one keyframe per timestamp.
pub open spec fn clip_wf(c: AnimationClip) -> bool {
    match c.keyframes {
        Keyframes::Translation(frames) => frames@.len() == c.timestamps@.len(),
        Keyframes::Other => true,
    }
}

/// The keyframe picked at time `t`: the latest index whose timestamp
/// is at or before `t`, or the first keyframe when every timestamp is
/// still ahead.
pub open spec fn kf_index_s(ts: Seq<u64>, t: u64) -> int
    decreases ts.len(),
{
    if ts.len() == 0 {
        0
    } else if ts[ts.len() - 1] <= t {
        ts.len() - 1
    } else {
        kf_index_s(ts.drop_last(), t)
    }
}

/// What `kf_index_s` picks: an in-range index, sitting at or before
/// `t` unless every timestamp is ahead, and no later index does so.
pub proof fn lemma_kf_index_props(ts: Seq<u64>, t: u64)
    requires
        ts.len() > 0,
    ensures
        0 <= kf_index_s(ts, t) < ts.len(),
        ts[kf_index_s(ts, t)] <= t || kf_index_s(ts, t) == 0,
        forall|i: int| 0 <= i < ts.len() && ts[i] <= t ==> i <= kf_index_s(ts, t),
    decreases ts.len(),
{
    if ts[ts.len() - 1] <= t {
    } else if ts.len() > 1 {
        let dl = ts.drop_last();
        lemma_kf_index_props(dl, t);
        let k = kf_index_s(ts, t);
        assert(k == kf_index_s(dl, t));
        assert(dl[k] == ts[k]);
        assert forall|i: int| 0 <= i < ts.len() && ts[i] <= t implies i <= k by {
            if i < ts.len() - 1 {
                assert(dl[i] == ts[i]);
            }
        }
    }
}

/// Scan the timestamps for the keyframe in effect at `t`.
pub fn sample_keyframe_index(timestamps: &Vec<u64>, t: u64) -> (idx: usize)
    requires
        timestamps@.len() > 0,
    ensures
        idx == kf_index_s(timestamps@, t),
        idx < timestamps@.len(),
{
    let n = timestamps.len();
    let mut best: usize = 0;
    let mut i: usize = 0;
    while i < n
        invariant
            i <= n,
            n == timestamps@.len(),
            best == kf_index_s(timestamps@.subrange(0, i as int), t),
            best <= i,
        decreases n - i,
    {
        if *timestamps.get(i).unwrap() <= t {
            best = i;
        }
        proof {
            let pre = timestamps@.subrange(0, i as int);
            let post = timestamps@.subrange(0, i + 1int);
            assert(post.drop_last() =~= pre);
            assert(post[post.len() - 1] == timestamps@[i as int]);
        }
        i = i + 1;
    }
    proof {
        assert(timestamps@.subrange(0, n as int) =~= timestamps@);
        lemma_kf_index_props(timestamps@, t);
    }
    best
}

/// The translation in effect at `t`, if the clip carries translation
/// keyframes; `None` for other channel kinds or an empty clip.
pub fn sample_translation(clip: &AnimationClip, t: u64) -> (r: Option<V3>)
    requires
        clip_wf(*clip),
    ensures
        match clip.keyframes {
            Keyframes::Translation(frames) => {
                if frames@.len() > 0 {
                    r == Some(frames@[kf_index_s(clip.timestamps@, t)])
                } else {
                    r is None
                }
            },
            Keyframes::Other => r is None,
        },
{
    match &clip.keyframes {
        Keyframes::Translation(frames) => {
            if frames.len() > 0 {
                proof {
                    lemma_kf_index_props(clip.timestamps@, t);
                }
                let idx = sample_keyframe_index(&clip.timestamps, t);
                Some(*frames.get(idx).unwrap())
            } else {
                None
            }
        },
        Keyframes::Other => None,
    }
}

} // verus!
