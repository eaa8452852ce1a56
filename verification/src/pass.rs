//! The lighting pass: per-object uniform blocks, the light, and the
//! orchestration state that turns nodes and particle systems into an
//! ordered sequence of draw commands each frame.

use vstd::prelude::*;
use crate::alg::{V3, V4, v3_within};
use crate::camera::{Camera, CameraUniform, camera_wf, mat_is_view_proj_s};
use crate::fx::clamp_s;
use crate::gpu::{
    BufferKind, SurfaceErrorKind, create_depth_texture_raw, create_gpu_buffer,
    create_local_bind_group, surface_error_kind, texture_create_view, texture_size_s,
};
use crate::model::{Model, SceneTexture, model_wf};
use crate::node::{Node, node_wf};
use crate::particle::{ParticleSystem, system_wf};
use crate::pool::{UniformPool, pool_wf};

verus! {

/// Byte size of one per-object uniform block on the GPU (four vectors
/// of four 32-bit floats).
pub const LOCALS_BYTES: u64 = 64;

/// Byte size of the global camera uniform on the GPU (one 4x4 matrix
/// of 32-bit floats).
pub const GLOBALS_BYTES: u64 = 64;

/// Byte size of the light uniform on the GPU (two padded vectors).
pub const LIGHT_BYTES: u64 = 32;

/// Per-object uniform data: position offset, color, normal and light
/// parameters, each a four-component vector.
#[derive(Clone, Copy, Debug, PartialEq, Eq, Structural)]
pub struct Locals {
    pub position: V4,
    pub color: V4,
    pub normal: V4,
    pub lights: V4,
}

/// The single point light: where it sits and what color it casts.
#[derive(Clone, Copy, Debug, PartialEq, Eq, Structural)]
pub struct LightUniform {
    pub position: V3,
    pub color: V3,
}

impl LightUniform {
    /// The light as the scene starts: at two units along each axis,
    /// casting white.
    pub fn start() -> (l: LightUniform)
        ensures
            l.position == (V3 { x: 2_000_000, y: 2_000_000, z: 2_000_000 }),
            l.color == (V3 { x: 1_000_000, y: 1_000_000, z: 1_000_000 }),
    {
        LightUniform {
            position: V3 { x: 2_000_000, y: 2_000_000, z: 2_000_000 },
            color: V3 { x: 1_000_000, y: 1_000_000, z: 1_000_000 },
        }
    }

    /// Swing the light about the vertical axis by `angle`
    /// micro-radians, keeping it inside the world box.
    pub fn rotate_y(&mut self, angle: i64)
        requires
            v3_within(old(self).position, crate::alg::POS_CAP as int),
            0 <= angle <= crate::trig::TURN,
        ensures
            final(self).position.x == clamp_s(
                crate::alg::rot_y_x_s(old(self).position, angle as int),
                -crate::alg::POS_CAP as int,
                crate::alg::POS_CAP as int,
            ),
            final(self).position.y == old(self).position.y,
            final(self).position.z == clamp_s(
                crate::alg::rot_y_z_s(old(self).position, angle as int),
                -crate::alg::POS_CAP as int,
                crate::alg::POS_CAP as int,
            ),
            final(self).color == old(self).color,
            v3_within(final(self).position, crate::alg::POS_CAP as int),
    {
        let r = crate::alg::v3_rotate_y(self.position, angle);
        self.position = V3 {
            x: crate::fx::clamp(r.x, -crate::alg::POS_CAP, crate::alg::POS_CAP),
            y: r.y,
            z: crate::fx::clamp(r.z, -crate::alg::POS_CAP, crate::alg::POS_CAP),
        };
    }
}

/// Options the pass is built with.
pub struct PhongConfig {
    pub max_lights: usize,
    pub ambient: [u32; 4],
    pub wireframe: bool,
}

/// What the frame loop should do after a failed frame acquisition:
/// skip the transient frame, rebuild the surface, or stop.
#[derive(Clone, Copy, Debug, PartialEq, Eq, Structural)]
pub enum FrameAction {
    SkipFrame,
    Reconfigure,
    Fatal,
}

/// Classify a frame-acquisition failure: a lost swap chain asks for a
/// reconfigure and retry, exhausted memory is fatal, and a timed-out
/// or outdated frame is skipped.
pub fn classify_surface_error(kind: SurfaceErrorKind) -> (a: FrameAction)
    ensures
        a is SkipFrame <==> (kind is Timeout || kind is Outdated),
        a is Reconfigure <==> kind is Lost,
        a is Fatal <==> kind is OutOfMemory,
{
    match kind {
        SurfaceErrorKind::Timeout => FrameAction::SkipFrame,
        SurfaceErrorKind::Outdated => FrameAction::SkipFrame,
        SurfaceErrorKind::Lost => FrameAction::Reconfigure,
        SurfaceErrorKind::OutOfMemory => FrameAction::Fatal,
    }
}

/// Classify a raw surface error as handed back by the GPU layer.
pub fn frame_error_action(e: &wgpu::SurfaceError) -> (a: FrameAction)
    ensures
        a is SkipFrame <==> (e is Timeout || e is Outdated),
        a is Reconfigure <==> e is Lost,
        a is Fatal <==> e is OutOfMemory,
{
    classify_surface_error(surface_error_kind(e))
}

/// The GPU objects the pass is assembled from; building them is
/// descriptor plumbing that happens outside the verified core.
pub struct PassParts {
    pub global_uniform_buffer: wgpu::Buffer,
    pub global_bind_group: wgpu::BindGroup,
    pub local_bind_group_layout: wgpu::BindGroupLayout,
    pub light_buffer: wgpu::Buffer,
    pub render_pipeline: wgpu::RenderPipeline,
    pub light_render_pipeline: wgpu::RenderPipeline,
}

/// The pass orchestrator: global and per-object GPU bindings, the
/// uniform pool, the depth target, light and camera uniforms, and the
/// lazily built per-object caches.
pub struct PhongPass {
    pub global_uniform_buffer: wgpu::Buffer,
    pub global_bind_group: wgpu::BindGroup,
    pub local_bind_group_layout: wgpu::BindGroupLayout,
    /// One slot per drawn object: the bind groups built for it on its
    /// first frame (one per material), reused ever after.
    pub local_bind_groups: Vec<Option<Vec<wgpu::BindGroup>>>,
    pub uniform_pool: UniformPool,
    pub depth_texture: SceneTexture,
    pub render_pipeline: wgpu::RenderPipeline,
    pub light_uniform: LightUniform,
    pub light_buffer: wgpu::Buffer,
    pub light_render_pipeline: wgpu::RenderPipeline,
    pub camera_uniform: CameraUniform,
    /// One slot per node: its instance buffer, built on first use.
    pub instance_buffers: Vec<Option<wgpu::Buffer>>,
    pub light_model: Option<Model>,
}

/// The standing invariant of the pass.
pub open spec fn pass_wf(p: PhongPass) -> bool {
    &&& pool_wf(p.uniform_pool)
    &&& p.uniform_pool.buffer_size == LOCALS_BYTES
    &&& v3_within(p.light_uniform.position, crate::alg::POS_CAP as int)
    &&& match p.light_model {
        Some(m) => model_wf(m),
        None => true,
    }
}

impl PhongPass {
    /// Assemble the pass: an empty pool and caches, the light at its
    /// starting pose, the camera uniform built from the camera, and a
    /// depth target matching the surface.
    pub fn new(
        _config: &PhongConfig,
        device: &wgpu::Device,
        parts: PassParts,
        camera: &Camera,
        width: u32,
        height: u32,
        light_model: Option<Model>,
    ) -> (p: PhongPass)
        requires
            camera_wf(*camera),
            width >= 1,
            height >= 1,
            match light_model {
                Some(m) => model_wf(m),
                None => true,
            },
        ensures
            pass_wf(p),
            p.uniform_pool.buffers@.len() == 0,
            p.local_bind_groups@.len() == 0,
            p.instance_buffers@.len() == 0,
            p.light_uniform.position == (V3 { x: 2_000_000i64, y: 2_000_000i64, z: 2_000_000i64 }),
            mat_is_view_proj_s(*camera, p.camera_uniform.view_proj),
            texture_size_s(p.depth_texture.texture) == (width as int, height as int),
            p.light_model == light_model,
    {
        let depth_raw = create_depth_texture_raw(device, width, height);
        let depth_view = texture_create_view(&depth_raw);
        let mut camera_uniform = CameraUniform::new();
        camera_uniform.update_view_proj(camera);
        PhongPass {
            global_uniform_buffer: parts.global_uniform_buffer,
            global_bind_group: parts.global_bind_group,
            local_bind_group_layout: parts.local_bind_group_layout,
            local_bind_groups: Vec::new(),
            uniform_pool: UniformPool::new(LOCALS_BYTES),
            depth_texture: SceneTexture { texture: depth_raw, view: depth_view },
            render_pipeline: parts.render_pipeline,
            light_uniform: LightUniform::start(),
            light_buffer: parts.light_buffer,
            light_render_pipeline: parts.light_render_pipeline,
            camera_uniform,
            instance_buffers: Vec::new(),
            light_model,
        }
    }

    /// Rebuild the depth target for a new surface size.  Everything
    /// else in the pass is untouched.
    pub fn resize(&mut self, width: u32, height: u32, device: &wgpu::Device)
        requires
            pass_wf(*old(self)),
            width >= 1,
            height >= 1,
        ensures
            pass_wf(*final(self)),
            texture_size_s(final(self).depth_texture.texture) == (width as int, height as int),
            final(self).uniform_pool == old(self).uniform_pool,
            final(self).local_bind_groups == old(self).local_bind_groups,
            final(self).instance_buffers == old(self).instance_buffers,
            final(self).light_uniform == old(self).light_uniform,
            final(self).camera_uniform == old(self).camera_uniform,
            final(self).light_model == old(self).light_model,
    {
        let depth_raw = create_depth_texture_raw(device, width, height);
        let depth_view = texture_create_view(&depth_raw);
        self.depth_texture = SceneTexture { texture: depth_raw, view: depth_view };
    }
}

/// One bind group per material of a model, each bundling the object's
/// uniform slot with that material's texture.
fn build_local_groups(
    device: &wgpu::Device,
    layout: &wgpu::BindGroupLayout,
    buffer: &wgpu::Buffer,
    model: &Model,
) -> (gs: Vec<wgpu::BindGroup>)
    ensures
        gs@.len() == model.materials@.len(),
{
    let mut gs: Vec<wgpu::BindGroup> = Vec::new();
    let n = model.materials.len();
    let mut k: usize = 0;
    while k < n
        invariant
            k <= n,
            n == model.materials@.len(),
            gs@.len() == k,
        decreases n - k,
    {
        let mat = model.materials.get(k).unwrap();
        let g = create_local_bind_group(device, layout, buffer, &mat.diffuse_texture.view);
        gs.push(g);
        k = k + 1;
    }
    gs
}

impl PhongPass {
    /// Make every per-object resource for this frame's scene exist:
    /// grow the uniform pool to one slot per object, and build the
    /// bind groups and node instance buffers that are still missing.
    /// Existing slots are never touched, so bindings built in earlier
    /// frames stay valid.
    pub fn prepare_frame(
        &mut self,
        device: &wgpu::Device,
        nodes: &Vec<Node>,
        systems: &Vec<ParticleSystem>,
    )
        requires
            pass_wf(*old(self)),
            forall|i: int| 0 <= i < nodes@.len() ==> node_wf(#[trigger] nodes@[i]),
            forall|j: int| 0 <= j < systems@.len() ==> system_wf(#[trigger] systems@[j]),
            nodes@.len() + systems@.len() <= 1_000_000_000,
        ensures
            pass_wf(*final(self)),
            // The pool only grows, never reorders, and covers the scene.
            final(self).uniform_pool.buffers@.len() >= old(self).uniform_pool.buffers@.len(),
            final(self).uniform_pool.buffers@.len() >= nodes@.len() + systems@.len(),
            final(self).uniform_pool.buffers@.subrange(
                0,
                old(self).uniform_pool.buffers@.len() as int,
            ) == old(self).uniform_pool.buffers@,
            final(self).uniform_pool.buffer_size == old(self).uniform_pool.buffer_size,
            // Bind groups: existing slots are kept, missing ones built.
            final(self).local_bind_groups@.len() >= nodes@.len() + systems@.len(),
            forall|i: int| 0 <= i < old(self).local_bind_groups@.len()
                && old(self).local_bind_groups@[i] is Some
                ==> #[trigger] final(self).local_bind_groups@[i]
                    == old(self).local_bind_groups@[i],
            forall|i: int| 0 <= i < nodes@.len() + systems@.len()
                ==> (#[trigger] final(self).local_bind_groups@[i]) is Some,
            // A slot built this frame carries one bind group per
            // material of its object's model.
            forall|i: int| 0 <= i < nodes@.len()
                && (i >= old(self).local_bind_groups@.len()
                    || old(self).local_bind_groups@[i] is None)
                ==> ((#[trigger] final(self).local_bind_groups@[i])
                    matches Some(g) && g@.len() == nodes@[i].model.materials@.len()),
            forall|j: int| 0 <= j < systems@.len()
                && (nodes@.len() + j >= old(self).local_bind_groups@.len()
                    || old(self).local_bind_groups@[nodes@.len() + j] is None)
                ==> ((#[trigger] final(self).local_bind_groups@[nodes@.len() + j])
                    matches Some(g) && g@.len() == systems@[j].model.materials@.len()),
            // Node instance buffers: existing slots kept, missing built.
            final(self).instance_buffers@.len() >= nodes@.len(),
            forall|i: int| 0 <= i < old(self).instance_buffers@.len()
                && old(self).instance_buffers@[i] is Some
                ==> #[trigger] final(self).instance_buffers@[i]
                    == old(self).instance_buffers@[i],
            forall|i: int| 0 <= i < nodes@.len()
                ==> (#[trigger] final(self).instance_buffers@[i]) is Some,
            // Everything else is untouched.
            final(self).light_uniform == old(self).light_uniform,
            final(self).camera_uniform == old(self).camera_uniform,
            final(self).depth_texture == old(self).depth_texture,
            final(self).light_model == old(self).light_model,
    {
        let total = nodes.len() + systems.len();
        self.uniform_pool.alloc_buffers(total, device);
        // Per-object bind groups.
        let mut remaining: Vec<Option<Vec<wgpu::BindGroup>>> = Vec::new();
        std::mem::swap(&mut remaining, &mut self.local_bind_groups);
        let ghost orig: Seq<Option<Vec<wgpu::BindGroup>>> = remaining@;
        let ghost mid: PhongPass = *self;
        let old_len = remaining.len();
        let keep = if old_len > total { old_len } else { total };
        let mut rebuilt: Vec<Option<Vec<wgpu::BindGroup>>> = Vec::new();
        let mut i: usize = 0;
        while i < keep
            invariant
                i <= keep,
                keep == if old_len > total { old_len as int } else { total as int },
                old_len == orig.len(),
                total == nodes@.len() + systems@.len(),
                total <= 1_000_000_000,
                rebuilt@.len() == i,
                *self == mid,
                pass_wf(*self),
                self.uniform_pool.buffers@.len() >= total,
                forall|k: int| 0 <= k < nodes@.len() ==> node_wf(#[trigger] nodes@[k]),
                forall|k: int| 0 <= k < systems@.len() ==> system_wf(#[trigger] systems@[k]),
                remaining@ == if i <= orig.len() {
                    orig.skip(i as int)
                } else {
                    Seq::<Option<Vec<wgpu::BindGroup>>>::empty()
                },
                forall|j: int| 0 <= j < i && j < orig.len() && orig[j] is Some
                    ==> #[trigger] rebuilt@[j] == orig[j],
                forall|j: int| 0 <= j < i && j < total
                    ==> (#[trigger] rebuilt@[j]) is Some,
                forall|j: int| 0 <= j < i && j < nodes@.len()
                    && (j >= orig.len() || orig[j] is None)
                    ==> ((#[trigger] rebuilt@[j]) matches Some(g)
                        && g@.len() == nodes@[j].model.materials@.len()),
                forall|j: int| 0 <= j < i && nodes@.len() <= j < total
                    && (j >= orig.len() || orig[j] is None)
                    ==> ((#[trigger] rebuilt@[j]) matches Some(g)
                        && g@.len() == systems@[j - nodes@.len()].model.materials@.len()),
            decreases keep - i,
        {
            let prev: Option<Vec<wgpu::BindGroup>> = if remaining.len() > 0 {
                proof {
                    assert(orig.skip(i as int).remove(0) =~= orig.skip(i + 1int));
                }
                remaining.remove(0)
            } else {
                None
            };
            let slot: Option<Vec<wgpu::BindGroup>> = match prev {
                Some(g) => Some(g),
                None => {
                    if i < nodes.len() {
                        let node = nodes.get(i).unwrap();
                        Some(build_local_groups(
                            device,
                            &self.local_bind_group_layout,
                            self.uniform_pool.buffers.get(i).unwrap(),
                            &node.model,
                        ))
                    } else if i < total {
                        let sys = systems.get(i - nodes.len()).unwrap();
                        Some(build_local_groups(
                            device,
                            &self.local_bind_group_layout,
                            self.uniform_pool.buffers.get(i).unwrap(),
                            &sys.model,
                        ))
                    } else {
                        None
                    }
                },
            };
            rebuilt.push(slot);
            i = i + 1;
        }
        self.local_bind_groups = rebuilt;
        // Node instance buffers.
        let mut remaining_b: Vec<Option<wgpu::Buffer>> = Vec::new();
        std::mem::swap(&mut remaining_b, &mut self.instance_buffers);
        let ghost orig_b: Seq<Option<wgpu::Buffer>> = remaining_b@;
        let ghost mid_b: PhongPass = *self;
        let old_len_b = remaining_b.len();
        let keep_b = if old_len_b > nodes.len() { old_len_b } else { nodes.len() };
        let mut rebuilt_b: Vec<Option<wgpu::Buffer>> = Vec::new();
        let mut ib: usize = 0;
        while ib < keep_b
            invariant
                ib <= keep_b,
                keep_b == if old_len_b > nodes@.len() { old_len_b as int } else { nodes@.len() as int },
                old_len_b == orig_b.len(),
                rebuilt_b@.len() == ib,
                *self == mid_b,
                forall|k: int| 0 <= k < nodes@.len() ==> node_wf(#[trigger] nodes@[k]),
                remaining_b@ == if ib <= orig_b.len() {
                    orig_b.skip(ib as int)
                } else {
                    Seq::<Option<wgpu::Buffer>>::empty()
                },
                forall|j: int| 0 <= j < ib && j < orig_b.len() && orig_b[j] is Some
                    ==> #[trigger] rebuilt_b@[j] == orig_b[j],
                forall|j: int| 0 <= j < ib && j < nodes@.len()
                    ==> (#[trigger] rebuilt_b@[j]) is Some,
            decreases keep_b - ib,
        {
            let prev: Option<wgpu::Buffer> = if remaining_b.len() > 0 {
                proof {
                    assert(orig_b.skip(ib as int).remove(0) =~= orig_b.skip(ib + 1int));
                }
                remaining_b.remove(0)
            } else {
                None
            };
            let slot: Option<wgpu::Buffer> = match prev {
                Some(b) => Some(b),
                None => {
                    if ib < nodes.len() {
                        let node = nodes.get(ib).unwrap();
                        let size: u64 = (node.instances.len() as u64)
                            * crate::particle::RAW_INSTANCE_BYTES;
                        Some(create_gpu_buffer(device, size, BufferKind::Instance))
                    } else {
                        None
                    }
                },
            };
            rebuilt_b.push(slot);
            ib = ib + 1;
        }
        self.instance_buffers = rebuilt_b;
    }
}

/// The two pipelines a frame switches between.
#[derive(Clone, Copy, Debug, PartialEq, Eq, Structural)]
pub enum PipelineKind {
    Light,
    Main,
}

/// One step of a frame: what the render pass must do next.
#[derive(Clone, Copy, Debug, PartialEq, Eq, Structural)]
pub enum DrawCmd {
    /// Switch to the named pipeline.
    SetPipeline(PipelineKind),
    /// Bind the global camera/light/sampler bind group at slot zero.
    BindGlobal,
    /// Draw one mesh of the light model, once, with object slot zero's
    /// bindings.
    DrawLightMesh { mesh: usize },
    /// Bind a particle system's instance buffer.
    SetSystemInstances { system: usize },
    /// Bind a node's cached instance buffer.
    SetNodeInstances { node: usize },
    /// Draw one mesh of object `object`, instanced `instances` times,
    /// with the bind group of its material.
    DrawMesh { object: usize, mesh: usize, material: usize, instances: u32 },
}

/// The draw commands for the first `k` meshes of one object's model.
pub open spec fn mesh_cmds_s(m: Model, object: int, count: u32, k: int) -> Seq<DrawCmd>
    decreases k,
{
    if k <= 0 {
        Seq::empty()
    } else {
        mesh_cmds_s(m, object, count, k - 1).push(DrawCmd::DrawMesh {
            object: object as usize,
            mesh: (k - 1) as usize,
            material: m.meshes@[k - 1].material,
            instances: count,
        })
    }
}

/// The draw commands for the first `k` meshes of the light model.
pub open spec fn light_cmds_s(m: Model, k: int) -> Seq<DrawCmd>
    decreases k,
{
    if k <= 0 {
        Seq::empty()
    } else {
        light_cmds_s(m, k - 1).push(DrawCmd::DrawLightMesh { mesh: (k - 1) as usize })
    }
}

/// The draw commands for the first `j` particle systems: each binds
/// its own instance buffer, then draws every mesh of its model with
/// one instance per particle.
pub open spec fn systems_cmds_s(systems: Seq<ParticleSystem>, base: int, j: int) -> Seq<DrawCmd>
    decreases j,
{
    if j <= 0 {
        Seq::empty()
    } else {
        systems_cmds_s(systems, base, j - 1).push(DrawCmd::SetSystemInstances {
            system: (j - 1) as usize,
        }) + mesh_cmds_s(
            systems[j - 1].model,
            base + j - 1,
            systems[j - 1].instances@.len() as u32,
            systems[j - 1].model.meshes@.len() as int,
        )
    }
}

/// The draw commands for the first `j` nodes, in the same shape.
pub open spec fn nodes_cmds_s(nodes: Seq<Node>, j: int) -> Seq<DrawCmd>
    decreases j,
{
    if j <= 0 {
        Seq::empty()
    } else {
        nodes_cmds_s(nodes, j - 1).push(DrawCmd::SetNodeInstances {
            node: (j - 1) as usize,
        }) + mesh_cmds_s(
            nodes[j - 1].model,
            j - 1,
            nodes[j - 1].instances@.len() as u32,
            nodes[j - 1].model.meshes@.len() as int,
        )
    }
}

/// A whole frame, in its fixed order: the light model first under the
/// light pipeline, then under the main pipeline and global bindings
/// every particle system, then every node.
pub open spec fn frame_plan_s(
    light: Option<Model>,
    nodes: Seq<Node>,
    systems: Seq<ParticleSystem>,
) -> Seq<DrawCmd> {
    let lead = match light {
        Some(m) => seq![DrawCmd::SetPipeline(PipelineKind::Light)]
            + light_cmds_s(m, m.meshes@.len() as int),
        None => Seq::<DrawCmd>::empty(),
    };
    lead + seq![DrawCmd::SetPipeline(PipelineKind::Main), DrawCmd::BindGlobal]
        + systems_cmds_s(systems, nodes.len() as int, systems.len() as int)
        + seq![DrawCmd::SetPipeline(PipelineKind::Main), DrawCmd::BindGlobal]
        + nodes_cmds_s(nodes, nodes.len() as int)
}

/// Append the mesh draws of one object.
fn push_mesh_cmds(plan: &mut Vec<DrawCmd>, model: &Model, object: usize, count: u32)
    ensures
        final(plan)@ == old(plan)@
            + mesh_cmds_s(*model, object as int, count, model.meshes@.len() as int),
{
    let n = model.meshes.len();
    let mut k: usize = 0;
    proof {
        assert(plan@ =~= old(plan)@ + mesh_cmds_s(*model, object as int, count, 0));
    }
    while k < n
        invariant
            k <= n,
            n == model.meshes@.len(),
            plan@ == old(plan)@ + mesh_cmds_s(*model, object as int, count, k as int),
        decreases n - k,
    {
        let mesh = model.meshes.get(k).unwrap();
        plan.push(DrawCmd::DrawMesh {
            object,
            mesh: k,
            material: mesh.material,
            instances: count,
        });
        proof {
            assert(plan@ =~= old(plan)@ + mesh_cmds_s(*model, object as int, count, k + 1int));
        }
        k = k + 1;
    }
}

impl PhongPass {
    /// Lay out this frame's draw calls over the prepared resources.
    /// The plan is exactly the fixed frame order: the light model
    /// under the light pipeline, then all particle systems, then all
    /// nodes, each instanced and drawn mesh by mesh with its own
    /// material's bindings.
    pub fn build_draw_plan(
        &self,
        nodes: &Vec<Node>,
        systems: &Vec<ParticleSystem>,
    ) -> (plan: Vec<DrawCmd>)
        requires
            pass_wf(*self),
            forall|i: int| 0 <= i < nodes@.len() ==> node_wf(#[trigger] nodes@[i]),
            forall|j: int| 0 <= j < systems@.len() ==> system_wf(#[trigger] systems@[j]),
            nodes@.len() + systems@.len() <= 1_000_000_000,
            // The resources the plan refers to must already exist.
            self.uniform_pool.buffers@.len() >= nodes@.len() + systems@.len(),
            self.local_bind_groups@.len() >= nodes@.len() + systems@.len(),
            forall|i: int| 0 <= i < nodes@.len() + systems@.len()
                ==> (#[trigger] self.local_bind_groups@[i]) is Some,
            self.instance_buffers@.len() >= nodes@.len(),
            forall|i: int| 0 <= i < nodes@.len()
                ==> (#[trigger] self.instance_buffers@[i]) is Some,
        ensures
            plan@ == frame_plan_s(self.light_model, nodes@, systems@),
    {
        let mut plan: Vec<DrawCmd> = Vec::new();
        match &self.light_model {
            Some(m) => {
                plan.push(DrawCmd::SetPipeline(PipelineKind::Light));
                let n = m.meshes.len();
                let mut k: usize = 0;
                proof {
                    assert(plan@ =~= seq![DrawCmd::SetPipeline(PipelineKind::Light)]
                        + light_cmds_s(*m, 0));
                }
                while k < n
                    invariant
                        k <= n,
                        n == m.meshes@.len(),
                        plan@ == seq![DrawCmd::SetPipeline(PipelineKind::Light)]
                            + light_cmds_s(*m, k as int),
                    decreases n - k,
                {
                    plan.push(DrawCmd::DrawLightMesh { mesh: k });
                    proof {
                        assert(plan@ =~= seq![DrawCmd::SetPipeline(PipelineKind::Light)]
                            + light_cmds_s(*m, k + 1int));
                    }
                    k = k + 1;
                }
            },
            None => {},
        }
        let ghost lead: Seq<DrawCmd> = plan@;
        plan.push(DrawCmd::SetPipeline(PipelineKind::Main));
        plan.push(DrawCmd::BindGlobal);
        let ghost head: Seq<DrawCmd> = plan@;
        let mut j: usize = 0;
        let ns = systems.len();
        proof {
            assert(plan@ =~= head + systems_cmds_s(systems@, nodes@.len() as int, 0));
        }
        while j < ns
            invariant
                j <= ns,
                ns == systems@.len(),
                nodes@.len() + systems@.len() <= 1_000_000_000,
                forall|x: int| 0 <= x < systems@.len() ==> system_wf(#[trigger] systems@[x]),
                plan@ == head + systems_cmds_s(systems@, nodes@.len() as int, j as int),
            decreases ns - j,
        {
            let sys = systems.get(j).unwrap();
            plan.push(DrawCmd::SetSystemInstances { system: j });
            let count: u32 = sys.instances.len() as u32;
            push_mesh_cmds(&mut plan, &sys.model, nodes.len() + j, count);
            proof {
                assert(plan@ =~= head
                    + systems_cmds_s(systems@, nodes@.len() as int, j + 1int));
            }
            j = j + 1;
        }
        let ghost mid2: Seq<DrawCmd> = plan@;
        plan.push(DrawCmd::SetPipeline(PipelineKind::Main));
        plan.push(DrawCmd::BindGlobal);
        let ghost head2: Seq<DrawCmd> = plan@;
        let mut t: usize = 0;
        let nn = nodes.len();
        proof {
            assert(plan@ =~= head2 + nodes_cmds_s(nodes@, 0));
        }
        while t < nn
            invariant
                t <= nn,
                nn == nodes@.len(),
                forall|x: int| 0 <= x < nodes@.len() ==> node_wf(#[trigger] nodes@[x]),
                plan@ == head2 + nodes_cmds_s(nodes@, t as int),
            decreases nn - t,
        {
            let node = nodes.get(t).unwrap();
            plan.push(DrawCmd::SetNodeInstances { node: t });
            proof {
                assert(nodes@[t as int].instances@.len() <= 100_000_000);
            }
            let count: u32 = node.instances.len() as u32;
            push_mesh_cmds(&mut plan, &node.model, t, count);
            proof {
                assert(plan@ =~= head2 + nodes_cmds_s(nodes@, t + 1int));
            }
            t = t + 1;
        }
        proof {
            assert(plan@ =~= frame_plan_s(self.light_model, nodes@, systems@));
        }
        plan
    }
}

} // verus!
