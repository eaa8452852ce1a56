//! A verified core for a small real-time 3D scene renderer.
//!
//! All world-space quantities are carried in fixed-point micro-units
//! (`fx::FX_ONE` per world unit), so that camera motion, particle
//! kinematics, animation sampling and instance matrices can be reasoned
//! about exactly.  GPU resources (buffers, bind groups, textures) are
//! held as opaque handles and created through a small set of trusted
//! wrappers; everything that decides *what* is allocated, written and
//! drawn is verified.

pub mod alg;
pub mod camera;
pub mod fx;
pub mod gpu;
pub mod instance;
pub mod model;
pub mod node;
pub mod particle;
pub mod pass;
pub mod plane;
pub mod pool;
pub mod trig;

use vstd::prelude::*;

use crate::alg::{V3, V4};
use crate::camera::{Camera, CameraController, ControlKey, camera_wf, controller_wf,
    eye_after_s, mat_is_view_proj_s};
use crate::fx::{FX_ONE, clamp_s};
use crate::gpu::texture_size_s;
use crate::instance::Instance;
use crate::model::{Keyframes, Model, model_wf};
use crate::node::{Node, node_wf};
use crate::particle::{DT_CAP, ParticleSystem, step_rel_s, system_wf};
use crate::pass::{Locals, PhongPass, pass_wf};

verus! {

/// How far the light swings about the vertical axis each frame: one
/// degree, in micro-radians.
pub const LIGHT_STEP: i64 = 17_453;

/// The sampled animation position of a node at session time `t`: the
/// translation keyframe in effect in its first clip, with the fourth
/// uniform component kept; nodes without translation keyframes keep
/// their position.
pub open spec fn node_anim_pos_s(n: Node, t: u64) -> V4 {
    if n.model.animations@.len() > 0 {
        let clip = n.model.animations@[0];
        match clip.keyframes {
            Keyframes::Translation(frames) => {
                if frames@.len() > 0 {
                    let k = crate::model::kf_index_s(clip.timestamps@, t);
                    V4 {
                        x: frames@[k].x,
                        y: frames@[k].y,
                        z: frames@[k].z,
                        w: n.locals.position.w,
                    }
                } else {
                    n.locals.position
                }
            },
            Keyframes::Other => n.locals.position,
        }
    } else {
        n.locals.position
    }
}

/// The whole application state the frame loop drives: the pass, the
/// camera and its controller, the scene, and session time.
pub struct State {
    pub pass: PhongPass,
    pub size: (u32, u32),
    pub camera: Camera,
    pub camera_controller: CameraController,
    pub nodes: Vec<Node>,
    pub systems: Vec<ParticleSystem>,
    /// Microseconds of session time, driving animation sampling.
    pub time_micros: u64,
    pub last_mouse: (i64, i64),
    pub mouse_pressed: bool,
    pub scroll_delta: i64,
}

/// The standing invariant of the application state.
pub open spec fn state_wf(st: State) -> bool {
    &&& pass_wf(st.pass)
    &&& camera_wf(st.camera)
    &&& controller_wf(st.camera_controller)
    &&& forall|i: int| 0 <= i < st.nodes@.len() ==> node_wf(#[trigger] st.nodes@[i])
    &&& forall|j: int| 0 <= j < st.systems@.len() ==> system_wf(#[trigger] st.systems@[j])
    &&& st.nodes@.len() + st.systems@.len() <= 1_000_000_000
    &&& st.time_micros <= 0x3fff_ffff_ffff_ffff
    &&& -1_000_000_000_000 <= st.scroll_delta <= 1_000_000_000_000
}

impl State {
    /// Assemble the application state from its prepared pieces.
    pub fn new(
        pass: PhongPass,
        camera: Camera,
        camera_controller: CameraController,
        nodes: Vec<Node>,
        systems: Vec<ParticleSystem>,
        width: u32,
        height: u32,
    ) -> (st: State)
        requires
            pass_wf(pass),
            camera_wf(camera),
            controller_wf(camera_controller),
            forall|i: int| 0 <= i < nodes@.len() ==> node_wf(#[trigger] nodes@[i]),
            forall|j: int| 0 <= j < systems@.len() ==> system_wf(#[trigger] systems@[j]),
            nodes@.len() + systems@.len() <= 1_000_000_000,
        ensures
            state_wf(st),
            st.pass == pass,
            st.camera == camera,
            st.camera_controller == camera_controller,
            st.nodes == nodes,
            st.systems == systems,
            st.size == (width, height),
            st.time_micros == 0,
    {
        State {
            pass,
            size: (width, height),
            camera,
            camera_controller,
            nodes,
            systems,
            time_micros: 0,
            last_mouse: (0, 0),
            mouse_pressed: false,
            scroll_delta: 0,
        }
    }

    /// Track a window size change.  A degenerate size is a no-op: all
    /// prior state is kept.  A valid size updates the stored size, the
    /// camera's aspect ratio, and rebuilds the depth target at the new
    /// dimensions; nothing else changes.
    pub fn resize(&mut self, width: u32, height: u32, device: &wgpu::Device)
        requires
            state_wf(*old(self)),
        ensures
            state_wf(*final(self)),
            width == 0 || height == 0 ==> *final(self) == *old(self),
            width >= 1 && height >= 1 ==> {
                &&& final(self).size == (width, height)
                &&& final(self).camera.aspect
                    == (width as int * FX_ONE) / (height as int)
                &&& final(self).camera.eye == old(self).camera.eye
                &&& final(self).camera.target == old(self).camera.target
                &&& final(self).camera.up == old(self).camera.up
                &&& final(self).camera.fovy == old(self).camera.fovy
                &&& final(self).camera.znear == old(self).camera.znear
                &&& final(self).camera.zfar == old(self).camera.zfar
                &&& texture_size_s(final(self).pass.depth_texture.texture)
                    == (width as int, height as int)
                &&& final(self).pass.uniform_pool == old(self).pass.uniform_pool
                &&& final(self).pass.local_bind_groups == old(self).pass.local_bind_groups
                &&& final(self).pass.instance_buffers == old(self).pass.instance_buffers
                &&& final(self).pass.light_uniform == old(self).pass.light_uniform
                &&& final(self).pass.camera_uniform == old(self).pass.camera_uniform
                &&& final(self).pass.light_model == old(self).pass.light_model
                &&& final(self).nodes == old(self).nodes
                &&& final(self).systems == old(self).systems
                &&& final(self).camera_controller == old(self).camera_controller
                &&& final(self).time_micros == old(self).time_micros
            },
    {
        if width > 0 && height > 0 {
            self.size = (width, height);
            self.camera.set_aspect(width, height);
            self.pass.resize(width, height, device);
        }
    }

    /// Hand a key transition to the camera controller.
    pub fn keyboard(&mut self, key: ControlKey, pressed: bool) -> (handled: bool)
        requires
            state_wf(*old(self)),
        ensures
            state_wf(*final(self)),
            handled == !(key is Other),
            final(self).camera_controller.is_forward_pressed == if key is Forward {
                pressed
            } else {
                old(self).camera_controller.is_forward_pressed
            },
            final(self).camera_controller.is_backward_pressed == if key is Backward {
                pressed
            } else {
                old(self).camera_controller.is_backward_pressed
            },
            final(self).camera_controller.is_left_pressed == if key is Left {
                pressed
            } else {
                old(self).camera_controller.is_left_pressed
            },
            final(self).camera_controller.is_right_pressed == if key is Right {
                pressed
            } else {
                old(self).camera_controller.is_right_pressed
            },
            final(self).camera_controller.speed == old(self).camera_controller.speed,
            final(self).camera == old(self).camera,
            final(self).nodes == old(self).nodes,
            final(self).systems == old(self).systems,
            final(self).time_micros == old(self).time_micros,
    {
        self.camera_controller.process_events(key, pressed)
    }

    /// Record the pointer position, in micro-pixels.
    pub fn mouse_moved(&mut self, x: i64, y: i64)
        requires
            state_wf(*old(self)),
        ensures
            state_wf(*final(self)),
            final(self).last_mouse == (x, y),
            final(self).camera == old(self).camera,
            final(self).camera_controller == old(self).camera_controller,
            final(self).nodes == old(self).nodes,
            final(self).systems == old(self).systems,
    {
        self.last_mouse = (x, y);
    }

    /// Record whether the primary button is held.
    pub fn mouse_input(&mut self, pressed: bool)
        requires
            state_wf(*old(self)),
        ensures
            state_wf(*final(self)),
            final(self).mouse_pressed == pressed,
            final(self).camera == old(self).camera,
            final(self).camera_controller == old(self).camera_controller,
            final(self).nodes == old(self).nodes,
            final(self).systems == old(self).systems,
    {
        self.mouse_pressed = pressed;
    }

    /// Accumulate a scroll step, saturating at the working range.
    pub fn scroll(&mut self, delta: i64)
        requires
            state_wf(*old(self)),
            -1_000_000_000 <= delta <= 1_000_000_000,
        ensures
            state_wf(*final(self)),
            final(self).scroll_delta == clamp_s(
                old(self).scroll_delta + delta,
                -1_000_000_000_000,
                1_000_000_000_000,
            ),
            final(self).camera == old(self).camera,
            final(self).nodes == old(self).nodes,
            final(self).systems == old(self).systems,
    {
        self.scroll_delta = crate::fx::clamp(
            self.scroll_delta + delta,
            -1_000_000_000_000,
            1_000_000_000_000,
        );
    }

    /// One simulation tick of `dt` microseconds: integrate the held
    /// keys into the camera, rebuild the camera uniform, swing the
    /// light one degree, advance session time, sample every node's
    /// animation into its uniforms, and step every particle system.
    pub fn update(&mut self, dt: u64)
        requires
            state_wf(*old(self)),
            dt <= DT_CAP,
            old(self).time_micros + dt <= 0x3fff_ffff_ffff_ffff,
        ensures
            state_wf(*final(self)),
            // Camera: the controller's step, then the packed matrix.
            (
                final(self).camera.eye.x as int,
                final(self).camera.eye.y as int,
                final(self).camera.eye.z as int,
            ) == eye_after_s(old(self).camera, old(self).camera_controller),
            final(self).camera.target == old(self).camera.target,
            final(self).camera.aspect == old(self).camera.aspect,
            mat_is_view_proj_s(final(self).camera, final(self).pass.camera_uniform.view_proj),
            // Light: one degree about the vertical axis.
            final(self).pass.light_uniform.position.x == clamp_s(
                crate::alg::rot_y_x_s(old(self).pass.light_uniform.position, LIGHT_STEP as int),
                -crate::alg::POS_CAP as int,
                crate::alg::POS_CAP as int,
            ),
            final(self).pass.light_uniform.position.y
                == old(self).pass.light_uniform.position.y,
            final(self).pass.light_uniform.position.z == clamp_s(
                crate::alg::rot_y_z_s(old(self).pass.light_uniform.position, LIGHT_STEP as int),
                -crate::alg::POS_CAP as int,
                crate::alg::POS_CAP as int,
            ),
            // Time advances by exactly the frame step.
            final(self).time_micros == old(self).time_micros + dt,
            // Animation sampling into each node's uniforms.
            final(self).nodes@.len() == old(self).nodes@.len(),
            forall|i: int| 0 <= i < old(self).nodes@.len() ==> {
                &&& (#[trigger] final(self).nodes@[i]).locals.position
                    == node_anim_pos_s(old(self).nodes@[i], (old(self).time_micros + dt) as u64)
                &&& final(self).nodes@[i].locals.color == old(self).nodes@[i].locals.color
                &&& final(self).nodes@[i].locals.normal == old(self).nodes@[i].locals.normal
                &&& final(self).nodes@[i].locals.lights == old(self).nodes@[i].locals.lights
                &&& final(self).nodes@[i].parent == old(self).nodes@[i].parent
                &&& final(self).nodes@[i].model == old(self).nodes@[i].model
                &&& final(self).nodes@[i].instances == old(self).nodes@[i].instances
            },
            // Every particle system steps by dt.
            final(self).systems@.len() == old(self).systems@.len(),
            forall|j: int| 0 <= j < old(self).systems@.len() ==> {
                &&& (#[trigger] final(self).systems@[j]).instances@.len()
                    == old(self).systems@[j].instances@.len()
                &&& final(self).systems@[j].parent == old(self).systems@[j].parent
                &&& final(self).systems@[j].locals == old(self).systems@[j].locals
                &&& final(self).systems@[j].model == old(self).systems@[j].model
                &&& final(self).systems@[j].instance_buffer
                    == old(self).systems@[j].instance_buffer
                &&& forall|p: int| 0 <= p < old(self).systems@[j].instances@.len()
                    ==> step_rel_s(
                        old(self).systems@[j].instances@[p],
                        #[trigger] final(self).systems@[j].instances@[p],
                        dt as int,
                    )
            },
    {
        self.camera_controller.update_camera(&mut self.camera);
        self.pass.camera_uniform.update_view_proj(&self.camera);
        self.pass.light_uniform.rotate_y(LIGHT_STEP);
        self.time_micros = self.time_micros + dt;
        let t = self.time_micros;
        // Sample animations into each node's uniform block.
        let mut pending: Vec<Node> = Vec::new();
        std::mem::swap(&mut pending, &mut self.nodes);
        let ghost orig_nodes: Seq<Node> = pending@;
        let mut done: Vec<Node> = Vec::new();
        let mut i: usize = 0;
        let n = pending.len();
        while i < n
            invariant
                i <= n,
                n == orig_nodes.len(),
                pending@ == orig_nodes.skip(i as int),
                done@.len() == i,
                forall|k: int| 0 <= k < orig_nodes.len() ==> node_wf(#[trigger] orig_nodes[k]),
                forall|j: int| 0 <= j < i ==> node_wf(#[trigger] done@[j]),
                forall|j: int| 0 <= j < i ==> {
                    &&& (#[trigger] done@[j]).locals.position == node_anim_pos_s(orig_nodes[j], t)
                    &&& done@[j].locals.color == orig_nodes[j].locals.color
                    &&& done@[j].locals.normal == orig_nodes[j].locals.normal
                    &&& done@[j].locals.lights == orig_nodes[j].locals.lights
                    &&& done@[j].parent == orig_nodes[j].parent
                    &&& done@[j].model == orig_nodes[j].model
                    &&& done@[j].instances == orig_nodes[j].instances
                },
            decreases n - i,
        {
            proof {
                assert(orig_nodes.skip(i as int).remove(0) =~= orig_nodes.skip(i + 1int));
            }
            let mut node = pending.remove(0);
            if node.model.animations.len() > 0 {
                let sampled = crate::model::sample_translation(
                    node.model.animations.get(0).unwrap(),
                    t,
                );
                match sampled {
                    Some(v) => {
                        node.locals.position = V4 {
                            x: v.x,
                            y: v.y,
                            z: v.z,
                            w: node.locals.position.w,
                        };
                    },
                    None => {},
                }
            }
            done.push(node);
            i = i + 1;
        }
        self.nodes = done;
        // Step every particle system.
        let mut pending_s: Vec<ParticleSystem> = Vec::new();
        std::mem::swap(&mut pending_s, &mut self.systems);
        let ghost orig_systems: Seq<ParticleSystem> = pending_s@;
        let mut done_s: Vec<ParticleSystem> = Vec::new();
        let mut j: usize = 0;
        let m = pending_s.len();
        while j < m
            invariant
                j <= m,
                m == orig_systems.len(),
                pending_s@ == orig_systems.skip(j as int),
                done_s@.len() == j,
                dt <= DT_CAP,
                forall|k: int| 0 <= k < orig_systems.len()
                    ==> system_wf(#[trigger] orig_systems[k]),
                forall|k: int| 0 <= k < j ==> system_wf(#[trigger] done_s@[k]),
                forall|k: int| 0 <= k < j ==> {
                    &&& (#[trigger] done_s@[k]).instances@.len()
                        == orig_systems[k].instances@.len()
                    &&& done_s@[k].parent == orig_systems[k].parent
                    &&& done_s@[k].locals == orig_systems[k].locals
                    &&& done_s@[k].model == orig_systems[k].model
                    &&& done_s@[k].instance_buffer == orig_systems[k].instance_buffer
                    &&& forall|p: int| 0 <= p < orig_systems[k].instances@.len()
                        ==> step_rel_s(
                            orig_systems[k].instances@[p],
                            #[trigger] done_s@[k].instances@[p],
                            dt as int,
                        )
                },
            decreases m - j,
        {
            proof {
                assert(orig_systems.skip(j as int).remove(0) =~= orig_systems.skip(j + 1int));
            }
            let mut sys = pending_s.remove(0);
            sys.update(dt);
            done_s.push(sys);
            j = j + 1;
        }
        self.systems = done_s;
    }
}

/// The two placed scene objects the session starts with: each model
/// one unit above the origin, tilted a forty-five degree turn about
/// the vertical, at unit scale.
pub fn default_scene_nodes(first: Model, second: Model) -> (nodes: Vec<Node>)
    requires
        model_wf(first),
        model_wf(second),
    ensures
        nodes@.len() == 2,
        node_wf(nodes@[0]),
        node_wf(nodes@[1]),
        nodes@[0].model == first,
        nodes@[1].model == second,
        nodes@[0].parent == 0 && nodes@[1].parent == 0,
        nodes@[0].locals.position == (V4 { x: 0i64, y: 0i64, z: -200_000i64, w: 0i64 }),
        nodes@[1].locals.position == (V4 { x: 0i64, y: 0i64, z: 0i64, w: 0i64 }),
        nodes@[0].instances@.len() == 1,
        nodes@[1].instances@.len() == 1,
        nodes@[0].instances@[0].position == (V3 { x: 0i64, y: 1_000_000i64, z: 0i64 }),
        nodes@[0].instances@[0].scale
            == (V3 { x: 1_000_000i64, y: 1_000_000i64, z: 1_000_000i64 }),
        nodes@[1].instances@[0] == nodes@[0].instances@[0],
{
    let up_axis = V3 { x: 0, y: 1_000_000, z: 0 };
    let rotation = crate::alg::quat_from_axis_angle(up_axis, 785_398);
    let inst = Instance {
        position: V3 { x: 0, y: 1_000_000, z: 0 },
        rotation,
        scale: V3 { x: 1_000_000, y: 1_000_000, z: 1_000_000 },
    };
    let zero4 = V4 { x: 0, y: 0, z: 0, w: 0 };
    let mut first_instances: Vec<Instance> = Vec::new();
    first_instances.push(inst);
    let mut second_instances: Vec<Instance> = Vec::new();
    second_instances.push(inst);
    let first_node = Node {
        parent: 0,
        locals: Locals {
            position: V4 { x: 0, y: 0, z: -200_000, w: 0 },
            color: zero4,
            normal: zero4,
            lights: zero4,
        },
        model: first,
        instances: first_instances,
    };
    let second_node = Node {
        parent: 0,
        locals: Locals { position: zero4, color: zero4, normal: zero4, lights: zero4 },
        model: second,
        instances: second_instances,
    };
    let mut nodes: Vec<Node> = Vec::new();
    nodes.push(first_node);
    nodes.push(second_node);
    nodes
}

} // verus!
