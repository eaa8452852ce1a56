//! Particle systems: a constant-size population of short-lived
//! instances, each either drifting along a random direction or
//! orbiting one of two fixed anchors, resampled in place when its
//! lifetime runs out.

use vstd::prelude::*;
use vstd::arithmetic::div_mod::{
    lemma_div_is_ordered, lemma_div_multiples_vanish, lemma_div_pos_is_pos,
};
use crate::alg::{
    POS_CAP, Quat, V3, lemma_sqrt_s, quat_from_axis_angle, quat_mul, quat_within, sqrt_s,
    v3_within,
};
use crate::fx::{FX_ONE, clamp_s, fx_mul, fx_mul_s, fx_product_cap, lemma_fx_mul_fits, mul_div_floor};
use crate::gpu::{BufferKind, buffer_size_s, create_gpu_buffer, queue_write_buffer};
use crate::instance::{Instance, InstanceRaw, instance_wf, raw_matches_s};
use crate::model::{Model, model_wf};
use crate::node::{Node, node_wf};
use crate::pass::Locals;
use crate::trig::{HALF_TURN, TURN, cos_at, cos_fx, lemma_sin_half_props, norm_angle, sin_at, sin_fx, sin_half_s};

verus! {

pub assume_specification<T>[ rand::random::<T> ]() -> (r: T)
    where
        rand::distributions::Standard: rand::distributions::Distribution<T>,
;

/// Orbit radius around a wheel anchor, and the reference distance for
/// the drift kinematics.
pub const RADIUS: i64 = 300_000;

/// The population size of every particle system.
pub const MAX_PARTICLES: usize = 800;

/// Bytes one packed instance occupies in the GPU instance buffer
/// (a 4x4 matrix of 32-bit floats).
pub const RAW_INSTANCE_BYTES: u64 = 64;

/// Longest drift-particle lifetime, in microseconds.
pub const MOVE_LIFE_CAP: u64 = 800_000;

/// Longest orbit-particle lifetime, in microseconds.
pub const ROT_LIFE_CAP: u64 = 2_000_000;

/// Largest frame step the simulation accepts, in microseconds.
pub const DT_CAP: u64 = 10_000_000;

/// The left spawn anchor.
pub open spec fn wheel_left_s() -> V3 {
    V3 { x: 660_000i64, y: 0i64, z: -980_000i64 }
}

/// The right spawn anchor.
pub open spec fn wheel_right_s() -> V3 {
    V3 { x: -660_000i64, y: 0i64, z: -980_000i64 }
}

/// How a particle moves: a straight drift along a fixed random
/// direction, or an orbit (phase and anchor) of fixed radius.
#[derive(Clone, Copy, Debug)]
pub enum ParticleType {
    Movement(V3),
    Rotation((i64, V3)),
}

/// One live particle: its drawn instance, its `(elapsed, total)`
/// lifetime in microseconds, and its kinematics.
#[derive(Clone, Copy, Debug)]
pub struct Particle {
    pub instance: Instance,
    pub lifetime: (u64, u64),
    pub ty: ParticleType,
}

/// Longest lifetime the spawn distribution can hand a particle of the
/// given kind: the support of the lifetime draw.
pub open spec fn lifetime_cap_s(ty: ParticleType) -> int {
    match ty {
        ParticleType::Movement(_) => MOVE_LIFE_CAP as int,
        ParticleType::Rotation(_) => ROT_LIFE_CAP as int,
    }
}

/// The per-kind factor on the visual scale envelope.
pub open spec fn scale_factor_s(ty: ParticleType) -> int {
    match ty {
        ParticleType::Movement(_) => 50_000,
        ParticleType::Rotation(_) => 10_000,
    }
}

/// Height of an orbiting particle at the given phase.
pub open spec fn orbit_y_s(center: V3, angle: int) -> int {
    center.y + fx_mul_s(RADIUS as int, cos_at(angle))
}

/// Depth of an orbiting particle at the given phase.
pub open spec fn orbit_z_s(center: V3, angle: int) -> int {
    center.z + fx_mul_s(RADIUS as int, sin_at(angle))
}

/// The lifecycle envelope: the half-turn sine of how far through its
/// life the particle is.  Zero at birth and death, strictly positive
/// strictly in between.
pub open spec fn envelope_s(e: int, t: int) -> int {
    if t <= 0 {
        0
    } else {
        sin_half_s((e * HALF_TURN) / t)
    }
}

/// The visual scale at `e` of `t` microseconds through a life: the
/// envelope under the per-kind factor, over a small constant base.
pub open spec fn scale_value_s(e: int, t: int, ty: ParticleType) -> int {
    fx_mul_s(envelope_s(e, t), scale_factor_s(ty)) + 10_000
}

/// What every freshly sampled particle looks like: life not yet begun,
/// lifetime inside the draw's support, scale zero, and its position
/// determined by its kinematics and anchor.
pub open spec fn spawned_s(p: Particle) -> bool {
    &&& p.lifetime.0 == 0
    &&& p.lifetime.1 <= lifetime_cap_s(p.ty)
    &&& p.instance.scale == (V3 { x: 0, y: 0, z: 0 })
    &&& match p.ty {
        ParticleType::Movement(dir) => {
            &&& -200_000 <= dir.x <= 200_000
            &&& -200_000 <= dir.y <= 200_000
            &&& dir.z == -FX_ONE
            &&& (p.instance.position == (V3 { x: 660_000i64, y: -250_000i64, z: -980_000i64 })
                || p.instance.position == (V3 { x: -660_000i64, y: -250_000i64, z: -980_000i64 }))
        },
        ParticleType::Rotation((angle, center)) => {
            &&& center == wheel_left_s() || center == wheel_right_s()
            &&& 0 <= angle < TURN
            &&& p.instance.position.x == center.x - 50_000
                || p.instance.position.x == center.x + 50_000
            &&& p.instance.position.y == orbit_y_s(center, angle as int)
            &&& p.instance.position.z == orbit_z_s(center, angle as int)
        },
    }
}

/// The standing invariant of a live particle.
pub open spec fn particle_wf(p: Particle) -> bool {
    &&& instance_wf(p.instance)
    &&& p.lifetime.1 <= ROT_LIFE_CAP
    &&& p.lifetime.0 <= DT_CAP + ROT_LIFE_CAP
    &&& match p.ty {
        ParticleType::Movement(dir) => v3_within(dir, FX_ONE as int),
        ParticleType::Rotation((angle, center)) => {
            &&& 0 <= angle < TURN
            &&& (center == wheel_left_s() || center == wheel_right_s())
        },
    }
}

/// A uniform draw below `m`.
fn rand_below(m: u32) -> (r: u32)
    requires
        m > 0,
    ensures
        r < m,
{
    rand::random::<u32>() % m
}

/// A uniformly drawn rotation about one axis.
fn rand_axis_quat(axis: V3) -> (q: Quat)
    requires
        v3_within(axis, FX_ONE as int),
    ensures
        quat_within(q, 1_000_001),
{
    let a: i64 = rand_below(TURN as u32) as i64;
    quat_from_axis_angle(axis, a)
}

/// A random tumbling orientation: three random axis rotations
/// composed.
fn rand_orientation() -> (q: Quat)
    ensures
        quat_within(q, 170_000_000),
{
    let qx = rand_axis_quat(V3 { x: FX_ONE, y: 0, z: 0 });
    let qy = rand_axis_quat(V3 { x: 0, y: FX_ONE, z: 0 });
    let qz = rand_axis_quat(V3 { x: 0, y: 0, z: FX_ONE });
    let qxy = quat_mul(qx, qy);
    quat_mul(qxy, qz)
}

/// Whether a drifting particle has passed behind the wheel line.
pub open spec fn is_back_s(pos: V3) -> bool {
    pos.z < -1_430_000
}

/// Whether a drifting particle has sunk below the half-radius line.
pub open spec fn is_bottom_s(pos: V3) -> bool {
    pos.y < -150_000
}

/// Height after the gravity-like correction: particles behind the
/// wheel line rise with the square root of their depth.
pub open spec fn drift_y1_s(pos: V3, dt: int) -> int {
    if is_back_s(pos) {
        pos.y + fx_mul_s(dt, sqrt_s(-pos.z * FX_ONE))
    } else {
        pos.y as int
    }
}

/// Where a drifting particle lands after one step of `dt`
/// microseconds: the vertical correction, then the translation along
/// its direction, then the floor at `-RADIUS`, clamped to the world
/// box.
pub open spec fn drift_pos_s(pos: V3, dir: V3, dt: int) -> (int, int, int) {
    let y1 = drift_y1_s(pos, dt);
    let moved = is_bottom_s(pos) || is_back_s(pos);
    let x2 = if moved { pos.x + fx_mul_s(dir.x as int, 4 * dt) } else { pos.x as int };
    let y2 = if moved { y1 + fx_mul_s(dir.y as int, 4 * dt) } else { y1 };
    let z2 = if moved { pos.z + fx_mul_s(dir.z as int, 4 * dt) } else { pos.z as int };
    let y3 = if y2 < -RADIUS { -RADIUS as int } else { y2 };
    (
        clamp_s(x2, -POS_CAP as int, POS_CAP as int),
        clamp_s(y3, -POS_CAP as int, POS_CAP as int),
        clamp_s(z2, -POS_CAP as int, POS_CAP as int),
    )
}

/// How one simulation step relates a particle to its successor: a
/// particle whose life would run out is resampled from scratch;
/// otherwise its life advances, it moves by its kinematics, and its
/// visual scale follows the lifecycle envelope.
pub open spec fn step_rel_s(p0: Particle, p1: Particle, dt: int) -> bool {
    if p0.lifetime.0 + dt > p0.lifetime.1 {
        spawned_s(p1)
    } else {
        &&& p1.lifetime.0 == p0.lifetime.0 + dt
        &&& p1.lifetime.1 == p0.lifetime.1
        &&& p1.instance.rotation == p0.instance.rotation
        &&& p1.instance.scale.x
            == scale_value_s(p0.lifetime.0 + dt, p0.lifetime.1 as int, p0.ty)
        &&& p1.instance.scale.y == p1.instance.scale.x
        &&& p1.instance.scale.z == p1.instance.scale.x
        &&& match p0.ty {
            ParticleType::Movement(dir) => {
                &&& p1.ty == p0.ty
                &&& (
                    p1.instance.position.x as int,
                    p1.instance.position.y as int,
                    p1.instance.position.z as int,
                ) == drift_pos_s(p0.instance.position, dir, dt)
            },
            ParticleType::Rotation((angle, center)) => {
                let a1 = (angle + 8 * dt) % (TURN as int);
                &&& p1.ty == ParticleType::Rotation((a1 as i64, center))
                &&& p1.instance.position.x == center.x
                &&& p1.instance.position.y == orbit_y_s(center, a1)
                &&& p1.instance.position.z == orbit_z_s(center, a1)
            },
        }
    }
}

/// The lifecycle envelope is zero exactly at birth and death and
/// strictly positive strictly in between, and the visual scale is the
/// envelope under the per-kind factor plus the constant base, always
/// within `[10_000, 60_000]`.
pub proof fn lemma_scale_envelope(e: int, t: int, ty: ParticleType)
    requires
        0 <= e <= t,
        1 <= t <= ROT_LIFE_CAP,
    ensures
        e == 0 ==> envelope_s(e, t) == 0,
        e == t ==> envelope_s(e, t) == 0,
        0 < e < t ==> envelope_s(e, t) >= 1,
        0 <= envelope_s(e, t) <= FX_ONE,
        scale_value_s(e, t, ty)
            == fx_mul_s(envelope_s(e, t), scale_factor_s(ty)) + 10_000,
        10_000 <= scale_value_s(e, t, ty) <= 60_000,
{
    let h = HALF_TURN as int;
    let x = (e * h) / t;
    assert(e * h >= 0) by (nonlinear_arith)
        requires e >= 0 && h > 0;
    lemma_div_pos_is_pos(e * h, t);
    assert(e * h <= t * h) by (nonlinear_arith)
        requires e <= t && h > 0;
    lemma_div_is_ordered(e * h, t * h, t);
    assert(t * h == h * t) by (nonlinear_arith);
    lemma_div_multiples_vanish(h, t);
    assert(0 <= x <= h);
    lemma_sin_half_props(x);
    if e == 0 {
        assert(0int * h == 0) by (nonlinear_arith);
        assert(x == 0) by {
            lemma_div_pos_is_pos(0, t);
            lemma_div_is_ordered(0, 0, t);
            assert(0int / t == 0) by {
                lemma_div_multiples_vanish(0, t);
                assert(0int * t == 0) by (nonlinear_arith);
            }
        }
    }
    if e == t {
        assert(x == h);
    }
    if 0 < e < t {
        assert(e * h >= h) by (nonlinear_arith)
            requires e >= 1 && h > 0;
        assert(t <= e * h);
        lemma_div_is_ordered(t, e * h, t);
        lemma_div_multiples_vanish(1, t);
        assert(1int * t == t) by (nonlinear_arith);
        assert(x >= 1);
        assert(e * h <= t * h - h) by (nonlinear_arith)
            requires e <= t - 1 && h > 0;
        assert(t * (h - 1) + (t - 1) == t * h - 1) by (nonlinear_arith);
        vstd::arithmetic::div_mod::lemma_div_multiples_vanish_fancy(h - 1, t - 1, t);
        lemma_div_is_ordered(e * h, t * h - 1, t);
        assert(x <= h - 1);
        assert(envelope_s(e, t) >= 1);
    }
    let env = envelope_s(e, t);
    let f = scale_factor_s(ty);
    lemma_fx_mul_fits(env, f, 1_000_000, 50_000);
    assert((1_000_000 * 50_000int) / 1_000_000 == 50_000) by (nonlinear_arith);
    assert(env * f >= 0) by (nonlinear_arith)
        requires env >= 0 && f >= 0;
    lemma_div_pos_is_pos(env * f, FX_ONE as int);
}

/// One simulation step of a single particle.
pub fn step_particle(p: &Particle, dt: u64) -> (q: Particle)
    requires
        particle_wf(*p),
        dt <= DT_CAP,
    ensures
        particle_wf(q),
        step_rel_s(*p, q, dt as int),
{
    let e1: u64 = p.lifetime.0 + dt;
    if e1 > p.lifetime.1 {
        return ParticleSystem::new_particle();
    }
    let t: u64 = p.lifetime.1;
    let env: i64 = if t == 0 {
        0
    } else {
        proof {
            assert((e1 as int) * (HALF_TURN as int) >= 0) by (nonlinear_arith)
                requires e1 >= 0;
            assert((e1 as int) * (HALF_TURN as int) <= fx_product_cap()) by (nonlinear_arith)
                requires e1 <= 2_000_000;
            lemma_div_pos_is_pos((e1 as int) * (HALF_TURN as int), t as int);
            assert((e1 as int) * (HALF_TURN as int) <= (t as int) * (HALF_TURN as int))
                by (nonlinear_arith)
                requires e1 <= t;
            lemma_div_is_ordered(
                (e1 as int) * (HALF_TURN as int),
                (t as int) * (HALF_TURN as int),
                t as int,
            );
            assert((t as int) * (HALF_TURN as int) == (HALF_TURN as int) * (t as int))
                by (nonlinear_arith);
            lemma_div_multiples_vanish(HALF_TURN as int, t as int);
        }
        let x = mul_div_floor(e1 as i64, HALF_TURN, t as i64);
        crate::trig::sin_half(x)
    };
    let factor: i64 = match p.ty {
        ParticleType::Movement(_) => 50_000,
        ParticleType::Rotation(_) => 10_000,
    };
    proof {
        lemma_fx_mul_fits(env as int, factor as int, 1_000_000, 50_000);
        assert((1_000_000 * 50_000int) / 1_000_000 == 50_000) by (nonlinear_arith);
        assert((env as int) * (factor as int) >= 0) by (nonlinear_arith)
            requires env >= 0 && factor >= 0;
        lemma_div_pos_is_pos((env as int) * (factor as int), FX_ONE as int);
    }
    let sc: i64 = fx_mul(env, factor) + 10_000;
    let scale = V3 { x: sc, y: sc, z: sc };
    match p.ty {
        ParticleType::Movement(dir) => {
            let pos = p.instance.position;
            let back = pos.z < -1_430_000;
            let bottom = pos.y < -150_000;
            let y1: i64 = if back {
                let nz: i64 = -pos.z;
                let arg: u64 = (nz as u64) * 1_000_000;
                let sq: u64 = crate::fx::isqrt(arg);
                proof {
                    lemma_sqrt_s(arg as int, sq as int);
                    assert(sq <= 20_000_001) by (nonlinear_arith)
                        requires
                            (sq as int) * (sq as int) <= 400_000_000_000_000int,
                    ;
                    lemma_fx_mul_fits(dt as int, sq as int, DT_CAP as int, 20_000_001);
                    assert((10_000_000 * 20_000_001int) / 1_000_000 == 200_000_010)
                        by (nonlinear_arith);
                }
                pos.y + fx_mul(dt as i64, sq as i64)
            } else {
                pos.y
            };
            let moved = bottom || back;
            let k: i64 = 4 * (dt as i64);
            proof {
                lemma_fx_mul_fits(dir.x as int, k as int, FX_ONE as int, 40_000_000);
                lemma_fx_mul_fits(dir.y as int, k as int, FX_ONE as int, 40_000_000);
                lemma_fx_mul_fits(dir.z as int, k as int, FX_ONE as int, 40_000_000);
                assert((1_000_000 * 40_000_000int) / 1_000_000 == 40_000_000)
                    by (nonlinear_arith);
            }
            let x2: i64 = if moved { pos.x + fx_mul(dir.x, k) } else { pos.x };
            let y2: i64 = if moved { y1 + fx_mul(dir.y, k) } else { y1 };
            let z2: i64 = if moved { pos.z + fx_mul(dir.z, k) } else { pos.z };
            let y3: i64 = if y2 < -RADIUS { -RADIUS } else { y2 };
            let position = V3 {
                x: crate::fx::clamp(x2, -POS_CAP, POS_CAP),
                y: crate::fx::clamp(y3, -POS_CAP, POS_CAP),
                z: crate::fx::clamp(z2, -POS_CAP, POS_CAP),
            };
            Particle {
                instance: Instance { position, rotation: p.instance.rotation, scale },
                lifetime: (e1, t),
                ty: p.ty,
            }
        },
        ParticleType::Rotation((angle, center)) => {
            let a1 = norm_angle(angle + 8 * (dt as i64));
            let c = cos_fx(a1);
            let sn = sin_fx(a1);
            proof {
                lemma_fx_mul_fits(RADIUS as int, c as int, RADIUS as int, FX_ONE as int);
                lemma_fx_mul_fits(RADIUS as int, sn as int, RADIUS as int, FX_ONE as int);
                assert((300_000 * 1_000_000int) / 1_000_000 == 300_000) by (nonlinear_arith);
            }
            let position = V3 {
                x: center.x,
                y: center.y + fx_mul(RADIUS, c),
                z: center.z + fx_mul(RADIUS, sn),
            };
            Particle {
                instance: Instance { position, rotation: p.instance.rotation, scale },
                lifetime: (e1, t),
                ty: ParticleType::Rotation((a1, center)),
            }
        },
    }
}

/// A particle system: the shared model and per-object uniforms of the
/// puffs, the live population, and the GPU instance buffer mirroring
/// it.
pub struct ParticleSystem {
    /// Id of the node this system follows.
    pub parent: u32,
    /// Per-object uniform block shared by the whole population.
    pub locals: Locals,
    /// The mesh and material every particle is drawn with.
    pub model: Model,
    /// The live population; its size never changes.
    pub instances: Vec<Particle>,
    /// The GPU buffer the packed population is uploaded into.
    pub instance_buffer: wgpu::Buffer,
}

/// The standing invariant of a particle system: a well-formed model,
/// a constant-size population of well-formed particles, and an
/// instance buffer sized for exactly that population.
pub open spec fn system_wf(sys: ParticleSystem) -> bool {
    &&& model_wf(sys.model)
    &&& sys.instances@.len() == MAX_PARTICLES
    &&& forall|i: int| 0 <= i < sys.instances@.len()
        ==> particle_wf(#[trigger] sys.instances@[i])
    &&& buffer_size_s(sys.instance_buffer)
        == sys.instances@.len() * (RAW_INSTANCE_BYTES as int)
}

impl ParticleSystem {
    /// Sample a brand-new particle: kinematics kind, anchor, direction
    /// or phase, and lifetime all freshly drawn.
    pub fn new_particle() -> (p: Particle)
        ensures
            spawned_s(p),
            particle_wf(p),
    {
        let dir = V3 {
            x: rand_below(400_001) as i64 - 200_000,
            y: rand_below(400_001) as i64 - 200_000,
            z: -FX_ONE,
        };
        let center = if rand_below(2) == 0 {
            V3 { x: 660_000, y: 0, z: -980_000 }
        } else {
            V3 { x: -660_000, y: 0, z: -980_000 }
        };
        let rotation = rand_orientation();
        let unit_draw: i64 = rand_below(1_000_000) as i64;
        if rand_below(10) < 9 {
            let total = mul_div_floor(unit_draw, 4, 5);
            proof {
                lemma_div_pos_is_pos(unit_draw * 4, 5);
                lemma_div_is_ordered(unit_draw * 4, 4_000_000, 5);
            }
            Particle {
                instance: Instance {
                    position: V3 { x: center.x, y: center.y - RADIUS + 50_000, z: center.z },
                    rotation,
                    scale: V3 { x: 0, y: 0, z: 0 },
                },
                lifetime: (0, total as u64),
                ty: ParticleType::Movement(dir),
            }
        } else {
            let step: i64 = rand_below(91) as i64;
            let angle = norm_angle(-(step * 34_906));
            let c = cos_fx(angle);
            let sn = sin_fx(angle);
            proof {
                lemma_fx_mul_fits(RADIUS as int, c as int, RADIUS as int, FX_ONE as int);
                lemma_fx_mul_fits(RADIUS as int, sn as int, RADIUS as int, FX_ONE as int);
                assert((300_000 * 1_000_000int) / 1_000_000 == 300_000) by (nonlinear_arith);
            }
            let x = if center.x >= 0 { center.x - 50_000 } else { center.x + 50_000 };
            Particle {
                instance: Instance {
                    position: V3 {
                        x,
                        y: center.y + fx_mul(RADIUS, c),
                        z: center.z + fx_mul(RADIUS, sn),
                    },
                    rotation,
                    scale: V3 { x: 0, y: 0, z: 0 },
                },
                lifetime: (0, (unit_draw as u64) * 2),
                ty: ParticleType::Rotation((angle, center)),
            }
        }
    }

    /// Build a system over a node's model and uniforms: a full
    /// population of freshly sampled particles and an instance buffer
    /// sized for exactly that population.
    pub fn new(device: &wgpu::Device, node: Node) -> (sys: ParticleSystem)
        requires
            node_wf(node),
        ensures
            system_wf(sys),
            sys.parent == node.parent,
            sys.locals == node.locals,
            sys.model == node.model,
            forall|i: int| 0 <= i < sys.instances@.len()
                ==> spawned_s(#[trigger] sys.instances@[i]),
    {
        let mut particles: Vec<Particle> = Vec::new();
        while particles.len() < MAX_PARTICLES
            invariant
                particles@.len() <= MAX_PARTICLES,
                forall|i: int| 0 <= i < particles@.len()
                    ==> spawned_s(#[trigger] particles@[i]),
                forall|i: int| 0 <= i < particles@.len()
                    ==> particle_wf(#[trigger] particles@[i]),
            decreases MAX_PARTICLES - particles@.len(),
        {
            let p = Self::new_particle();
            particles.push(p);
        }
        let instance_buffer = create_gpu_buffer(
            device,
            (MAX_PARTICLES as u64) * RAW_INSTANCE_BYTES,
            BufferKind::Instance,
        );
        ParticleSystem {
            parent: node.parent,
            locals: node.locals,
            model: node.model,
            instances: particles,
            instance_buffer,
        }
    }

    /// Advance the whole population by `dt` microseconds: every
    /// particle steps by its kinematics, and any whose life ran out is
    /// resampled in place.  The population size never changes.
    pub fn update(&mut self, dt: u64)
        requires
            system_wf(*old(self)),
            dt <= DT_CAP,
        ensures
            system_wf(*final(self)),
            final(self).instances@.len() == old(self).instances@.len(),
            final(self).parent == old(self).parent,
            final(self).locals == old(self).locals,
            final(self).model == old(self).model,
            final(self).instance_buffer == old(self).instance_buffer,
            forall|i: int| 0 <= i < old(self).instances@.len()
                ==> step_rel_s(
                    old(self).instances@[i],
                    #[trigger] final(self).instances@[i],
                    dt as int,
                ),
    {
        let n = self.instances.len();
        let mut updated: Vec<Particle> = Vec::new();
        let mut i: usize = 0;
        while i < n
            invariant
                i <= n,
                n == self.instances@.len(),
                updated@.len() == i,
                dt <= DT_CAP,
                system_wf(*self),
                *self == *old(self),
                forall|j: int| 0 <= j < i
                    ==> particle_wf(#[trigger] updated@[j]),
                forall|j: int| 0 <= j < i
                    ==> step_rel_s(self.instances@[j], #[trigger] updated@[j], dt as int),
            decreases n - i,
        {
            let q = step_particle(self.instances.get(i).unwrap(), dt);
            updated.push(q);
            i = i + 1;
        }
        self.instances = updated;
    }

    /// Pack the whole population into the instance-buffer layout.
    pub fn raw_instances(&self) -> (raws: Vec<InstanceRaw>)
        requires
            system_wf(*self),
        ensures
            raws@.len() == self.instances@.len(),
            forall|i: int| 0 <= i < raws@.len()
                ==> raw_matches_s(self.instances@[i].instance, #[trigger] raws@[i]),
    {
        let mut raws: Vec<InstanceRaw> = Vec::new();
        let n = self.instances.len();
        let mut i: usize = 0;
        while i < n
            invariant
                i <= n,
                n == self.instances@.len(),
                raws@.len() == i,
                system_wf(*self),
                forall|j: int| 0 <= j < i
                    ==> raw_matches_s(self.instances@[j].instance, #[trigger] raws@[j]),
            decreases n - i,
        {
            let raw = self.instances.get(i).unwrap().instance.to_raw();
            raws.push(raw);
            i = i + 1;
        }
        raws
    }

    /// Upload the packed population, rewriting the whole buffer.  The
    /// bytes must pack exactly one matrix per particle.
    pub fn write_instances(&self, queue: &wgpu::Queue, bytes: &Vec<u8>)
        requires
            system_wf(*self),
            bytes@.len() == self.instances@.len() * (RAW_INSTANCE_BYTES as int),
    {
        proof {
            assert(bytes@.len() == 800 * 64int);
        }
        queue_write_buffer(queue, &self.instance_buffer, bytes);
    }
}

} // verus!
