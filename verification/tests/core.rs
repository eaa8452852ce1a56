use mjolnir::alg::{Quat, V3, quat_from_axis_angle, quat_identity, quat_to_mat, v3_cross, v3_mag, v3_normalize, v3_rotate_y};
use mjolnir::camera::{Camera, CameraController, CameraUniform, ControlKey};
use mjolnir::fx::{FX_ONE, clamp, fx_mul, isqrt, mul_div_floor};
use mjolnir::gpu::SurfaceErrorKind;
use mjolnir::instance::{Instance, apply_raw};
use mjolnir::model::{AnimationClip, Keyframes, sample_keyframe_index, sample_translation};
use mjolnir::particle::{Particle, ParticleSystem, ParticleType, step_particle};
use mjolnir::pass::{FrameAction, LightUniform, classify_surface_error};
use mjolnir::plane::{plane_indices, plane_vertices};
use mjolnir::pool::UniformPool;
use mjolnir::trig::{HALF_TURN, QUARTER_TURN, TURN, cos_fx, norm_angle, sin_fx};

fn v(x: i64, y: i64, z: i64) -> V3 {
    V3 { x, y, z }
}

fn unit_quat() -> Quat {
    Quat { s: FX_ONE, x: 0, y: 0, z: 0 }
}

#[test]
fn fixed_point_products_round_toward_negative_infinity() {
    assert_eq!(fx_mul(2_000_000, 3_000_000), 6_000_000);
    assert_eq!(fx_mul(1_500_000, 1_000), 1_500);
    assert_eq!(fx_mul(-1_500_000, 1_000), -1_500);
    assert_eq!(fx_mul(-1_500_001, 1_000), -1_501);
    assert_eq!(mul_div_floor(7, 1, 2), 3);
    assert_eq!(mul_div_floor(-7, 1, 2), -4);
    assert_eq!(clamp(15, -10, 10), 10);
    assert_eq!(clamp(-15, -10, 10), -10);
    assert_eq!(clamp(5, -10, 10), 5);
}

#[test]
fn integer_square_roots_are_floors() {
    assert_eq!(isqrt(0), 0);
    assert_eq!(isqrt(1), 1);
    assert_eq!(isqrt(3), 1);
    assert_eq!(isqrt(4), 2);
    assert_eq!(isqrt(15), 3);
    assert_eq!(isqrt(16), 4);
    assert_eq!(isqrt(1_000_000_000_000), 1_000_000);
    assert_eq!(isqrt(u64::MAX), 4_294_967_295);
}

#[test]
fn sine_anchors_are_exact() {
    assert_eq!(sin_fx(0), 0);
    assert_eq!(sin_fx(QUARTER_TURN), FX_ONE);
    assert_eq!(sin_fx(HALF_TURN), 0);
    assert_eq!(sin_fx(HALF_TURN + QUARTER_TURN), -FX_ONE);
    assert_eq!(cos_fx(0), FX_ONE);
    assert_eq!(cos_fx(QUARTER_TURN), 0);
    assert_eq!(cos_fx(HALF_TURN), -FX_ONE);
    assert_eq!(norm_angle(-1), TURN - 1);
    assert_eq!(norm_angle(TURN + 5), 5);
    // Strictly positive strictly inside the first half turn.
    assert!(sin_fx(1) >= 1);
    assert!(sin_fx(HALF_TURN - 1) >= 1);
    assert!(sin_fx(HALF_TURN / 3) > 0 && sin_fx(HALF_TURN / 3) <= FX_ONE);
}

#[test]
fn vector_length_and_normalization() {
    assert_eq!(v3_mag(v(3_000_000, 4_000_000, 0)), 5_000_000);
    let n = v3_normalize(v(3_000_000, 4_000_000, 0));
    assert_eq!(n, v(600_000, 800_000, 0));
    assert_eq!(v3_normalize(v(0, 0, 0)), v(0, 0, 0));
    let z = v3_cross(v(FX_ONE, 0, 0), v(0, FX_ONE, 0));
    assert_eq!(z, v(0, 0, FX_ONE));
}

#[test]
fn vertical_rotation_quarter_turn() {
    let r = v3_rotate_y(v(FX_ONE, 0, 0), QUARTER_TURN);
    assert_eq!(r, v(0, 0, -FX_ONE));
    let back = v3_rotate_y(v(FX_ONE, 0, 0), 0);
    assert_eq!(back, v(FX_ONE, 0, 0));
}

#[test]
fn identity_rotation_matrix_is_diagonal() {
    let m = quat_to_mat(quat_identity());
    assert_eq!(m.e00, FX_ONE);
    assert_eq!(m.e11, FX_ONE);
    assert_eq!(m.e22, FX_ONE);
    assert_eq!(m.e01, 0);
    assert_eq!(m.e10, 0);
    assert_eq!(m.e21, 0);
}

#[test]
fn instance_round_trip_on_unit_cube_corner() {
    let inst = Instance {
        position: v(1_000_000, 2_000_000, 3_000_000),
        rotation: unit_quat(),
        scale: v(FX_ONE, FX_ONE, FX_ONE),
    };
    let raw = inst.to_raw();
    assert_eq!(raw.m00, FX_ONE);
    assert_eq!(raw.m03, 1_000_000);
    assert_eq!(raw.m13, 2_000_000);
    assert_eq!(raw.m23, 3_000_000);
    assert_eq!(raw.m33, FX_ONE);
    // Corner (1, 1, 1) lands at position + (1, 1, 1).
    let p = apply_raw(&raw, v(FX_ONE, FX_ONE, FX_ONE));
    assert_eq!(p, v(2_000_000, 3_000_000, 4_000_000));
    // Corner (0, 0, 0) lands at the translation itself.
    let o = apply_raw(&raw, v(0, 0, 0));
    assert_eq!(o, v(1_000_000, 2_000_000, 3_000_000));
}

#[test]
fn instance_round_trip_under_a_quarter_turn() {
    // A quarter turn about the vertical sends +x to -z.
    let rot = quat_from_axis_angle(v(0, FX_ONE, 0), QUARTER_TURN);
    let inst = Instance {
        position: v(0, 0, 0),
        rotation: rot,
        scale: v(FX_ONE, FX_ONE, FX_ONE),
    };
    let raw = inst.to_raw();
    let p = apply_raw(&raw, v(FX_ONE, 0, 0));
    assert!(p.x.abs() <= 10_000, "x was {}", p.x);
    assert!(p.y.abs() <= 10_000, "y was {}", p.y);
    assert!((p.z + FX_ONE).abs() <= 10_000, "z was {}", p.z);
}

#[test]
fn keyframe_index_picks_latest_at_or_before() {
    let ts: Vec<u64> = vec![0, 1_000_000, 2_000_000];
    assert_eq!(sample_keyframe_index(&ts, 0), 0);
    assert_eq!(sample_keyframe_index(&ts, 1_500_000), 1);
    assert_eq!(sample_keyframe_index(&ts, 2_000_000), 2);
    assert_eq!(sample_keyframe_index(&ts, 10_000_000), 2);
    assert_eq!(sample_keyframe_index(&ts, 999_999), 0);
}

#[test]
fn translation_sampling_matches_the_keyframes() {
    let clip = AnimationClip {
        name: String::from("drive"),
        keyframes: Keyframes::Translation(vec![
            v(0, 0, 0),
            v(1_000_000, 0, 0),
            v(2_000_000, 0, 0),
        ]),
        timestamps: vec![0, 1_000_000, 2_000_000],
    };
    assert_eq!(sample_translation(&clip, 0), Some(v(0, 0, 0)));
    assert_eq!(sample_translation(&clip, 1_500_000), Some(v(1_000_000, 0, 0)));
    assert_eq!(sample_translation(&clip, 10_000_000), Some(v(2_000_000, 0, 0)));
}

#[test]
fn other_channels_and_empty_clips_sample_to_nothing() {
    let other = AnimationClip {
        name: String::from("spin"),
        keyframes: Keyframes::Other,
        timestamps: vec![0, 1_000_000],
    };
    assert_eq!(sample_translation(&other, 500_000), None);
    let empty = AnimationClip {
        name: String::from("still"),
        keyframes: Keyframes::Translation(Vec::new()),
        timestamps: Vec::new(),
    };
    assert_eq!(sample_translation(&empty, 0), None);
}

#[test]
fn expired_particles_are_resampled_from_scratch() {
    let p = Particle {
        instance: Instance {
            position: v(660_000, -250_000, -980_000),
            rotation: unit_quat(),
            scale: v(0, 0, 0),
        },
        lifetime: (900_000, 800_000),
        ty: ParticleType::Movement(v(100_000, -100_000, -FX_ONE)),
    };
    let q = step_particle(&p, 16_000);
    assert_eq!(q.lifetime.0, 0);
    assert!(q.lifetime.1 <= 2_000_000);
    assert_eq!(q.instance.scale, v(0, 0, 0));
}

#[test]
fn living_particles_advance_and_follow_the_envelope() {
    let p = Particle {
        instance: Instance {
            position: v(660_000, -250_000, -980_000),
            rotation: unit_quat(),
            scale: v(0, 0, 0),
        },
        lifetime: (0, 1_000_000),
        ty: ParticleType::Movement(v(100_000, -100_000, -FX_ONE)),
    };
    // Mid-life: the sine envelope peaks at exactly one, so the scale
    // is the movement factor over the base.
    let q = step_particle(&p, 500_000);
    assert_eq!(q.lifetime.0, 500_000);
    assert_eq!(q.lifetime.1, 1_000_000);
    assert_eq!(q.instance.scale.x, 60_000);
    // Exactly at death the envelope is back to zero: base scale only.
    let r = step_particle(&p, 1_000_000);
    assert_eq!(r.lifetime.0, 1_000_000);
    assert_eq!(r.instance.scale.x, 10_000);
    // At birth the envelope is zero too.
    let s = step_particle(&p, 0);
    assert_eq!(s.lifetime.0, 0);
    assert_eq!(s.instance.scale.x, 10_000);
}

#[test]
fn orbit_particles_sit_on_the_circle() {
    let center = v(660_000, 0, -980_000);
    let p = Particle {
        instance: Instance {
            position: v(610_000, 0, -980_000),
            rotation: unit_quat(),
            scale: v(0, 0, 0),
        },
        lifetime: (0, 2_000_000),
        ty: ParticleType::Rotation((0, center)),
    };
    // Phase zero: cos is one, sin is zero, so the particle sits at
    // (cx, cy + r, cz).
    let q = step_particle(&p, 0);
    assert_eq!(q.instance.position, v(660_000, 300_000, -980_000));
    // Phase at half a turn: cos is minus one.
    let p2 = Particle {
        ty: ParticleType::Rotation((HALF_TURN, center)),
        ..p
    };
    let q2 = step_particle(&p2, 0);
    assert_eq!(q2.instance.position, v(660_000, -300_000, -980_000));
    // Phase advances at eight micro-radians per microsecond.
    let q3 = step_particle(&p, 1_000);
    match q3.ty {
        ParticleType::Rotation((a, c)) => {
            assert_eq!(a, 8_000);
            assert_eq!(c, center);
        }
        _ => panic!("kinematics kind changed"),
    }
}

#[test]
fn drifting_particles_rise_behind_the_wheel_line() {
    // Behind the wheel line the particle rises with the square root of
    // its depth and drifts along its direction.
    let p = Particle {
        instance: Instance {
            position: v(0, 0, -2_000_000),
            rotation: unit_quat(),
            scale: v(0, 0, 0),
        },
        lifetime: (0, 2_000_000),
        ty: ParticleType::Movement(v(0, 0, -FX_ONE)),
    };
    let q = step_particle(&p, 1_000_000);
    assert_eq!(q.instance.position, v(0, 1_414_213, -6_000_000));
    assert_eq!(q.lifetime, (1_000_000, 2_000_000));
}

#[test]
fn drifting_particles_never_sink_below_the_floor() {
    // Below the half-radius line the drift applies, but the height is
    // floored at minus the radius.
    let p = Particle {
        instance: Instance {
            position: v(0, -200_000, -1_000_000),
            rotation: unit_quat(),
            scale: v(0, 0, 0),
        },
        lifetime: (0, 2_000_000),
        ty: ParticleType::Movement(v(0, -200_000, -FX_ONE)),
    };
    let q = step_particle(&p, 1_000_000);
    assert_eq!(q.instance.position, v(0, -300_000, -5_000_000));
}

#[test]
fn fresh_particles_start_at_birth() {
    for _ in 0..64 {
        let p = ParticleSystem::new_particle();
        assert_eq!(p.lifetime.0, 0);
        assert!(p.lifetime.1 <= 2_000_000);
        assert_eq!(p.instance.scale, v(0, 0, 0));
        match p.ty {
            ParticleType::Movement(dir) => {
                assert!(dir.x.abs() <= 200_000);
                assert!(dir.y.abs() <= 200_000);
                assert_eq!(dir.z, -FX_ONE);
                assert!(p.lifetime.1 <= 800_000);
            }
            ParticleType::Rotation((angle, c)) => {
                assert!(0 <= angle && angle < TURN);
                assert!(c == v(660_000, 0, -980_000) || c == v(-660_000, 0, -980_000));
            }
        }
    }
}

#[test]
fn surface_errors_classify_by_the_taxonomy() {
    assert_eq!(classify_surface_error(SurfaceErrorKind::Timeout), FrameAction::SkipFrame);
    assert_eq!(classify_surface_error(SurfaceErrorKind::Outdated), FrameAction::SkipFrame);
    assert_eq!(classify_surface_error(SurfaceErrorKind::Lost), FrameAction::Reconfigure);
    assert_eq!(classify_surface_error(SurfaceErrorKind::OutOfMemory), FrameAction::Fatal);
}

#[test]
fn light_swings_exactly_about_the_vertical() {
    let mut light = LightUniform::start();
    assert_eq!(light.position, v(2_000_000, 2_000_000, 2_000_000));
    // A quarter turn maps (x, y, z) to (z, y, -x) exactly.
    light.rotate_y(QUARTER_TURN);
    assert_eq!(light.position, v(2_000_000, 2_000_000, -2_000_000));
    assert_eq!(light.color, v(1_000_000, 1_000_000, 1_000_000));
}

#[test]
fn zero_angle_axis_rotation_is_identity() {
    let q = quat_from_axis_angle(v(0, FX_ONE, 0), 0);
    assert_eq!(q, Quat { s: FX_ONE, x: 0, y: 0, z: 0 });
}

#[test]
fn empty_pool_has_no_slots() {
    let pool = UniformPool::new(64);
    assert_eq!(pool.len(), 0);
    assert_eq!(pool.buffer_size, 64);
}

#[test]
fn plane_mesh_data_is_exact() {
    let idx = plane_indices();
    assert_eq!(idx, vec![0, 1, 2, 0, 2, 3]);
    let vs = plane_vertices(2_000_000);
    assert_eq!(vs.len(), 4);
    assert_eq!(vs[0].position, v(-2_000_000, -2_000_000, 2_000_000));
    assert_eq!(vs[1].position, v(2_000_000, -2_000_000, 2_000_000));
    assert_eq!(vs[2].position, v(2_000_000, 2_000_000, 2_000_000));
    assert_eq!(vs[3].position, v(-2_000_000, 2_000_000, 2_000_000));
    assert_eq!(vs[2].tex_u, FX_ONE);
    assert_eq!(vs[2].tex_v, FX_ONE);
}

#[test]
fn camera_aspect_follows_the_surface() {
    let mut cam = Camera::new(v(0, 5_000_000, 10_000_000), v(0, 0, 0), 800, 600);
    assert_eq!(cam.aspect, 1_333_333);
    cam.set_aspect(1920, 1080);
    assert_eq!(cam.aspect, 1_777_777);
    cam.set_aspect(1, 1);
    assert_eq!(cam.aspect, FX_ONE);
}

#[test]
fn camera_uniform_starts_as_identity() {
    let u = CameraUniform::new();
    assert_eq!(u.view_proj.m00, FX_ONE);
    assert_eq!(u.view_proj.m11, FX_ONE);
    assert_eq!(u.view_proj.m22, FX_ONE);
    assert_eq!(u.view_proj.m33, FX_ONE);
    assert_eq!(u.view_proj.m01, 0);
}

#[test]
fn view_projection_carries_the_view_direction() {
    let cam = Camera::new(v(0, 0, 10_000_000), v(0, 0, 0), 800, 800);
    let mut u = CameraUniform::new();
    u.update_view_proj(&cam);
    // Looking straight down -z: the last row holds the negated view
    // direction and the eye distance.
    assert_eq!(u.view_proj.m30, 0);
    assert_eq!(u.view_proj.m31, 0);
    assert_eq!(u.view_proj.m32, -FX_ONE);
    assert_eq!(u.view_proj.m33, 10_000_000);
}

#[test]
fn controller_flags_follow_key_transitions() {
    let mut ctl = CameraController::new(4_000_000);
    assert!(!ctl.is_forward_pressed);
    assert!(ctl.process_events(ControlKey::Forward, true));
    assert!(ctl.is_forward_pressed);
    assert!(ctl.process_events(ControlKey::Left, true));
    assert!(ctl.is_left_pressed);
    assert!(ctl.process_events(ControlKey::Forward, false));
    assert!(!ctl.is_forward_pressed);
    assert!(ctl.is_left_pressed);
    assert!(!ctl.process_events(ControlKey::Other, true));
}

#[test]
fn idle_controller_leaves_the_camera_alone() {
    let ctl = CameraController::new(4_000_000);
    let mut cam = Camera::new(v(0, 5_000_000, 10_000_000), v(0, 0, 0), 800, 600);
    let before = cam;
    ctl.update_camera(&mut cam);
    assert_eq!(cam, before);
}

#[test]
fn forward_key_moves_the_eye_toward_the_target() {
    let mut ctl = CameraController::new(4_000_000);
    ctl.process_events(ControlKey::Forward, true);
    let mut cam = Camera::new(v(0, 0, 10_000_000), v(0, 0, 0), 800, 600);
    ctl.update_camera(&mut cam);
    assert_eq!(cam.eye, v(0, 0, 6_000_000));
    // Too close to the target: the forward move is skipped.
    let mut near = Camera::new(v(0, 0, 3_000_000), v(0, 0, 0), 800, 600);
    ctl.update_camera(&mut near);
    assert_eq!(near.eye, v(0, 0, 3_000_000));
}

#[test]
fn strafing_keeps_the_orbit_radius() {
    let mut ctl = CameraController::new(4_000_000);
    ctl.process_events(ControlKey::Left, true);
    let mut cam = Camera::new(v(0, 0, 10_000_000), v(0, 0, 0), 800, 600);
    ctl.update_camera(&mut cam);
    assert_ne!(cam.eye, v(0, 0, 10_000_000));
    let radius = v3_mag(cam.eye);
    assert!((radius - 10_000_000i64).abs() <= 3_000, "radius was {}", radius);
}
