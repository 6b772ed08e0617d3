//! Particle-system tests: exact stepping with a degenerate (zero-radius)
//! spawn volume, respawn bounds with a real one, the render buffer mirror,
//! the behaviours' evaluation rules, and the clock-seeded random scalar.

use gloom_rs::fixed::FX_ONE;
use gloom_rs::linalg::{Vec3, Vec4};
use gloom_rs::particle_system::{
    generate_buffer_data, ColorBehavior, Particle, ParticleSystem, VelocityBehavior,
};
use gloom_rs::util::{byte_size_of_array, generate_rng, size_of};

fn fx(units: i64) -> i64 {
    units * FX_ONE
}

fn still() -> VelocityBehavior {
    VelocityBehavior::Constant { initial: Vec3 { x: 0, y: 0, z: 0 } }
}

fn white() -> ColorBehavior {
    ColorBehavior::Constant { initial: Vec4 { x: FX_ONE, y: FX_ONE, z: FX_ONE, w: FX_ONE } }
}

#[test]
fn new_particle_takes_initial_velocity_and_color() {
    let vf = VelocityBehavior::Constant { initial: Vec3 { x: fx(1), y: 0, z: fx(-2) } };
    let cf = ColorBehavior::Fade {
        initial: Vec4 { x: FX_ONE, y: 0, z: 0, w: FX_ONE },
        rate: FX_ONE / 4,
    };
    let p = Particle::new(Vec3 { x: fx(3), y: 0, z: 0 }, fx(5), vf, cf);
    assert_eq!(p.position, Vec3 { x: fx(3), y: 0, z: 0 });
    assert_eq!(p.velocity, Vec3 { x: fx(1), y: 0, z: fx(-2) });
    assert_eq!(p.color, Vec4 { x: FX_ONE, y: 0, z: 0, w: FX_ONE });
    assert_eq!(p.life, fx(5));
}

#[test]
fn update_integrates_position_and_ages() {
    let vf = VelocityBehavior::Constant { initial: Vec3 { x: fx(2), y: fx(-1), z: 0 } };
    let p = Particle::new(Vec3 { x: 0, y: fx(10), z: 0 }, fx(4), vf, white());
    let u = p.update(FX_ONE / 2);
    assert_eq!(u.position, Vec3 { x: fx(1), y: fx(10) - FX_ONE / 2, z: 0 });
    assert_eq!(u.life, fx(4) - FX_ONE / 2);
    assert_eq!(u.velocity, p.velocity);
}

#[test]
fn revive_leaves_live_particles_alone() {
    let p = Particle::new(Vec3 { x: fx(1), y: 0, z: 0 }, fx(2), still(), white());
    let r = p.revive_if_dead(&Vec3 { x: fx(9), y: 0, z: 0 }, fx(7));
    assert_eq!(r.position, Vec3 { x: fx(1), y: 0, z: 0 });
    assert_eq!(r.life, fx(2));
}

#[test]
fn revive_restarts_dead_particles() {
    let vf = VelocityBehavior::Gravity {
        initial: Vec3 { x: fx(1), y: 0, z: 0 },
        accel: Vec3 { x: 0, y: fx(-10), z: 0 },
    };
    let mut p = Particle::new(Vec3 { x: 0, y: 0, z: 0 }, fx(1), vf, white());
    p = p.update(fx(2));
    assert!(p.life < 0);
    assert_ne!(p.velocity, Vec3 { x: fx(1), y: 0, z: 0 });
    let r = p.revive_if_dead(&Vec3 { x: fx(9), y: 0, z: 0 }, fx(7));
    assert_eq!(r.position, Vec3 { x: fx(9), y: 0, z: 0 });
    assert_eq!(r.life, fx(7));
    assert_eq!(r.velocity, Vec3 { x: fx(1), y: 0, z: 0 });
    assert_eq!(r.color, Vec4 { x: FX_ONE, y: FX_ONE, z: FX_ONE, w: FX_ONE });
}

// Life monotonicity: with a zero-radius volume and equal life bounds the
// pool is fully deterministic; a tick shorter than the remaining life ages
// every particle by exactly the tick length and respawns none.
#[test]
fn live_particles_age_by_exactly_the_tick() {
    let vf = VelocityBehavior::Constant { initial: Vec3 { x: fx(3), y: 0, z: 0 } };
    let mut sys =
        ParticleSystem::new(4, Vec3 { x: 0, y: fx(2), z: 0 }, 0, fx(10), fx(10), vf, white());
    assert_eq!(sys.len(), 4);
    sys.tick(FX_ONE);
    assert_eq!(sys.len(), 4);
    for i in 0..4 {
        let p = sys.particle(i);
        assert_eq!(p.life, fx(9));
        assert_eq!(p.position, Vec3 { x: fx(3), y: fx(2), z: 0 });
    }
}

// Respawn: particles whose life has run out end the tick with a lifetime
// from the configured interval and a position inside the spawn cube.
#[test]
fn dead_particles_respawn_within_bounds() {
    let center = Vec3 { x: fx(100), y: fx(-50), z: fx(3) };
    let mut sys = ParticleSystem::new(8, center, fx(2), 1, 1, still(), white());
    // Life starts at the raw value 1; any full tick kills every particle.
    sys.tick(FX_ONE);
    for i in 0..8 {
        let p = sys.particle(i);
        assert_eq!(p.life, 1);
        assert!(center.x - fx(2) <= p.position.x && p.position.x <= center.x + fx(2));
        assert!(center.y - fx(2) <= p.position.y && p.position.y <= center.y + fx(2));
        assert!(center.z - fx(2) <= p.position.z && p.position.z <= center.z + fx(2));
        assert_eq!(p.velocity, Vec3 { x: 0, y: 0, z: 0 });
    }
}

#[test]
fn pool_size_never_changes() {
    let mut sys = ParticleSystem::new(5, Vec3 { x: 0, y: 0, z: 0 }, fx(1), 1, fx(1), still(), white());
    assert_eq!(sys.len(), 5);
    for _ in 0..5 {
        sys.tick(FX_ONE / 8);
        assert_eq!(sys.len(), 5);
    }
}

// The render buffer mirrors the pool after construction and after every
// tick: seven cells per particle, position then color, in pool order.
#[test]
fn buffer_mirrors_pool_after_each_tick() {
    let vf = VelocityBehavior::Constant { initial: Vec3 { x: fx(1), y: 0, z: 0 } };
    let cf = ColorBehavior::Fade {
        initial: Vec4 { x: FX_ONE, y: FX_ONE, z: 0, w: FX_ONE },
        rate: FX_ONE / 2,
    };
    let mut sys = ParticleSystem::new(3, Vec3 { x: 0, y: 0, z: 0 }, 0, fx(10), fx(10), vf, cf);
    for round in 0..3 {
        if round > 0 {
            sys.tick(FX_ONE);
        }
        let buf = sys.buffer();
        assert_eq!(buf.len(), 3 * 7);
        for i in 0..3 {
            let p = sys.particle(i);
            assert_eq!(buf[7 * i], p.position.x);
            assert_eq!(buf[7 * i + 1], p.position.y);
            assert_eq!(buf[7 * i + 2], p.position.z);
            assert_eq!(buf[7 * i + 3], p.color.x);
            assert_eq!(buf[7 * i + 4], p.color.y);
            assert_eq!(buf[7 * i + 5], p.color.z);
            assert_eq!(buf[7 * i + 6], p.color.w);
        }
    }
}

#[test]
fn buffer_of_explicit_pool_is_flat_in_order() {
    let a = Particle::new(Vec3 { x: 1, y: 2, z: 3 }, fx(1), still(), white());
    let b = Particle::new(Vec3 { x: 4, y: 5, z: 6 }, fx(1), still(), white());
    let buf = generate_buffer_data(&vec![a, b]);
    assert_eq!(
        buf,
        vec![1, 2, 3, FX_ONE, FX_ONE, FX_ONE, FX_ONE, 4, 5, 6, FX_ONE, FX_ONE, FX_ONE, FX_ONE]
    );
}

#[test]
fn gravity_accelerates_velocity() {
    let vf = VelocityBehavior::Gravity {
        initial: Vec3 { x: 0, y: 0, z: 0 },
        accel: Vec3 { x: 0, y: fx(-10), z: 0 },
    };
    let v = vf.eval(&Vec3 { x: fx(1), y: fx(2), z: 0 }, FX_ONE / 2);
    assert_eq!(v, Vec3 { x: fx(1), y: fx(2) - fx(5), z: 0 });
    // A negative tick asks for the initial value.
    let v0 = vf.eval(&Vec3 { x: fx(9), y: fx(9), z: fx(9) }, -1);
    assert_eq!(v0, Vec3 { x: 0, y: 0, z: 0 });
}

#[test]
fn damping_scales_velocity() {
    let vf = VelocityBehavior::Damped {
        initial: Vec3 { x: fx(8), y: 0, z: 0 },
        factor: FX_ONE / 2,
    };
    let v = vf.eval(&Vec3 { x: fx(8), y: fx(-4), z: fx(2) }, FX_ONE);
    assert_eq!(v, Vec3 { x: fx(4), y: fx(-2), z: fx(1) });
}

#[test]
fn fading_lowers_only_alpha() {
    let cf = ColorBehavior::Fade {
        initial: Vec4 { x: FX_ONE, y: FX_ONE, z: FX_ONE, w: FX_ONE },
        rate: FX_ONE,
    };
    let c = cf.eval(&Vec4 { x: FX_ONE, y: FX_ONE, z: FX_ONE, w: FX_ONE }, FX_ONE / 2);
    assert_eq!(c, Vec4 { x: FX_ONE, y: FX_ONE, z: FX_ONE, w: FX_ONE / 2 });
    let c0 = cf.eval(&Vec4 { x: 0, y: 0, z: 0, w: 0 }, -1);
    assert_eq!(c0, Vec4 { x: FX_ONE, y: FX_ONE, z: FX_ONE, w: FX_ONE });
}

#[test]
fn rng_stays_within_bounds() {
    for _ in 0..100 {
        let r = generate_rng(-fx(3), fx(7));
        assert!(-fx(3) <= r && r <= fx(7));
    }
}

#[test]
fn rng_with_equal_bounds_is_exact() {
    assert_eq!(generate_rng(fx(5), fx(5)), fx(5));
    assert_eq!(generate_rng(-fx(2), -fx(2)), -fx(2));
}

#[test]
fn sizes_match_the_platform() {
    assert_eq!(size_of::<f32>(), 4);
    assert_eq!(size_of::<u32>(), 4);
    assert_eq!(size_of::<i64>(), 8);
    let floats: [f32; 6] = [0.0; 6];
    assert_eq!(byte_size_of_array(&floats), 24);
    let bytes: [u8; 10] = [0; 10];
    assert_eq!(byte_size_of_array(&bytes), 10);
    let empty: [u32; 0] = [];
    assert_eq!(byte_size_of_array(&empty), 0);
}
