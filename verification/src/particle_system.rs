//! The particle system: a fixed-size pool of particles scattered in a
//! cube-shaped spawn volume (each axis drawn independently — the volume is
//! deliberately a cube despite the "radius" name), aged by discrete ticks,
//! and respawned in place when their life runs out.  After every tick the
//! render buffer mirrors the pool exactly: seven values per particle,
//! position then RGBA color, in pool order.

use vstd::prelude::*;
use crate::fixed::FX_ONE;
use crate::fixed::fx_mul;
use crate::fixed::fx_mul_s;
use crate::fixed::fits_i64;
use crate::fixed::lemma_fx_mul_unit_bound;
use crate::linalg::Vec3;
use crate::linalg::Vec4;
use crate::linalg::Vec3i;
use crate::linalg::Vec4i;
use crate::linalg::v3_add_s;
use crate::linalg::v3_fx_scale_s;
use crate::util::generate_rng;

verus! {

/// How a particle's velocity evolves: a closed set of behaviours, each
/// with an explicit rule.  A negative tick length asks for the behaviour's
/// canonical initial value instead of a step.
#[derive(Clone, Copy, PartialEq, Eq, Structural, Debug)]
pub enum VelocityBehavior {
    /// The velocity keeps its initial value.
    Constant { initial: Vec3 },
    /// Constant acceleration: each tick adds `accel` scaled by the tick
    /// length.
    Gravity { initial: Vec3, accel: Vec3 },
    /// Damping: each tick multiplies the velocity by the fixed-point
    /// `factor`.
    Damped { initial: Vec3, factor: i64 },
}

/// Mathematical model of a `VelocityBehavior`.
pub ghost enum VelocityBehaviorV {
    Constant { initial: Vec3i },
    Gravity { initial: Vec3i, accel: Vec3i },
    Damped { initial: Vec3i, factor: int },
}

impl View for VelocityBehavior {
    type V = VelocityBehaviorV;

    open spec fn view(&self) -> VelocityBehaviorV {
        match *self {
            VelocityBehavior::Constant { initial } => VelocityBehaviorV::Constant {
                initial: initial@,
            },
            VelocityBehavior::Gravity { initial, accel } => VelocityBehaviorV::Gravity {
                initial: initial@,
                accel: accel@,
            },
            VelocityBehavior::Damped { initial, factor } => VelocityBehaviorV::Damped {
                initial: initial@,
                factor: factor as int,
            },
        }
    }
}

/// The canonical initial velocity of a behaviour.
pub open spec fn vel_init_s(b: VelocityBehaviorV) -> Vec3i {
    match b {
        VelocityBehaviorV::Constant { initial } => initial,
        VelocityBehaviorV::Gravity { initial, .. } => initial,
        VelocityBehaviorV::Damped { initial, .. } => initial,
    }
}

/// The velocity after one tick of `dt`; a negative `dt` gives the initial
/// value.
pub open spec fn vel_eval_s(b: VelocityBehaviorV, v: Vec3i, dt: int) -> Vec3i {
    if dt < 0 {
        vel_init_s(b)
    } else {
        match b {
            VelocityBehaviorV::Constant { .. } => v,
            VelocityBehaviorV::Gravity { accel, .. } => v3_add_s(v, v3_fx_scale_s(accel, dt)),
            VelocityBehaviorV::Damped { factor, .. } => v3_fx_scale_s(v, factor),
        }
    }
}

/// Machine limits for one velocity step.
pub open spec fn vel_eval_fits(b: VelocityBehaviorV, v: Vec3i, dt: int) -> bool {
    if dt < 0 {
        true
    } else {
        match b {
            VelocityBehaviorV::Constant { .. } => true,
            VelocityBehaviorV::Gravity { accel, .. } => {
                &&& fits_i64(fx_mul_s(accel.x, dt))
                &&& fits_i64(fx_mul_s(accel.y, dt))
                &&& fits_i64(fx_mul_s(accel.z, dt))
                &&& fits_i64(v.x + fx_mul_s(accel.x, dt))
                &&& fits_i64(v.y + fx_mul_s(accel.y, dt))
                &&& fits_i64(v.z + fx_mul_s(accel.z, dt))
            },
            VelocityBehaviorV::Damped { factor, .. } => {
                &&& fits_i64(fx_mul_s(v.x, factor))
                &&& fits_i64(fx_mul_s(v.y, factor))
                &&& fits_i64(fx_mul_s(v.z, factor))
            },
        }
    }
}

impl VelocityBehavior {
    /// The next velocity after a tick of `dt`; pass a negative `dt` for the
    /// behaviour's initial value.
    pub fn eval(&self, v: &Vec3, dt: i64) -> (r: Vec3)
        requires
            vel_eval_fits(self@, v@, dt as int),
        ensures
            r@ == vel_eval_s(self@, v@, dt as int),
    {
        if dt < 0 {
            match *self {
                VelocityBehavior::Constant { initial } => initial,
                VelocityBehavior::Gravity { initial, .. } => initial,
                VelocityBehavior::Damped { initial, .. } => initial,
            }
        } else {
            match *self {
                VelocityBehavior::Constant { .. } => *v,
                VelocityBehavior::Gravity { accel, .. } => Vec3 {
                    x: v.x + fx_mul(accel.x, dt),
                    y: v.y + fx_mul(accel.y, dt),
                    z: v.z + fx_mul(accel.z, dt),
                },
                VelocityBehavior::Damped { factor, .. } => Vec3 {
                    x: fx_mul(v.x, factor),
                    y: fx_mul(v.y, factor),
                    z: fx_mul(v.z, factor),
                },
            }
        }
    }
}

/// How a particle's color evolves; same shape as the velocity behaviours.
#[derive(Clone, Copy, PartialEq, Eq, Structural, Debug)]
pub enum ColorBehavior {
    /// The color keeps its initial value.
    Constant { initial: Vec4 },
    /// Fading: each tick lowers the alpha channel by the fixed-point `rate`
    /// scaled by the tick length; the RGB channels stay.
    Fade { initial: Vec4, rate: i64 },
}

/// Mathematical model of a `ColorBehavior`.
pub ghost enum ColorBehaviorV {
    Constant { initial: Vec4i },
    Fade { initial: Vec4i, rate: int },
}

impl View for ColorBehavior {
    type V = ColorBehaviorV;

    open spec fn view(&self) -> ColorBehaviorV {
        match *self {
            ColorBehavior::Constant { initial } => ColorBehaviorV::Constant { initial: initial@ },
            ColorBehavior::Fade { initial, rate } => ColorBehaviorV::Fade {
                initial: initial@,
                rate: rate as int,
            },
        }
    }
}

/// The canonical initial color of a behaviour.
pub open spec fn col_init_s(b: ColorBehaviorV) -> Vec4i {
    match b {
        ColorBehaviorV::Constant { initial } => initial,
        ColorBehaviorV::Fade { initial, .. } => initial,
    }
}

/// The color after one tick of `dt`; a negative `dt` gives the initial
/// value.
pub open spec fn col_eval_s(b: ColorBehaviorV, c: Vec4i, dt: int) -> Vec4i {
    if dt < 0 {
        col_init_s(b)
    } else {
        match b {
            ColorBehaviorV::Constant { .. } => c,
            ColorBehaviorV::Fade { rate, .. } => Vec4i {
                x: c.x,
                y: c.y,
                z: c.z,
                w: c.w - fx_mul_s(rate, dt),
            },
        }
    }
}

/// Machine limits for one color step.
pub open spec fn col_eval_fits(b: ColorBehaviorV, c: Vec4i, dt: int) -> bool {
    if dt < 0 {
        true
    } else {
        match b {
            ColorBehaviorV::Constant { .. } => true,
            ColorBehaviorV::Fade { rate, .. } => {
                &&& fits_i64(fx_mul_s(rate, dt))
                &&& fits_i64(c.w - fx_mul_s(rate, dt))
            },
        }
    }
}

impl ColorBehavior {
    /// The next color after a tick of `dt`; pass a negative `dt` for the
    /// behaviour's initial value.
    pub fn eval(&self, c: &Vec4, dt: i64) -> (r: Vec4)
        requires
            col_eval_fits(self@, c@, dt as int),
        ensures
            r@ == col_eval_s(self@, c@, dt as int),
    {
        if dt < 0 {
            match *self {
                ColorBehavior::Constant { initial } => initial,
                ColorBehavior::Fade { initial, .. } => initial,
            }
        } else {
            match *self {
                ColorBehavior::Constant { .. } => *c,
                ColorBehavior::Fade { rate, .. } => Vec4 {
                    x: c.x,
                    y: c.y,
                    z: c.z,
                    w: c.w - fx_mul(rate, dt),
                },
            }
        }
    }
}

/// One simulated particle.
#[derive(Clone, Copy, PartialEq, Eq, Structural, Debug)]
pub struct Particle {
    pub position: Vec3,
    pub velocity: Vec3,
    pub color: Vec4,
    pub life: i64,
    pub velocity_fun: VelocityBehavior,
    pub color_fun: ColorBehavior,
}

/// Mathematical model of a `Particle`.
pub ghost struct ParticleV {
    pub position: Vec3i,
    pub velocity: Vec3i,
    pub color: Vec4i,
    pub life: int,
    pub velocity_fun: VelocityBehaviorV,
    pub color_fun: ColorBehaviorV,
}

impl View for Particle {
    type V = ParticleV;

    open spec fn view(&self) -> ParticleV {
        ParticleV {
            position: self.position@,
            velocity: self.velocity@,
            color: self.color@,
            life: self.life as int,
            velocity_fun: self.velocity_fun@,
            color_fun: self.color_fun@,
        }
    }
}

/// What one tick does to a particle: life shrinks by the tick length, the
/// position integrates the old velocity, and velocity and color follow
/// their behaviours.
pub open spec fn update_s(p: ParticleV, dt: int) -> ParticleV {
    ParticleV {
        position: v3_add_s(p.position, v3_fx_scale_s(p.velocity, dt)),
        velocity: vel_eval_s(p.velocity_fun, p.velocity, dt),
        color: col_eval_s(p.color_fun, p.color, dt),
        life: p.life - dt,
        velocity_fun: p.velocity_fun,
        color_fun: p.color_fun,
    }
}

/// Machine limits for one particle step.
pub open spec fn update_fits(p: ParticleV, dt: int) -> bool {
    &&& fits_i64(p.life - dt)
    &&& fits_i64(fx_mul_s(p.velocity.x, dt))
    &&& fits_i64(fx_mul_s(p.velocity.y, dt))
    &&& fits_i64(fx_mul_s(p.velocity.z, dt))
    &&& fits_i64(p.position.x + fx_mul_s(p.velocity.x, dt))
    &&& fits_i64(p.position.y + fx_mul_s(p.velocity.y, dt))
    &&& fits_i64(p.position.z + fx_mul_s(p.velocity.z, dt))
    &&& vel_eval_fits(p.velocity_fun, p.velocity, dt)
    &&& col_eval_fits(p.color_fun, p.color, dt)
}

/// What reviving does: a dead particle (life at most zero) restarts at the
/// given position and life with its behaviours' initial velocity and
/// color; a live one is returned unchanged.
pub open spec fn revive_s(p: ParticleV, position: Vec3i, life: int) -> ParticleV {
    if p.life <= 0 {
        ParticleV {
            position: position,
            velocity: vel_init_s(p.velocity_fun),
            color: col_init_s(p.color_fun),
            life: life,
            velocity_fun: p.velocity_fun,
            color_fun: p.color_fun,
        }
    } else {
        p
    }
}

impl Particle {
    /// A particle at `position` with the given lifetime, its velocity and
    /// color set to the behaviours' initial values.
    pub fn new(
        position: Vec3,
        life: i64,
        velocity_fun: VelocityBehavior,
        color_fun: ColorBehavior,
    ) -> (r: Particle)
        ensures
            r@.position == position@,
            r@.velocity == vel_init_s(velocity_fun@),
            r@.color == col_init_s(color_fun@),
            r@.life == life as int,
            r@.velocity_fun == velocity_fun@,
            r@.color_fun == color_fun@,
    {
        let zero3 = Vec3::zero();
        let zero4 = Vec4 { x: 0, y: 0, z: 0, w: 0 };
        Particle {
            position,
            velocity: velocity_fun.eval(&zero3, -1),
            color: color_fun.eval(&zero4, -1),
            life,
            velocity_fun,
            color_fun,
        }
    }

    /// One tick of `dt` applied to this particle alone.
    pub fn update(self, dt: i64) -> (r: Particle)
        requires
            update_fits(self@, dt as int),
        ensures
            r@ == update_s(self@, dt as int),
    {
        Particle {
            position: Vec3 {
                x: self.position.x + fx_mul(self.velocity.x, dt),
                y: self.position.y + fx_mul(self.velocity.y, dt),
                z: self.position.z + fx_mul(self.velocity.z, dt),
            },
            velocity: self.velocity_fun.eval(&self.velocity, dt),
            color: self.color_fun.eval(&self.color, dt),
            life: self.life - dt,
            velocity_fun: self.velocity_fun,
            color_fun: self.color_fun,
        }
    }

    /// Restarts the particle at `position` with lifetime `life` if its life
    /// has run out; otherwise returns it unchanged.
    pub fn revive_if_dead(self, position: &Vec3, life: i64) -> (r: Particle)
        ensures
            r@ == revive_s(self@, position@, life as int),
    {
        if self.life <= 0 {
            let zero3 = Vec3::zero();
            let zero4 = Vec4 { x: 0, y: 0, z: 0, w: 0 };
            Particle {
                position: *position,
                velocity: self.velocity_fun.eval(&zero3, -1),
                color: self.color_fun.eval(&zero4, -1),
                life,
                velocity_fun: self.velocity_fun,
                color_fun: self.color_fun,
            }
        } else {
            self
        }
    }
}

/// A sequence of `i64` values as mathematical integers.
pub open spec fn ints_view(s: Seq<i64>) -> Seq<int> {
    s.map_values(|x: i64| x as int)
}

/// The seven buffer cells of one particle: position, then RGBA color.
pub open spec fn particle_cells(p: ParticleV) -> Seq<int> {
    seq![p.position.x, p.position.y, p.position.z, p.color.x, p.color.y, p.color.z, p.color.w]
}

/// The render buffer a particle pool produces: the cells of every
/// particle, flat, in pool order.
pub open spec fn buffer_spec(ps: Seq<ParticleV>) -> Seq<int>
    decreases ps,
{
    if ps.len() == 0 {
        Seq::empty()
    } else {
        buffer_spec(ps.drop_last()) + particle_cells(ps.last())
    }
}

/// Extending the pool by one particle appends its seven cells.
proof fn lemma_buffer_spec_push(ps: Seq<ParticleV>, p: ParticleV)
    ensures
        buffer_spec(ps.push(p)) == buffer_spec(ps) + particle_cells(p),
{
    assert(ps.push(p).drop_last() =~= ps);
    assert(ps.push(p).last() == p);
}

/// Builds the flat render buffer mirroring a particle pool: seven values
/// per particle — position x, y, z, then color r, g, b, a — in pool order.
pub fn generate_buffer_data(particles: &Vec<Particle>) -> (r: Vec<i64>)
    ensures
        ints_view(r@) == buffer_spec(particles@.map_values(|p: Particle| p@)),
{
    let ghost ps = particles@.map_values(|p: Particle| p@);
    let mut out: Vec<i64> = Vec::new();
    proof {
        assert(ints_view(out@) =~= buffer_spec(ps.subrange(0, 0)));
    }
    let mut i: usize = 0;
    while i < particles.len()
        invariant
            0 <= i <= particles@.len(),
            ps == particles@.map_values(|p: Particle| p@),
            ps.len() == particles@.len(),
            ints_view(out@) == buffer_spec(ps.subrange(0, i as int)),
        decreases particles@.len() - i,
    {
        let ghost before = out@;
        let p = &particles[i];
        out.push(p.position.x);
        out.push(p.position.y);
        out.push(p.position.z);
        out.push(p.color.x);
        out.push(p.color.y);
        out.push(p.color.z);
        out.push(p.color.w);
        proof {
            let pre = ps.subrange(0, i as int);
            assert(ps.subrange(0, i + 1 as int) =~= pre.push(ps[i as int]));
            lemma_buffer_spec_push(pre, ps[i as int]);
            assert(ps[i as int] == particles@[i as int]@);
            assert(ints_view(out@) =~= ints_view(before) + particle_cells(ps[i as int]));
        }
        i += 1;
    }
    proof {
        assert(ps.subrange(0, ps.len() as int) =~= ps);
    }
    out
}

/// The spawn volume: each coordinate within `radius` of the center, per
/// axis independently — a cube.
pub open spec fn in_cube(p: Vec3i, center: Vec3i, radius: int) -> bool {
    &&& center.x - radius <= p.x <= center.x + radius
    &&& center.y - radius <= p.y <= center.y + radius
    &&& center.z - radius <= p.z <= center.z + radius
}

/// The spawn parameters leave every point of the volume representable.
pub open spec fn spawn_ok(center: Vec3i, radius: int) -> bool {
    &&& 0 <= radius
    &&& fits_i64(center.x - radius)
    &&& fits_i64(center.x + radius)
    &&& fits_i64(center.y - radius)
    &&& fits_i64(center.y + radius)
    &&& fits_i64(center.z - radius)
    &&& fits_i64(center.z + radius)
}

/// A freshly scattered particle: inside the spawn volume, with a lifetime
/// from the configured interval and the behaviours' initial velocity and
/// color.
pub open spec fn fresh_spawn(
    p: ParticleV,
    center: Vec3i,
    radius: int,
    life_min: int,
    life_max: int,
    vf: VelocityBehaviorV,
    cf: ColorBehaviorV,
) -> bool {
    &&& in_cube(p.position, center, radius)
    &&& life_min <= p.life <= life_max
    &&& p.velocity == vel_init_s(vf)
    &&& p.color == col_init_s(cf)
    &&& p.velocity_fun == vf
    &&& p.color_fun == cf
}

/// What one tick promises for one pool slot: the particle ages by exactly
/// `dt`; if that leaves it alive it is exactly the aged particle, and
/// otherwise the slot holds a fresh spawn that keeps its behaviours.
pub open spec fn tick_step(
    p0: ParticleV,
    p1: ParticleV,
    dt: int,
    center: Vec3i,
    radius: int,
    life_min: int,
    life_max: int,
) -> bool {
    if update_s(p0, dt).life > 0 {
        p1 == update_s(p0, dt)
    } else {
        fresh_spawn(p1, center, radius, life_min, life_max, p0.velocity_fun, p0.color_fun)
    }
}

/// The particle pool with its spawn volume and lifetime range.  The pool
/// size is fixed at construction; the render buffer always mirrors the
/// pool.
pub struct ParticleSystem {
    particles: Vec<Particle>,
    position: Vec3,
    radius: i64,
    life_min: i64,
    life_max: i64,
    buffer: Vec<i64>,
}

/// Mathematical model of a `ParticleSystem`.
pub ghost struct SystemV {
    pub particles: Seq<ParticleV>,
    pub position: Vec3i,
    pub radius: int,
    pub life_min: int,
    pub life_max: int,
    pub buffer: Seq<int>,
}

impl View for ParticleSystem {
    type V = SystemV;

    closed spec fn view(&self) -> SystemV {
        SystemV {
            particles: self.particles@.map_values(|p: Particle| p@),
            position: self.position@,
            radius: self.radius as int,
            life_min: self.life_min as int,
            life_max: self.life_max as int,
            buffer: ints_view(self.buffer@),
        }
    }
}

/// The system's invariant: a usable spawn volume, an ordered lifetime
/// range, and a render buffer that mirrors the pool.
pub open spec fn sys_wf(s: SystemV) -> bool {
    &&& spawn_ok(s.position, s.radius)
    &&& s.life_min <= s.life_max
    &&& s.buffer == buffer_spec(s.particles)
}

impl ParticleSystem {
    /// A pool of `size` particles, each scattered independently in the
    /// spawn volume with an independent lifetime from
    /// `[life_min, life_max]`, all sharing the two behaviours.
    pub fn new(
        size: usize,
        position: Vec3,
        radius: i64,
        life_min: i64,
        life_max: i64,
        velocity_fun: VelocityBehavior,
        color_fun: ColorBehavior,
    ) -> (r: ParticleSystem)
        requires
            spawn_ok(position@, radius as int),
            life_min <= life_max,
        ensures
            r@.particles.len() == size as int,
            r@.position == position@,
            r@.radius == radius as int,
            r@.life_min == life_min as int,
            r@.life_max == life_max as int,
            forall|i: int|
                0 <= i < size as int ==> fresh_spawn(
                    #[trigger] r@.particles[i],
                    position@,
                    radius as int,
                    life_min as int,
                    life_max as int,
                    velocity_fun@,
                    color_fun@,
                ),
            sys_wf(r@),
    {
        let mut particles: Vec<Particle> = Vec::new();
        let mut i: usize = 0;
        while i < size
            invariant
                0 <= i <= size,
                particles@.len() == i as int,
                spawn_ok(position@, radius as int),
                life_min <= life_max,
                forall|j: int|
                    0 <= j < i as int ==> fresh_spawn(
                        (#[trigger] particles@[j])@,
                        position@,
                        radius as int,
                        life_min as int,
                        life_max as int,
                        velocity_fun@,
                        color_fun@,
                    ),
            decreases size - i,
        {
            let sp = scatter(&position, radius);
            let life = generate_rng(life_min, life_max);
            let p = Particle::new(sp, life, velocity_fun, color_fun);
            particles.push(p);
            i += 1;
        }
        let buffer = generate_buffer_data(&particles);
        let r = ParticleSystem { particles, position, radius, life_min, life_max, buffer };
        proof {
            assert forall|i2: int| 0 <= i2 < size as int implies fresh_spawn(
                #[trigger] r@.particles[i2],
                position@,
                radius as int,
                life_min as int,
                life_max as int,
                velocity_fun@,
                color_fun@,
            ) by {
                assert(r@.particles[i2] == r.particles@[i2]@);
            }
        }
        r
    }

    /// The number of particles: fixed for the system's lifetime.
    pub fn len(&self) -> (r: usize)
        ensures
            r as int == self@.particles.len(),
    {
        self.particles.len()
    }

    /// The particle in slot `i`.
    pub fn particle(&self, i: usize) -> (r: Particle)
        requires
            (i as int) < self@.particles.len(),
        ensures
            r@ == self@.particles[i as int],
    {
        self.particles[i]
    }

    /// The render buffer: seven values per particle, refreshed by `new`
    /// and by every `tick`.
    pub fn buffer(&self) -> (r: &Vec<i64>)
        ensures
            ints_view(r@) == self@.buffer,
    {
        &self.buffer
    }

    /// The center of the spawn volume.
    pub fn position(&self) -> (r: Vec3)
        ensures
            r@ == self@.position,
    {
        self.position
    }

    /// The per-axis half-width of the spawn volume.
    pub fn radius(&self) -> (r: i64)
        ensures
            r as int == self@.radius,
    {
        self.radius
    }

    /// The smallest lifetime a spawn can draw.
    pub fn life_min(&self) -> (r: i64)
        ensures
            r as int == self@.life_min,
    {
        self.life_min
    }

    /// The largest lifetime a spawn can draw.
    pub fn life_max(&self) -> (r: i64)
        ensures
            r as int == self@.life_max,
    {
        self.life_max
    }

    /// One simulation tick of `dt`: every particle ages and integrates its
    /// velocity; any whose life has run out is respawned in its slot; then
    /// the render buffer is rebuilt to mirror the pool.
    pub fn tick(&mut self, dt: i64)
        requires
            dt >= 0,
            sys_wf(old(self)@),
            forall|i: int|
                0 <= i < old(self)@.particles.len() ==> update_fits(
                    #[trigger] old(self)@.particles[i],
                    dt as int,
                ),
        ensures
            final(self)@.particles.len() == old(self)@.particles.len(),
            final(self)@.position == old(self)@.position,
            final(self)@.radius == old(self)@.radius,
            final(self)@.life_min == old(self)@.life_min,
            final(self)@.life_max == old(self)@.life_max,
            forall|i: int|
                0 <= i < old(self)@.particles.len() ==> tick_step(
                    old(self)@.particles[i],
                    #[trigger] final(self)@.particles[i],
                    dt as int,
                    old(self)@.position,
                    old(self)@.radius,
                    old(self)@.life_min,
                    old(self)@.life_max,
                ),
            sys_wf(final(self)@),
    {
        let ghost s0 = old(self)@;
        let mut i: usize = 0;
        while i < self.particles.len()
            invariant
                0 <= i <= self.particles@.len(),
                s0 == old(self)@,
                dt >= 0,
                sys_wf(s0),
                self.particles@.len() == s0.particles.len(),
                self.position@ == s0.position,
                self.radius as int == s0.radius,
                self.life_min as int == s0.life_min,
                self.life_max as int == s0.life_max,
                forall|j: int|
                    0 <= j < s0.particles.len() ==> update_fits(
                        #[trigger] s0.particles[j],
                        dt as int,
                    ),
                forall|j: int|
                    i as int <= j < s0.particles.len() ==> (#[trigger] self.particles@[j])@
                        == s0.particles[j],
                forall|j: int|
                    0 <= j < i as int ==> tick_step(
                        s0.particles[j],
                        (#[trigger] self.particles@[j])@,
                        dt as int,
                        s0.position,
                        s0.radius,
                        s0.life_min,
                        s0.life_max,
                    ),
            decreases self.particles@.len() - i,
        {
            let p = self.particles[i];
            let u = p.update(dt);
            let sp = scatter(&self.position, self.radius);
            let nl = generate_rng(self.life_min, self.life_max);
            let fresh = u.revive_if_dead(&sp, nl);
            proof {
                assert(tick_step(
                    s0.particles[i as int],
                    fresh@,
                    dt as int,
                    s0.position,
                    s0.radius,
                    s0.life_min,
                    s0.life_max,
                ));
            }
            let slot = &mut self.particles[i];
            *slot = fresh;
            i += 1;
        }
        let nb = generate_buffer_data(&self.particles);
        self.buffer = nb;
    }
}

/// A point scattered uniformly in the spawn cube: each axis offset by the
/// radius times an independent random factor in `[-1.0, 1.0]`.
fn scatter(center: &Vec3, radius: i64) -> (r: Vec3)
    requires
        spawn_ok(center@, radius as int),
    ensures
        in_cube(r@, center@, radius as int),
{
    let ux = generate_rng(-FX_ONE, FX_ONE);
    let uy = generate_rng(-FX_ONE, FX_ONE);
    let uz = generate_rng(-FX_ONE, FX_ONE);
    proof {
        lemma_fx_mul_unit_bound(radius as int, ux as int);
        lemma_fx_mul_unit_bound(radius as int, uy as int);
        lemma_fx_mul_unit_bound(radius as int, uz as int);
    }
    let ox = fx_mul(radius, ux);
    let oy = fx_mul(radius, uy);
    let oz = fx_mul(radius, uz);
    Vec3 { x: center.x + ox, y: center.y + oy, z: center.z + oz }
}

// The laws of the tick.

/// Life monotonicity: a live particle that outlasts the tick is exactly
/// the aged particle — its life has dropped by precisely the tick length
/// and it was not respawned.
pub proof fn lemma_life_monotonic(
    p0: ParticleV,
    p1: ParticleV,
    dt: int,
    center: Vec3i,
    radius: int,
    life_min: int,
    life_max: int,
)
    requires
        0 <= dt < p0.life,
        tick_step(p0, p1, dt, center, radius, life_min, life_max),
    ensures
        p1 == update_s(p0, dt),
        p1.life == p0.life - dt,
        p1.life > 0,
{
}

/// Respawn: a particle already dead at the start of a tick ends the tick
/// freshly spawned — lifetime inside the configured interval, position
/// inside the spawn cube, velocity and color reset to the behaviours'
/// initial values.
pub proof fn lemma_respawn(
    p0: ParticleV,
    p1: ParticleV,
    dt: int,
    center: Vec3i,
    radius: int,
    life_min: int,
    life_max: int,
)
    requires
        p0.life <= 0,
        dt >= 0,
        tick_step(p0, p1, dt, center, radius, life_min, life_max),
    ensures
        life_min <= p1.life <= life_max,
        in_cube(p1.position, center, radius),
        p1.velocity == vel_init_s(p0.velocity_fun),
        p1.color == col_init_s(p0.color_fun),
        p1.velocity_fun == p0.velocity_fun,
        p1.color_fun == p0.color_fun,
{
}

} // verus!
