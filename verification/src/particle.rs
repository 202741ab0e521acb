//! One particle and its integration step.
//!
//! A particle is a point mass with a position, a velocity and a color, all
//! in fixed-point milli-units. Each tick it gains velocity from gravity,
//! moves by its velocity, and bounces off the four boundaries of the play
//! area: a crossed boundary clamps the position so the whole particle stays
//! inside and reverses the corresponding velocity component scaled by the
//! damping factor. The step is specified exactly by [`spec_update`].

use vstd::prelude::*;
use vstd::arithmetic::div_mod::{
    lemma_div_by_multiple, lemma_div_is_ordered, lemma_div_pos_is_pos,
};
use vstd::arithmetic::mul::lemma_mul_upper_bound;
use crate::units::{
    abs_i, mul_div, tdiv, DAMP_DEN, DAMP_NUM, DIM_CAP, DT_CAP, GRAVITY_X, GRAVITY_Y,
    GRAV_STEP_CAP, POS_CAP, RADIUS, SCALE, VEL_CAP,
};

verus! {

/// A 2D vector in milli-units.
#[derive(Clone, Copy, Debug, PartialEq, Eq, Structural)]
pub struct Vec2M {
    pub x: i64,
    pub y: i64,
}

/// An RGBA color, each channel in milli-intensity (1000 is full).
#[derive(Clone, Copy, Debug, PartialEq, Eq, Structural)]
pub struct ColorM {
    pub r: i64,
    pub g: i64,
    pub b: i64,
    pub a: i64,
}

/// Mathematical model of a 2D vector.
pub ghost struct V2 {
    pub x: int,
    pub y: int,
}

/// Mathematical model of an RGBA color.
pub ghost struct Rgba {
    pub r: int,
    pub g: int,
    pub b: int,
    pub a: int,
}

/// Mathematical model of a particle's state.
pub ghost struct ParticleModel {
    pub pos: V2,
    pub vel: V2,
    pub color: Rgba,
}

/// Mathematical model of one per-instance render record.
pub ghost struct InstanceModel {
    pub pos: V2,
    pub color: Rgba,
}

impl View for Vec2M {
    type V = V2;

    open spec fn view(&self) -> V2 {
        V2 { x: self.x as int, y: self.y as int }
    }
}

impl View for ColorM {
    type V = Rgba;

    open spec fn view(&self) -> Rgba {
        Rgba { r: self.r as int, g: self.g as int, b: self.b as int, a: self.a as int }
    }
}

/// One simulated point mass, owned and mutated in place by the store.
#[derive(Clone, Copy, Debug, PartialEq, Eq, Structural)]
pub struct Particle {
    pub position: Vec2M,
    pub velocity: Vec2M,
    pub color: ColorM,
}

impl View for Particle {
    type V = ParticleModel;

    open spec fn view(&self) -> ParticleModel {
        ParticleModel { pos: self.position@, vel: self.velocity@, color: self.color@ }
    }
}

/// The GPU-facing projection of one particle: position and color, the
/// fields the instanced draw varies per particle. Derived anew every frame;
/// never mutated on its own.
#[derive(Clone, Copy, Debug, PartialEq, Eq, Structural)]
pub struct ParticleInstance {
    pub position: Vec2M,
    pub color: ColorM,
}

impl View for ParticleInstance {
    type V = InstanceModel;

    open spec fn view(&self) -> InstanceModel {
        InstanceModel { pos: self.position@, color: self.color@ }
    }
}

/// What projecting a particle yields: its position and color, unchanged.
pub open spec fn inst_of(m: ParticleModel) -> InstanceModel {
    InstanceModel { pos: m.pos, color: m.color }
}

/// The velocity after gravity has acted for `dt` milli-seconds.
pub open spec fn vel_after_gravity(p: ParticleModel, dt: int) -> V2 {
    V2 {
        x: p.vel.x + tdiv(GRAVITY_X * dt, SCALE as int),
        y: p.vel.y + tdiv(GRAVITY_Y * dt, SCALE as int),
    }
}

/// The position after moving by the new velocity for `dt` milli-seconds,
/// before any boundary handling.
pub open spec fn pos_tentative(p: ParticleModel, dt: int) -> V2 {
    let v = vel_after_gravity(p, dt);
    V2 {
        x: p.pos.x + tdiv(v.x * dt, SCALE as int),
        y: p.pos.y + tdiv(v.y * dt, SCALE as int),
    }
}

/// A bounced velocity component: reversed, at `DAMP_NUM / DAMP_DEN` of its
/// speed.
pub open spec fn damped(v: int) -> int {
    -tdiv(v * DAMP_NUM, DAMP_DEN as int)
}

/// Boundary handling along one axis, in the order the step applies it:
/// first the far boundary (at `limit`), then the near boundary (at 0).
/// A crossing clamps the position so the particle's edge rests on the
/// boundary and damps the reversed velocity component.
pub open spec fn clamp_axis(pos: int, vel: int, limit: int) -> (int, int) {
    let far = if pos + RADIUS > limit {
        (limit - RADIUS, damped(vel))
    } else {
        (pos, vel)
    };
    if far.0 - RADIUS < 0 {
        (RADIUS as int, damped(far.1))
    } else {
        far
    }
}

/// One whole integration step: gravity, motion, then boundary handling on
/// the vertical axis (bottom boundary before top) and the horizontal axis
/// (right boundary before left). The color never changes.
pub open spec fn spec_update(p: ParticleModel, dt: int, width: int, height: int) -> ParticleModel {
    let v1 = vel_after_gravity(p, dt);
    let q1 = pos_tentative(p, dt);
    let vert = clamp_axis(q1.y, v1.y, height);
    let horiz = clamp_axis(q1.x, v1.x, width);
    ParticleModel {
        pos: V2 { x: horiz.0, y: vert.0 },
        vel: V2 { x: horiz.1, y: vert.1 },
        color: p.color,
    }
}

/// Whether the particle rests entirely inside the play area: its center at
/// least `RADIUS` from every boundary.
pub open spec fn in_bounds(p: ParticleModel, width: int, height: int) -> bool {
    &&& RADIUS <= p.pos.x
    &&& p.pos.x + RADIUS <= width
    &&& RADIUS <= p.pos.y
    &&& p.pos.y + RADIUS <= height
}

/// A tick with a zero time delta is a true no-op on a particle that rests
/// inside the play area: gravity adds `GRAVITY * 0` to the velocity, the
/// position moves by `velocity * 0`, and no boundary fires, so position and
/// velocity both come out unchanged.
pub proof fn lemma_zero_dt_fixpoint(p: ParticleModel, width: int, height: int)
    requires
        in_bounds(p, width, height),
    ensures
        spec_update(p, 0, width, height) == p,
{
    assert(GRAVITY_X * 0 == 0);
    assert(GRAVITY_Y * 0 == 0);
    assert(vel_after_gravity(p, 0) == p.vel);
    assert(p.vel.x * 0 == 0);
    assert(p.vel.y * 0 == 0);
    assert(pos_tentative(p, 0) == p.pos);
}

/// Reverse and damp one velocity component, exactly as [`damped`] says.
/// The result is never faster than the input.
fn damp(vel: i64) -> (r: i64)
    requires
        abs_i(vel as int) <= VEL_CAP + GRAV_STEP_CAP,
    ensures
        r as int == damped(vel as int),
        abs_i(r as int) <= abs_i(vel as int),
{
    proof {
        assert(abs_i(vel as int) * abs_i(DAMP_NUM as int) <= i64::MAX as int)
            by (nonlinear_arith)
            requires
                0 <= abs_i(vel as int) <= VEL_CAP + GRAV_STEP_CAP,
                abs_i(DAMP_NUM as int) == 7,
        ;
    }
    let m = mul_div(vel, DAMP_NUM, DAMP_DEN);
    proof {
        let av = abs_i(vel as int);
        assert(0 <= av);
        assert((vel as int) * (DAMP_NUM as int) == if vel >= 0 {
            av * 7
        } else {
            -(av * 7)
        }) by (nonlinear_arith)
            requires
                av == abs_i(vel as int),
                abs_i(vel as int) == if vel as int >= 0 {
                    vel as int
                } else {
                    -(vel as int)
                },
        ;
        lemma_div_is_ordered(av * 7, av * 10, 10);
        lemma_div_by_multiple(av, 10);
        lemma_div_pos_is_pos(av * 7, 10);
        if vel >= 0 {
            assert(m as int == (av * 7) / 10);
        } else {
            assert(m as int == -((av * 7) / 10));
        }
    }
    -m
}

/// Boundary handling along one axis, exactly as [`clamp_axis`] says. The
/// resulting position keeps the particle inside `[0, limit]` with `RADIUS`
/// to spare, and the resulting component is never faster than the input.
fn clamp_axis_step(pos: i64, vel: i64, limit: i64) -> (r: (i64, i64))
    requires
        2 * RADIUS <= limit <= DIM_CAP,
        abs_i(pos as int) <= POS_CAP + (VEL_CAP + GRAV_STEP_CAP) * DT_CAP,
        abs_i(vel as int) <= VEL_CAP + GRAV_STEP_CAP,
    ensures
        (r.0 as int, r.1 as int) == clamp_axis(pos as int, vel as int, limit as int),
        RADIUS <= r.0,
        r.0 + RADIUS <= limit,
        abs_i(r.1 as int) <= abs_i(vel as int),
{
    let mut p = pos;
    let mut v = vel;
    if p + RADIUS > limit {
        p = limit - RADIUS;
        v = damp(v);
    }
    if p - RADIUS < 0 {
        p = RADIUS;
        v = damp(v);
    }
    (p, v)
}

impl Particle {
    /// Make a particle from its parts.
    pub fn new(position: Vec2M, velocity: Vec2M, color: ColorM) -> (r: Self)
        ensures
            r.position == position,
            r.velocity == velocity,
            r.color == color,
    {
        Particle { position, velocity, color }
    }

    /// Advance this particle by one tick of `dt` milli-seconds inside a
    /// `width` by `height` milli-pixel play area: gravity, motion, then
    /// damped boundary bounces. The new state is exactly
    /// [`spec_update`] of the old; afterwards the particle rests inside the
    /// play area, whatever state it started from.
    pub fn update(&mut self, dt: i64, width: i64, height: i64)
        requires
            0 <= dt <= DT_CAP,
            2 * RADIUS <= width <= DIM_CAP,
            2 * RADIUS <= height <= DIM_CAP,
            abs_i(old(self).position.x as int) <= POS_CAP,
            abs_i(old(self).position.y as int) <= POS_CAP,
            abs_i(old(self).velocity.x as int) <= VEL_CAP,
            abs_i(old(self).velocity.y as int) <= VEL_CAP,
        ensures
            final(self)@ == spec_update(old(self)@, dt as int, width as int, height as int),
            RADIUS <= final(self).position.x,
            final(self).position.x + RADIUS <= width,
            RADIUS <= final(self).position.y,
            final(self).position.y + RADIUS <= height,
            final(self).color == old(self).color,
            abs_i(final(self).velocity.x as int) <= abs_i(old(self).velocity.x as int),
            abs_i(final(self).velocity.y as int) <= abs_i(old(self).velocity.y as int)
                + GRAV_STEP_CAP,
            pos_tentative(old(self)@, dt as int).y + RADIUS > height
                ==> final(self).velocity.y as int
                == damped(vel_after_gravity(old(self)@, dt as int).y),
            dt == 0 && in_bounds(old(self)@, width as int, height as int)
                ==> final(self)@ == old(self)@,
    {
        proof {
            assert(abs_i(GRAVITY_X as int) * abs_i(dt as int) == 0) by (nonlinear_arith)
                requires
                    abs_i(GRAVITY_X as int) == 0,
                    0 <= abs_i(dt as int),
            ;
            assert(abs_i(GRAVITY_Y as int) * abs_i(dt as int) <= GRAV_STEP_CAP)
                by (nonlinear_arith)
                requires
                    abs_i(GRAVITY_Y as int) == 9800,
                    0 <= abs_i(dt as int) <= 1_000_000,
            ;
        }
        let gdx = mul_div(GRAVITY_X, dt, SCALE);
        let gdy = mul_div(GRAVITY_Y, dt, SCALE);
        let vx1 = self.velocity.x + gdx;
        let vy1 = self.velocity.y + gdy;
        proof {
            lemma_mul_upper_bound(abs_i(vx1 as int), VEL_CAP + GRAV_STEP_CAP, abs_i(dt as int),
                DT_CAP as int);
            lemma_mul_upper_bound(abs_i(vy1 as int), VEL_CAP + GRAV_STEP_CAP, abs_i(dt as int),
                DT_CAP as int);
        }
        let sdx = mul_div(vx1, dt, SCALE);
        let sdy = mul_div(vy1, dt, SCALE);
        let px1 = self.position.x + sdx;
        let py1 = self.position.y + sdy;
        let vert = clamp_axis_step(py1, vy1, height);
        let horiz = clamp_axis_step(px1, vx1, width);
        self.position = Vec2M { x: horiz.0, y: vert.0 };
        self.velocity = Vec2M { x: horiz.1, y: vert.1 };
    }

    /// Project this particle into its per-instance render record.
    pub fn to_instance(&self) -> (r: ParticleInstance)
        ensures
            r@ == inst_of(self@),
    {
        ParticleInstance { position: self.position, color: self.color }
    }
}

} // verus!
