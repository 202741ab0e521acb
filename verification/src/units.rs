//! Fixed-point units and arithmetic for the simulation.
//!
//! Every physical quantity is an integer count of milli-units: positions in
//! thousandths of a pixel, velocities in thousandths of a pixel per second,
//! time in thousandths of a second, color channels in thousandths of full
//! intensity. Scaling a quantity by a ratio is an exact integer operation,
//! `a * b / d` with the division truncated toward zero, so every step of the
//! simulation is a mathematical function of its inputs.

use vstd::prelude::*;
use vstd::arithmetic::div_mod::{lemma_div_nonincreasing, lemma_div_pos_is_pos};
use vstd::arithmetic::mul::{
    lemma_mul_cancels_negatives, lemma_mul_nonnegative, lemma_mul_unary_negation,
};

verus! {

/// Milli-units per unit: the fixed-point scale.
pub const SCALE: i64 = 1000;

/// Rendered size of one particle, in milli-pixels (3 pixels).
pub const PARTICLE_SIZE: i64 = 3000;

/// Half the particle size: the distance a particle's center must keep from
/// every boundary.
pub const RADIUS: i64 = 1500;

/// Horizontal gravity, in milli-pixels per second squared (none).
pub const GRAVITY_X: i64 = 0;

/// Downward gravity, in milli-pixels per second squared (9.8 px/s^2;
/// the y axis grows downward).
pub const GRAVITY_Y: i64 = 9800;

/// A bounce keeps `DAMP_NUM / DAMP_DEN` (0.7) of the pre-bounce speed.
pub const DAMP_NUM: i64 = 7;
pub const DAMP_DEN: i64 = 10;

/// Initial velocities are drawn from `[-V, V)` per axis, in milli-pixels
/// per second (50 px/s).
pub const INITIAL_VELOCITY_RANGE: i64 = 50000;

/// Initial color channels are drawn from `[CHANNEL_MIN, CHANNEL_FULL)`
/// (a pastel range avoiding near-black); alpha is exactly `CHANNEL_FULL`.
pub const CHANNEL_MIN: i64 = 300;
pub const CHANNEL_FULL: i64 = 1000;

/// How many particles a default store holds.
pub const NUM_PARTICLES: usize = 5000;

/// Largest frame delta a step accepts, in milli-seconds (1000 s).
pub const DT_CAP: i64 = 1_000_000;

/// Largest velocity magnitude a step accepts, in milli-pixels per second.
pub const VEL_CAP: i64 = 1_000_000_000_000;

/// Largest position magnitude a step accepts, in milli-pixels.
pub const POS_CAP: i64 = 10_000_000_000_000;

/// Largest boundary dimension, in milli-pixels: `u32::MAX` pixels.
pub const DIM_CAP: i64 = 4_294_967_295_000;

/// Bound on the velocity one step of gravity can add: `GRAVITY_Y * DT_CAP`
/// (the scaled increment is smaller still).
pub const GRAV_STEP_CAP: i64 = 9_800_000_000;

/// Mathematical absolute value.
pub open spec fn abs_i(x: int) -> int {
    if x >= 0 {
        x
    } else {
        -x
    }
}

/// Division truncated toward zero — the semantics of `/` on machine
/// integers — defined for a positive divisor. (The ghost `/` on `int` is
/// Euclidean; on a nonnegative dividend the two agree.)
pub open spec fn tdiv(n: int, d: int) -> int
    recommends
        d > 0,
{
    if n >= 0 {
        n / d
    } else {
        -((-n) / d)
    }
}

/// Scaling by a ratio never grows a quantity's magnitude past the product's,
/// and keeps its sign.
pub proof fn lemma_tdiv_bounds(n: int, d: int)
    requires
        d > 0,
    ensures
        abs_i(tdiv(n, d)) <= abs_i(n),
        n >= 0 ==> 0 <= tdiv(n, d),
        n <= 0 ==> tdiv(n, d) <= 0,
{
    if n >= 0 {
        lemma_div_pos_is_pos(n, d);
        lemma_div_nonincreasing(n, d);
    } else {
        lemma_div_pos_is_pos(-n, d);
        lemma_div_nonincreasing(-n, d);
    }
}

/// Compute `a * b / d` with the division truncated toward zero: the one
/// arithmetic primitive of the simulation, used to scale a velocity by a
/// time step, a force by a time step, and a speed by the damping ratio.
pub fn mul_div(a: i64, b: i64, d: i64) -> (r: i64)
    requires
        d > 0,
        a != i64::MIN,
        b != i64::MIN,
        abs_i(a as int) * abs_i(b as int) <= i64::MAX as int,
    ensures
        r as int == tdiv((a as int) * (b as int), d as int),
        abs_i(r as int) <= abs_i(a as int) * abs_i(b as int),
{
    let ghost ai: int = a as int;
    let ghost bi: int = b as int;
    let neg: bool = (a < 0) != (b < 0);
    let ma: u64 = if a >= 0 {
        a as u64
    } else {
        (-a) as u64
    };
    let mb: u64 = if b >= 0 {
        b as u64
    } else {
        (-b) as u64
    };
    proof {
        assert(ma as int == abs_i(ai));
        assert(mb as int == abs_i(bi));
        if a >= 0 && b >= 0 {
            lemma_mul_nonnegative(ai, bi);
            assert((ma as int) * (mb as int) == ai * bi);
        } else if a >= 0 {
            lemma_mul_unary_negation(ai, bi);
            lemma_mul_nonnegative(ai, -bi);
            assert((ma as int) * (mb as int) == ai * (-bi));
            assert(ai * (-bi) == -(ai * bi));
            assert(ai * bi <= 0);
        } else if b >= 0 {
            lemma_mul_unary_negation(ai, bi);
            lemma_mul_nonnegative(-ai, bi);
            assert((ma as int) * (mb as int) == (-ai) * bi);
            assert((-ai) * bi == -(ai * bi));
            assert(ai * bi <= 0);
        } else {
            lemma_mul_cancels_negatives(ai, bi);
            lemma_mul_nonnegative(-ai, -bi);
            assert((ma as int) * (mb as int) == (-ai) * (-bi));
            assert((-ai) * (-bi) == ai * bi);
        }
        assert((ma as int) * (mb as int) == abs_i(ai * bi));
    }
    let p: u64 = ma * mb;
    let q: u64 = p / (d as u64);
    proof {
        lemma_div_pos_is_pos(p as int, d as int);
        lemma_div_nonincreasing(p as int, d as int);
    }
    let qi: i64 = q as i64;
    if neg {
        -qi
    } else {
        qi
    }
}

} // verus!
