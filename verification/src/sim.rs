//! The particle store: the authoritative per-particle state and its
//! evolution, plus the per-frame projection into render instances.
//!
//! The store owns a fixed number of particles for its whole lifetime: no
//! spawn, no despawn. Each tick every particle is advanced independently by
//! [`spec_update`]; each frame the store is projected, in store order, into
//! one instance record per particle.

use vstd::prelude::*;
use crate::particle::{
    inst_of, spec_update, ColorM, InstanceModel, Particle, ParticleInstance, ParticleModel, Vec2M,
    in_bounds,
};
use crate::rng::{fresh_rng, rng_range};
use crate::units::{
    abs_i, CHANNEL_FULL, CHANNEL_MIN, DIM_CAP, DT_CAP, INITIAL_VELOCITY_RANGE, NUM_PARTICLES,
    POS_CAP, RADIUS, VEL_CAP,
};

verus! {

/// What holds of every freshly initialized particle: position uniformly in
/// `[0, width) x [0, height)` (milli-pixels), each velocity component in
/// `[-V, V)`, a pastel color with every channel in
/// `[CHANNEL_MIN, CHANNEL_FULL)` and alpha at exactly full.
pub open spec fn init_ok(m: ParticleModel, width_px: u32, height_px: u32) -> bool {
    &&& 0 <= m.pos.x < width_px * 1000
    &&& 0 <= m.pos.y < height_px * 1000
    &&& -INITIAL_VELOCITY_RANGE <= m.vel.x < INITIAL_VELOCITY_RANGE
    &&& -INITIAL_VELOCITY_RANGE <= m.vel.y < INITIAL_VELOCITY_RANGE
    &&& CHANNEL_MIN <= m.color.r < CHANNEL_FULL
    &&& CHANNEL_MIN <= m.color.g < CHANNEL_FULL
    &&& CHANNEL_MIN <= m.color.b < CHANNEL_FULL
    &&& m.color.a == CHANNEL_FULL
}

/// Whether every particle's state is within the envelope one integration
/// step's arithmetic accepts.
pub open spec fn step_ready(s: Seq<ParticleModel>) -> bool {
    forall|i: int|
        0 <= i < s.len() ==> {
            &&& abs_i(#[trigger] s[i].pos.x) <= POS_CAP
            &&& abs_i(s[i].pos.y) <= POS_CAP
            &&& abs_i(s[i].vel.x) <= VEL_CAP
            &&& abs_i(s[i].vel.y) <= VEL_CAP
        }
}

/// The projection of a store state: one instance per particle, in store
/// order, each carrying its particle's position and color.
pub open spec fn project_seq(s: Seq<ParticleModel>) -> Seq<InstanceModel> {
    s.map(|i: int, m: ParticleModel| inst_of(m))
}

/// The projection is a pure function of the store state: equal states
/// always project to equal instance sequences.
pub proof fn lemma_projection_pure(s1: Seq<ParticleModel>, s2: Seq<ParticleModel>)
    requires
        s1 == s2,
    ensures
        project_seq(s1) == project_seq(s2),
{
}

/// The projection yields exactly one instance per particle, whatever the
/// store holds.
pub proof fn lemma_projection_count(s: Seq<ParticleModel>)
    ensures
        project_seq(s).len() == s.len(),
{
}

/// The particle store. The particle count is fixed when the store is made
/// and never changes afterwards.
pub struct ParticleSimulation {
    pub particles: Vec<Particle>,
}

impl View for ParticleSimulation {
    type V = Seq<ParticleModel>;

    open spec fn view(&self) -> Seq<ParticleModel> {
        self.particles@.map(|i: int, p: Particle| p@)
    }
}

impl ParticleSimulation {
    /// Populate a store with `count` particles drawn at random: position
    /// uniform over the `width_px` by `height_px` pixel play area, velocity
    /// uniform in `[-V, V)` per axis, and a random pastel color with full
    /// opacity. A zero count yields an empty store.
    pub fn with_count(count: usize, width_px: u32, height_px: u32) -> (r: Self)
        requires
            width_px > 0,
            height_px > 0,
        ensures
            r@.len() == count,
            forall|i: int| 0 <= i < count ==> init_ok(#[trigger] r@[i], width_px, height_px),
    {
        let mut rng = fresh_rng();
        let mut particles: Vec<Particle> = Vec::new();
        let w_hi: u64 = (width_px as u64) * 1000;
        let h_hi: u64 = (height_px as u64) * 1000;
        let mut k: usize = 0;
        while k < count
            invariant
                particles@.len() == k,
                0 <= k <= count,
                w_hi == width_px * 1000,
                h_hi == height_px * 1000,
                width_px > 0,
                height_px > 0,
                forall|j: int|
                    0 <= j < k ==> init_ok(#[trigger] particles@[j]@, width_px, height_px),
            decreases count - k,
        {
            let x = rng_range(&mut rng, 0, w_hi) as i64;
            let y = rng_range(&mut rng, 0, h_hi) as i64;
            let vx = rng_range(&mut rng, 0, 100_000) as i64 - 50_000;
            let vy = rng_range(&mut rng, 0, 100_000) as i64 - 50_000;
            let cr = rng_range(&mut rng, 300, 1000) as i64;
            let cg = rng_range(&mut rng, 300, 1000) as i64;
            let cb = rng_range(&mut rng, 300, 1000) as i64;
            let p = Particle::new(
                Vec2M { x, y },
                Vec2M { x: vx, y: vy },
                ColorM { r: cr, g: cg, b: cb, a: CHANNEL_FULL },
            );
            particles.push(p);
            k = k + 1;
        }
        ParticleSimulation { particles }
    }

    /// Populate a store with the default particle count.
    pub fn new(width_px: u32, height_px: u32) -> (r: Self)
        requires
            width_px > 0,
            height_px > 0,
        ensures
            r@.len() == NUM_PARTICLES,
            forall|i: int|
                0 <= i < r@.len() ==> init_ok(#[trigger] r@[i], width_px, height_px),
    {
        Self::with_count(NUM_PARTICLES, width_px, height_px)
    }

    /// How many particles the store holds.
    pub fn len(&self) -> (r: usize)
        ensures
            r == self@.len(),
    {
        self.particles.len()
    }

    /// Advance every particle by one tick of `dt` milli-seconds inside a
    /// `width` by `height` milli-pixel play area, in store order (the
    /// particles are independent, so the order cannot be observed).
    /// Afterwards each particle is exactly [`spec_update`] of its old state
    /// and rests inside the play area.
    pub fn update(&mut self, dt: i64, width: i64, height: i64)
        requires
            0 <= dt <= DT_CAP,
            2 * RADIUS <= width <= DIM_CAP,
            2 * RADIUS <= height <= DIM_CAP,
            step_ready(old(self)@),
        ensures
            final(self)@.len() == old(self)@.len(),
            forall|i: int|
                0 <= i < old(self)@.len() ==> #[trigger] final(self)@[i] == spec_update(
                    old(self)@[i],
                    dt as int,
                    width as int,
                    height as int,
                ),
            forall|i: int|
                0 <= i < final(self)@.len() ==> in_bounds(
                    #[trigger] final(self)@[i],
                    width as int,
                    height as int,
                ),
    {
        let n = self.particles.len();
        let mut i: usize = 0;
        while i < n
            invariant
                n == self.particles@.len(),
                self.particles@.len() == old(self).particles@.len(),
                0 <= i <= n,
                0 <= dt <= DT_CAP,
                2 * RADIUS <= width <= DIM_CAP,
                2 * RADIUS <= height <= DIM_CAP,
                step_ready(old(self)@),
                forall|j: int|
                    i <= j < n ==> #[trigger] self.particles@[j] == old(self).particles@[j],
                forall|j: int|
                    0 <= j < i ==> #[trigger] self.particles@[j]@ == spec_update(
                        old(self).particles@[j]@,
                        dt as int,
                        width as int,
                        height as int,
                    ),
                forall|j: int|
                    0 <= j < i ==> in_bounds(
                        #[trigger] self.particles@[j]@,
                        width as int,
                        height as int,
                    ),
            decreases n - i,
        {
            proof {
                assert(old(self)@[i as int] == old(self).particles@[i as int]@);
            }
            let mut p = self.particles[i];
            proof {
                assert(p@ == old(self)@[i as int]);
                assert(abs_i(old(self)@[i as int].pos.x) <= POS_CAP);
                assert(abs_i(p.position.x as int) <= POS_CAP);
            }
            p.update(dt, width, height);
            self.particles.set(i, p);
            i = i + 1;
        }
        proof {
            assert forall|j: int| 0 <= j < old(self)@.len() implies #[trigger] final(self)@[j]
                == spec_update(old(self)@[j], dt as int, width as int, height as int) by {
                assert(final(self)@[j] == self.particles@[j]@);
                assert(old(self)@[j] == old(self).particles@[j]@);
            }
        }
    }

    /// Project the store into its per-instance render records: one per
    /// particle, in store order. Recomputed from the current state on every
    /// call, so the output is a pure function of that state.
    pub fn get_instance_data(&self) -> (r: Vec<ParticleInstance>)
        ensures
            r@.len() == project_seq(self@).len(),
            r@.len() == self@.len(),
            forall|i: int| 0 <= i < r@.len() ==> #[trigger] r@[i]@ == project_seq(self@)[i],
    {
        let n = self.particles.len();
        let mut out: Vec<ParticleInstance> = Vec::new();
        let mut i: usize = 0;
        while i < n
            invariant
                n == self.particles@.len(),
                0 <= i <= n,
                out@.len() == i,
                forall|j: int| 0 <= j < i ==> #[trigger] out@[j]@ == inst_of(self.particles@[j]@),
            decreases n - i,
        {
            out.push(self.particles[i].to_instance());
            i = i + 1;
        }
        proof {
            assert forall|j: int| 0 <= j < out@.len() implies #[trigger] out@[j]@ == project_seq(
                self@,
            )[j] by {
                assert(self@[j] == self.particles@[j]@);
                assert(project_seq(self@)[j] == inst_of(self@[j]));
            }
        }
        out
    }
}

} // verus!
