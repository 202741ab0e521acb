//! The frame orchestrator: the per-tick decisions of the frame loop,
//! owning the store and the surface configuration.
//!
//! Each tick the driver hands it a frame delta; it advances the store and
//! yields the fresh instance records for upload. Resize requests go through
//! it to the surface configuration, never touching the store. What remains
//! outside — actually uploading, drawing and presenting — consumes exactly
//! the values produced here.

use vstd::prelude::*;
use crate::particle::{inst_of, spec_update, ParticleInstance};
use crate::sim::{project_seq, step_ready, ParticleSimulation};
use crate::surface::SurfaceConfig;
use crate::units::{abs_i, DT_CAP, POS_CAP, RADIUS, VEL_CAP};

verus! {

/// Whether the configured play area admits a particle at all: each
/// dimension must hold a whole particle (`2 * RADIUS` milli-pixels).
pub open spec fn dims_ok(c: SurfaceConfig) -> bool {
    &&& 2 * RADIUS <= c.width * 1000
    &&& 2 * RADIUS <= c.height * 1000
}

/// Whether one tick of `dt` milli-seconds can run: the delta and every
/// particle within the arithmetic envelope, and a play area that admits a
/// particle.
pub open spec fn can_step(s: ParticleSimulation, dt: int, c: SurfaceConfig) -> bool {
    &&& 0 <= dt <= DT_CAP
    &&& dims_ok(c)
    &&& step_ready(s@)
}

/// The frame orchestrator's state: the particle store and the surface
/// configuration the next frame will be drawn against.
pub struct FrameCore {
    pub sim: ParticleSimulation,
    pub config: SurfaceConfig,
}

impl FrameCore {
    /// Bring store and configuration together.
    pub fn new(sim: ParticleSimulation, config: SurfaceConfig) -> (r: Self)
        ensures
            r.sim == sim,
            r.config == config,
    {
        FrameCore { sim, config }
    }

    /// How many particles the store holds — and so how many instances every
    /// frame's instance buffer holds, since [`FrameCore::update`] yields
    /// exactly one record per particle and a resize never touches the store.
    pub fn particle_count(&self) -> (r: usize)
        ensures
            r == self.sim@.len(),
    {
        self.sim.len()
    }

    /// Whether one tick of `dt` milli-seconds can run from the current
    /// state.
    pub fn can_update(&self, dt: i64) -> (r: bool)
        ensures
            r == can_step(self.sim, dt as int, self.config),
    {
        if !(0 <= dt && dt <= DT_CAP) {
            return false;
        }
        if !(self.config.width >= 3 && self.config.height >= 3) {
            return false;
        }
        let n = self.sim.particles.len();
        let mut i: usize = 0;
        while i < n
            invariant
                n == self.sim.particles@.len(),
                0 <= i <= n,
                forall|j: int|
                    0 <= j < i ==> {
                        &&& abs_i(#[trigger] self.sim@[j].pos.x) <= POS_CAP
                        &&& abs_i(self.sim@[j].pos.y) <= POS_CAP
                        &&& abs_i(self.sim@[j].vel.x) <= VEL_CAP
                        &&& abs_i(self.sim@[j].vel.y) <= VEL_CAP
                    },
            decreases n - i,
        {
            let p = self.sim.particles[i];
            proof {
                assert(self.sim@[i as int] == self.sim.particles@[i as int]@);
                assert(p@.pos.x == self.sim@[i as int].pos.x);
            }
            if !(-POS_CAP <= p.position.x && p.position.x <= POS_CAP) {
                return false;
            }
            if !(-POS_CAP <= p.position.y && p.position.y <= POS_CAP) {
                return false;
            }
            if !(-VEL_CAP <= p.velocity.x && p.velocity.x <= VEL_CAP) {
                return false;
            }
            if !(-VEL_CAP <= p.velocity.y && p.velocity.y <= VEL_CAP) {
                return false;
            }
            i = i + 1;
        }
        true
    }

    /// One update tick. If the tick can run, advance every particle by
    /// `dt` milli-seconds inside the configured play area and yield the
    /// fresh instance records, one per particle in store order, for the
    /// same-size overwrite of the instance buffer. If it cannot — a delta
    /// or a particle outside the arithmetic envelope, or a play area too
    /// small for a particle — change nothing and yield nothing. The
    /// configuration is never touched.
    pub fn update(&mut self, dt: i64) -> (r: Option<Vec<ParticleInstance>>)
        ensures
            final(self).config == old(self).config,
            r is Some <==> can_step(old(self).sim, dt as int, old(self).config),
            r is None ==> final(self).sim == old(self).sim,
            r is Some ==> {
                &&& final(self).sim@.len() == old(self).sim@.len()
                &&& forall|i: int|
                    0 <= i < old(self).sim@.len() ==> #[trigger] final(self).sim@[i]
                        == spec_update(
                        old(self).sim@[i],
                        dt as int,
                        old(self).config.width * 1000,
                        old(self).config.height * 1000,
                    )
                &&& r.unwrap()@.len() == final(self).sim@.len()
                &&& forall|i: int|
                    0 <= i < r.unwrap()@.len() ==> #[trigger] r.unwrap()@[i]@ == inst_of(
                        final(self).sim@[i],
                    )
            },
    {
        if !self.can_update(dt) {
            return None;
        }
        let width: i64 = (self.config.width as i64) * 1000;
        let height: i64 = (self.config.height as i64) * 1000;
        self.sim.update(dt, width, height);
        let instances = self.sim.get_instance_data();
        proof {
            assert forall|i: int| 0 <= i < instances@.len() implies #[trigger] instances@[i]@
                == inst_of(self.sim@[i]) by {
                assert(instances@[i]@ == project_seq(self.sim@)[i]);
            }
        }
        Some(instances)
    }

    /// Apply a resize request to the configuration. A degenerate request
    /// (a zero dimension) is ignored and the prior configuration kept. The
    /// store — and so the particle count — is never touched. Returns
    /// whether the surface must be reconfigured and the pipeline rebuilt.
    pub fn on_resize(&mut self, new_width: u32, new_height: u32) -> (changed: bool)
        ensures
            final(self).sim == old(self).sim,
            changed == (new_width > 0 && new_height > 0),
            changed ==> final(self).config.width == new_width && final(self).config.height
                == new_height,
            !changed ==> final(self).config == old(self).config,
    {
        self.config.resize(new_width, new_height)
    }
}

} // verus!
