//! The presentation-surface configuration and the per-frame decision rules
//! of the render loop: how a resize request changes the configuration, which
//! surface format to pick from the ones a surface supports, and what to do
//! when acquiring a frame fails.

use vstd::prelude::*;

verus! {

/// The configuration a presentation surface was last configured with:
/// its dimensions in pixels. A pipeline built against one configuration is
/// valid only for that configuration, so every accepted resize also demands
/// a pipeline rebuild.
#[derive(Clone, Copy, Debug, PartialEq, Eq, Structural)]
pub struct SurfaceConfig {
    pub width: u32,
    pub height: u32,
}

impl SurfaceConfig {
    pub fn new(width: u32, height: u32) -> (r: Self)
        ensures
            r.width == width,
            r.height == height,
    {
        SurfaceConfig { width, height }
    }

    /// Apply a resize request. A request with a zero dimension (a minimized
    /// or degenerate window) is ignored and the prior configuration kept;
    /// any other request replaces the stored dimensions. Returns whether the
    /// configuration changed, i.e. whether the surface must be reconfigured
    /// and the pipeline rebuilt before the next draw.
    pub fn resize(&mut self, new_width: u32, new_height: u32) -> (changed: bool)
        ensures
            changed == (new_width > 0 && new_height > 0),
            changed ==> final(self).width == new_width && final(self).height == new_height,
            !changed ==> *final(self) == *old(self),
    {
        if new_width > 0 && new_height > 0 {
            self.width = new_width;
            self.height = new_height;
            true
        } else {
            false
        }
    }
}

/// The ways acquiring the next presentable frame can fail.
#[derive(Clone, Copy, Debug, PartialEq, Eq, Structural)]
pub enum AcquireError {
    /// The surface was lost and must be reconfigured before any further use.
    Lost,
    /// The surface no longer matches the window; the next tick will resize.
    Outdated,
    /// No frame became available in time.
    Timeout,
    /// The driver is out of memory; unrecoverable.
    OutOfMemory,
}

/// What the frame loop does about a failed frame acquisition.
#[derive(Clone, Copy, Debug, PartialEq, Eq, Structural)]
pub enum FrameAction {
    /// Reconfigure the surface at its current size (and rebuild the
    /// pipeline), then skip this frame.
    Reconfigure,
    /// Skip this frame and try again next tick.
    SkipFrame,
    /// Stop issuing frames entirely: the error is unrecoverable.
    Fatal,
}

/// How each acquisition failure is handled: a lost surface forces a
/// reconfiguration, running out of memory is fatal, and everything else is
/// transient and only costs the current frame.
pub open spec fn action_for(e: AcquireError) -> FrameAction {
    match e {
        AcquireError::Lost => FrameAction::Reconfigure,
        AcquireError::OutOfMemory => FrameAction::Fatal,
        AcquireError::Outdated => FrameAction::SkipFrame,
        AcquireError::Timeout => FrameAction::SkipFrame,
    }
}

/// Decide how the frame loop reacts to a failed frame acquisition.
pub fn acquire_error_action(e: AcquireError) -> (r: FrameAction)
    ensures
        r == action_for(e),
{
    match e {
        AcquireError::Lost => FrameAction::Reconfigure,
        AcquireError::OutOfMemory => FrameAction::Fatal,
        AcquireError::Outdated => FrameAction::SkipFrame,
        AcquireError::Timeout => FrameAction::SkipFrame,
    }
}

/// Pick the surface format to configure with, given, for each format the
/// surface supports (in the order the driver reports them), whether it is an
/// sRGB format. The first sRGB format wins; if there is none, the first
/// format is used; an empty list yields no choice.
pub fn pick_format(srgb: &Vec<bool>) -> (r: Option<usize>)
    ensures
        r is Some <==> srgb@.len() > 0,
        match r {
            Some(i) => {
                &&& i < srgb@.len()
                &&& forall|j: int| 0 <= j < i ==> !srgb@[j]
                &&& srgb@[i as int] || (i == 0 && forall|j: int| 0 <= j < srgb@.len() ==> !srgb@[j])
            },
            None => srgb@.len() == 0,
        },
{
    let n = srgb.len();
    if n == 0 {
        return None;
    }
    let mut i: usize = 0;
    while i < n
        invariant
            n == srgb@.len(),
            0 <= i <= n,
            forall|j: int| 0 <= j < i ==> !srgb@[j],
        decreases n - i,
    {
        if srgb[i] {
            return Some(i);
        }
        i = i + 1;
    }
    Some(0)
}

} // verus!
