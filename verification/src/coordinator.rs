//! The per-frame resize check: polls the viewport, compares it to the last
//! known size, and on a change resizes the offscreen target and re-points the
//! compositing material in one step.

use vstd::prelude::*;
use crate::material::CompositeMaterial;
use crate::target::OffscreenTarget;
use crate::target::RenderTargetDescriptor;
use crate::target::ResourceIds;
use crate::target::TargetError;
use crate::target::ViewportSize;
use crate::target::descriptor_for_viewport;
use crate::target::downsampled;

verus! {

/// What one run of the per-frame check did.
#[derive(Clone, Copy, PartialEq, Eq, Structural, Debug)]
pub enum FrameAction {
    /// No viewport was available; the check skipped entirely and will retry
    /// next frame. Not an error.
    SkippedNoViewport,
    /// The viewport matches the last known size: the common fast path, which
    /// touches nothing.
    Unchanged,
    /// The viewport changed: the last known size was updated, the target
    /// resized, and the compositing material re-bound, as one unit.
    Resized,
}

/// The resize coordinator: the offscreen target, the compositing material
/// that samples it, the most recently observed viewport size (unset at
/// startup), and the build-time downsample exponent.
pub struct ResizeCoordinator {
    pub target: OffscreenTarget,
    pub composite: CompositeMaterial,
    /// Updated in the same step that triggers a resize, so a resize is never
    /// attempted twice for one observed size. Read and written only here.
    pub last_viewport: Option<ViewportSize>,
    pub downsample: u32,
}

impl ResizeCoordinator {
    /// The target's dimensions follow the last observed viewport under the
    /// downsample rule, whenever a viewport has been observed at all.
    pub open spec fn tracks_viewport(&self) -> bool {
        self.last_viewport matches Some(v) ==> {
            &&& self.target.descriptor.width == downsampled(v.width, self.downsample)
            &&& self.target.descriptor.height == downsampled(v.height, self.downsample)
        }
    }

    /// Well-formed between frames: a valid exponent, a target usable as an
    /// offscreen pass, a compositing binding that is fresh (never stale
    /// across a frame boundary), and dimensions that track the viewport.
    pub open spec fn wf(&self) -> bool {
        &&& self.downsample < 32
        &&& self.target.descriptor.usage.supports_offscreen()
        &&& self.composite.in_sync_with(self.target)
        &&& self.tracks_viewport()
    }

    /// The descriptor the coordinator computes for viewport `v`: both axes
    /// downsampled, format and usage carried over from the current target.
    pub open spec fn descriptor_for(&self, v: ViewportSize) -> RenderTargetDescriptor {
        RenderTargetDescriptor {
            width: downsampled(v.width, self.downsample),
            height: downsampled(v.height, self.downsample),
            format: self.target.descriptor.format,
            usage: self.target.descriptor.usage,
        }
    }

    /// The per-frame check as a function of state and observed viewport:
    /// next coordinator state, next id source, and what was done.
    pub open spec fn step(self, ids: ResourceIds, viewport: Option<ViewportSize>) -> (
        ResizeCoordinator,
        ResourceIds,
        FrameAction,
    ) {
        match viewport {
            None => (self, ids, FrameAction::SkippedNoViewport),
            Some(v) => if self.last_viewport == Some(v) {
                (self, ids, FrameAction::Unchanged)
            } else {
                let (t, next_ids) = self.target.resized(ids, self.descriptor_for(v));
                (
                    ResizeCoordinator {
                        target: t,
                        composite: self.composite.rebound(t),
                        last_viewport: Some(v),
                        downsample: self.downsample,
                    },
                    next_ids,
                    FrameAction::Resized,
                )
            },
        }
    }

    /// Build the coordinator at scene-build time: allocate the target for
    /// `initial` and bind the compositing material to it; no viewport has
    /// been observed yet. Refused exactly when the usage mask cannot host an
    /// offscreen pass, which the caller must treat as fatal at startup.
    pub fn build(ids: &mut ResourceIds, initial: RenderTargetDescriptor, downsample: u32) -> (r:
        Result<ResizeCoordinator, TargetError>)
        requires
            downsample < 32,
            old(ids).next_id() + 2 <= u64::MAX,
        ensures
            initial.usage.supports_offscreen() ==> (r matches Ok(c) && c.wf() && c.last_viewport
                is None && c.downsample == downsample && c.target.descriptor == initial
                && c.target.drawn_from(*final(ids))
                && final(ids).next_id() == old(ids).next_id() + 2),
            !initial.usage.supports_offscreen() ==> (r matches Err(e) && e
                == TargetError::UnsupportedUsage && *final(ids) == *old(ids)),
    {
        let target = match OffscreenTarget::create(ids, initial) {
            Ok(t) => t,
            Err(e) => {
                return Err(e);
            },
        };
        let composite = CompositeMaterial::new(&target);
        Ok(ResizeCoordinator { target, composite, last_viewport: None, downsample })
    }

    /// Run the check once, as the final step before rendering. No viewport:
    /// skip entirely. Unchanged viewport: fast path, nothing touched. A
    /// changed viewport: record it, resize the target to the downsampled
    /// descriptor, and re-bind the compositing material, as one unit — the
    /// state equals `step` of the old state, and the binding leaves the
    /// frame fresh.
    pub fn run_frame(&mut self, ids: &mut ResourceIds, viewport: Option<ViewportSize>) -> (action:
        FrameAction)
        requires
            old(self).wf(),
            old(self).target.drawn_from(*old(ids)),
            old(ids).next_id() < u64::MAX,
        ensures
            (*final(self), *final(ids), action) == old(self).step(*old(ids), viewport),
            final(self).wf(),
            final(self).target.drawn_from(*final(ids)),
            final(self).target.handle == old(self).target.handle,
            viewport is None ==> (*final(self) == *old(self) && *final(ids) == *old(ids) && action
                == FrameAction::SkippedNoViewport),
            viewport matches Some(v) ==> ({
                if old(self).last_viewport == Some(v) {
                    *final(self) == *old(self) && *final(ids) == *old(ids) && action
                        == FrameAction::Unchanged
                } else {
                    action == FrameAction::Resized && final(self).last_viewport == Some(v)
                        && final(self).target.descriptor == old(self).descriptor_for(v)
                }
            }),
    {
        let v = match viewport {
            Some(v) => v,
            None => {
                return FrameAction::SkippedNoViewport;
            },
        };
        let unchanged = match self.last_viewport {
            Some(prev) => prev == v,
            None => false,
        };
        if unchanged {
            return FrameAction::Unchanged;
        }
        self.last_viewport = Some(v);
        let descriptor = descriptor_for_viewport(
            v,
            self.downsample,
            self.target.descriptor.format,
            self.target.descriptor.usage,
        );
        self.target.resize(ids, descriptor);
        self.composite.rebind(&self.target);
        FrameAction::Resized
    }
}

/// Idempotence law: two runs of the check with the same viewport size
/// perform at most one physical resize — whatever the first run did, the
/// second leaves the state untouched and reports the fast path.
pub proof fn lemma_resize_idempotent(c: ResizeCoordinator, ids: ResourceIds, v: ViewportSize)
    ensures
        ({
            let (c1, ids1, a1) = c.step(ids, Some(v));
            c1.step(ids1, Some(v)) == (c1, ids1, FrameAction::Unchanged)
        }),
{
}

/// Atomicity law: a frame never ends with a stale binding — after a step
/// from any well-formed state, the compositing material resolves to the
/// target's current allocation and its dimensions, never a prior
/// generation's.
pub proof fn lemma_rebind_follows_resize(
    c: ResizeCoordinator,
    ids: ResourceIds,
    viewport: Option<ViewportSize>,
)
    requires
        c.wf(),
    ensures
        ({
            let (c1, ids1, a1) = c.step(ids, viewport);
            c1.composite.in_sync_with(c1.target)
        }),
{
}

} // verus!
