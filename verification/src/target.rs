//! The offscreen render target and its descriptor: sizing by the downsample
//! rule, creation, and in-place resize with handle identity preserved.

use vstd::prelude::*;

verus! {

/// Downsample exponent of the default build configuration: each axis of the
/// offscreen target is the viewport axis shifted right by this many bits.
pub const CLOUD_DOWNSAMPLE: u32 = 2;

/// A viewport's physical size in pixels, as polled once per frame.
#[derive(Clone, Copy, PartialEq, Eq, Structural, Debug)]
pub struct ViewportSize {
    pub width: u32,
    pub height: u32,
}

/// Pixel format of a render target. The default configuration renders the
/// cloud into a BGRA sRGB surface.
#[derive(Clone, Copy, PartialEq, Eq, Structural, Debug)]
pub enum PixelFormat {
    Bgra8UnormSrgb,
    Rgba8UnormSrgb,
}

/// Usage capabilities requested for a texture allocation.
#[derive(Clone, Copy, PartialEq, Eq, Structural, Debug)]
pub struct UsageMask {
    pub sampled: bool,
    pub copy_dst: bool,
    pub render_attachment: bool,
}

impl UsageMask {
    /// An offscreen target must be sampled by the compositing shader, accept
    /// copies, and serve as a render attachment, all at once.
    pub open spec fn supports_offscreen(&self) -> bool {
        self.sampled && self.copy_dst && self.render_attachment
    }

    /// The full mask an offscreen target is created with.
    pub fn offscreen() -> (m: UsageMask)
        ensures
            m.supports_offscreen(),
    {
        UsageMask { sampled: true, copy_dst: true, render_attachment: true }
    }
}

/// Size, format and usage of one texture allocation. The dimensions are
/// always the viewport dimensions right-shifted by the downsample exponent,
/// recomputed only when the viewport changes.
#[derive(Clone, Copy, PartialEq, Eq, Structural, Debug)]
pub struct RenderTargetDescriptor {
    pub width: u32,
    pub height: u32,
    pub format: PixelFormat,
    pub usage: UsageMask,
}

/// One axis of the downsample rule: shift right by the exponent.
pub open spec fn downsampled(dim: u32, exponent: u32) -> u32 {
    dim >> exponent
}

/// Downsample law: for every dimension and exponent, the computed target
/// dimension is the floor of the dimension divided by two to the exponent —
/// never interpolated or smoothed.
pub proof fn lemma_downsample_is_floor_div(dim: u32, exponent: u32)
    requires
        exponent < 32,
    ensures
        downsampled(dim, exponent) as nat == dim as nat / vstd::arithmetic::power2::pow2(
            exponent as nat,
        ),
{
    vstd::bits::lemma_u32_shr_is_div(dim, exponent);
}

/// Descriptor for a target that tracks `viewport` under downsample
/// `exponent`. Each dimension equals the viewport dimension shifted right by
/// the exponent, which is floor division by two to the exponent.
pub fn descriptor_for_viewport(
    viewport: ViewportSize,
    exponent: u32,
    format: PixelFormat,
    usage: UsageMask,
) -> (d: RenderTargetDescriptor)
    requires
        exponent < 32,
    ensures
        d.width == downsampled(viewport.width, exponent),
        d.height == downsampled(viewport.height, exponent),
        d.width as nat == viewport.width as nat / vstd::arithmetic::power2::pow2(exponent as nat),
        d.height as nat == viewport.height as nat / vstd::arithmetic::power2::pow2(
            exponent as nat,
        ),
        d.format == format,
        d.usage == usage,
{
    proof {
        vstd::bits::lemma_u32_shr_is_div(viewport.width, exponent);
        vstd::bits::lemma_u32_shr_is_div(viewport.height, exponent);
    }
    RenderTargetDescriptor {
        width: viewport.width >> exponent,
        height: viewport.height >> exponent,
        format,
        usage,
    }
}

/// Source of fresh resource identifiers, standing for the device's
/// allocation order. Every texture generation and noise buffer drawn from one
/// source is distinct from every other.
pub struct ResourceIds {
    pub next: u64,
}

impl ResourceIds {
    /// The identifier the next allocation will receive.
    pub open spec fn next_id(&self) -> u64 {
        self.next
    }

    pub fn new() -> (ids: ResourceIds)
        ensures
            ids.next_id() == 0,
    {
        ResourceIds { next: 0 }
    }

    /// Hand out the next identifier. Every id handed out earlier is below
    /// `next_id()`, so ids from one source never repeat.
    pub fn fresh(&mut self) -> (id: u64)
        requires
            old(self).next_id() < u64::MAX,
        ensures
            id == old(self).next_id(),
            final(self).next_id() == id + 1,
    {
        let id = self.next;
        self.next = self.next + 1;
        id
    }
}

/// Stable logical handle to a texture. Holders keep resolving through the
/// same handle across resizes; only the physical allocation behind it moves.
#[derive(Clone, Copy, PartialEq, Eq, Structural, Debug)]
pub struct TextureHandle {
    pub id: u64,
}

/// Why a target operation was refused.
#[derive(Clone, Copy, PartialEq, Eq, Structural, Debug)]
pub enum TargetError {
    /// The requested usage mask lacks one of sampled, copy-destination or
    /// render-attachment, so the device cannot host an offscreen pass on it.
    /// This is a startup-time condition, never a runtime-recoverable one.
    UnsupportedUsage,
}

/// The offscreen render target: one stable handle, one current physical
/// allocation (its generation), and the descriptor that allocation matches.
/// A resize reallocates the texture (a new generation) but keeps the handle,
/// so every holder of the handle observes the new contents.
pub struct OffscreenTarget {
    pub handle: TextureHandle,
    pub generation: u64,
    pub descriptor: RenderTargetDescriptor,
}

impl OffscreenTarget {
    /// The target's allocations were drawn from `ids`: any further id from
    /// `ids` is distinct from the current generation.
    pub open spec fn drawn_from(&self, ids: ResourceIds) -> bool {
        self.generation < ids.next_id()
    }

    /// Allocate a target matching `descriptor`. Refused exactly when the
    /// usage mask cannot host an offscreen pass; the caller must treat that
    /// as fatal at startup.
    pub fn create(ids: &mut ResourceIds, descriptor: RenderTargetDescriptor) -> (r: Result<
        OffscreenTarget,
        TargetError,
    >)
        requires
            old(ids).next_id() + 2 <= u64::MAX,
        ensures
            descriptor.usage.supports_offscreen() ==> (r matches Ok(t) && t.descriptor
                == descriptor && t.handle.id == old(ids).next_id()
                && t.generation == old(ids).next_id() + 1 && t.drawn_from(*final(ids))
                && final(ids).next_id() == old(ids).next_id() + 2),
            !descriptor.usage.supports_offscreen() ==> (r == Result::<
                OffscreenTarget,
                TargetError,
            >::Err(TargetError::UnsupportedUsage) && *final(ids) == *old(ids)),
    {
        if !(descriptor.usage.sampled && descriptor.usage.copy_dst
            && descriptor.usage.render_attachment) {
            return Err(TargetError::UnsupportedUsage);
        }
        let handle_id = ids.fresh();
        let generation = ids.fresh();
        Ok(OffscreenTarget { handle: TextureHandle { id: handle_id }, generation, descriptor })
    }

    /// The target after a resize to `descriptor` with `ids` as the id
    /// source: unchanged when the descriptor already matches, else the same
    /// handle over a fresh generation.
    pub open spec fn resized(self, ids: ResourceIds, descriptor: RenderTargetDescriptor) -> (
        OffscreenTarget,
        ResourceIds,
    ) {
        if descriptor == self.descriptor {
            (self, ids)
        } else {
            (
                OffscreenTarget {
                    handle: self.handle,
                    generation: ids.next_id(),
                    descriptor,
                },
                ResourceIds { next: (ids.next_id() + 1) as u64 },
            )
        }
    }

    /// Resolve a logical handle against this target. The handle's identity
    /// survives resizes, so a holder that resolves after a resize sees the
    /// current allocation's descriptor — never a destroyed texture's.
    pub fn resolve(&self, handle: TextureHandle) -> (r: Option<RenderTargetDescriptor>)
        ensures
            handle == self.handle ==> r == Some(self.descriptor),
            handle != self.handle ==> r is None,
    {
        if handle.id == self.handle.id {
            Some(self.descriptor)
        } else {
            None
        }
    }

    /// Reallocate the backing texture in place. The handle's identity is
    /// preserved; a call with the current descriptor is a no-op that touches
    /// nothing.
    pub fn resize(&mut self, ids: &mut ResourceIds, descriptor: RenderTargetDescriptor)
        requires
            old(ids).next_id() < u64::MAX,
            old(self).drawn_from(*old(ids)),
        ensures
            (*final(self), *final(ids)) == old(self).resized(*old(ids), descriptor),
            final(self).handle == old(self).handle,
            final(self).descriptor == descriptor,
            final(self).drawn_from(*final(ids)),
            descriptor == old(self).descriptor ==> (*final(self) == *old(self) && *final(ids)
                == *old(ids)),
            descriptor != old(self).descriptor ==> final(self).generation != old(self).generation,
    {
        let same = descriptor == self.descriptor;
        if !same {
            let generation = ids.fresh();
            self.generation = generation;
            self.descriptor = descriptor;
        }
    }
}

} // verus!
