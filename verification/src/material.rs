//! The two materials of the pipeline: the raymarching volumetric material,
//! built once with its own noise buffer, and the compositing material, whose
//! only runtime mutation is being re-pointed at the offscreen target.

use vstd::prelude::*;
use crate::noise::NoiseField;
use crate::noise::NoiseFieldGenerator;
use crate::noise::lcg_iter;
use crate::noise::sample_of;
use crate::target::OffscreenTarget;
use crate::target::ResourceIds;
use crate::target::TextureHandle;

verus! {

/// Binding slot of the volumetric material's uniform color.
pub const COLOR_BINDING_SLOT: u32 = 100;

/// Binding slot of the volumetric material's noise buffer.
pub const NOISE_BINDING_SLOT: u32 = 0;

/// Binding slot of the compositing material's sampled texture.
pub const COMPOSITE_TEXTURE_SLOT: u32 = 0;

/// Binding slot of the compositing material's sampler.
pub const COMPOSITE_SAMPLER_SLOT: u32 = 1;

/// How a material's output is blended into its pass.
#[derive(Clone, Copy, PartialEq, Eq, Structural, Debug)]
pub enum AlphaMode {
    /// Ordinary alpha blending.
    Blend,
    /// The color channels already carry the alpha factor; the pass must not
    /// re-multiply.
    Premultiplied,
}

/// A uniform color, one byte per channel.
#[derive(Clone, Copy, PartialEq, Eq, Structural, Debug)]
pub struct ColorRgba {
    pub red: u8,
    pub green: u8,
    pub blue: u8,
    pub alpha: u8,
}

/// The raymarching cloud material: a uniform color and a read-only noise
/// buffer, uploaded once at construction. Immutable afterwards; no runtime
/// mutation path exists.
pub struct VolumetricMaterial {
    pub color: ColorRgba,
    pub field: NoiseField,
    /// Identifier of the device buffer the field was uploaded to; distinct
    /// for every material drawn from one id source, so fields are never
    /// aliased between materials.
    pub buffer_id: u64,
}

impl VolumetricMaterial {
    /// Build a material over a freshly generated cube of `extent` cubed
    /// scalars. The field is drawn from `generator` here and now, so two
    /// materials built in sequence carry independently generated fields and
    /// distinct buffers.
    pub fn new(
        generator: &mut NoiseFieldGenerator,
        ids: &mut ResourceIds,
        extent: usize,
        color: ColorRgba,
    ) -> (m: VolumetricMaterial)
        requires
            extent * extent * extent <= usize::MAX,
            old(ids).next_id() < u64::MAX,
        ensures
            m.field.wf(),
            m.field.extent == extent,
            forall|i: int|
                0 <= i < m.field.cells@.len() ==> m.field.cells@[i] == sample_of(
                    lcg_iter(old(generator).state, (i + 1) as nat),
                ),
            final(generator).state == lcg_iter(
                old(generator).state,
                (extent * extent * extent) as nat,
            ),
            m.buffer_id == old(ids).next_id(),
            final(ids).next_id() == old(ids).next_id() + 1,
            m.color == color,
    {
        let field = generator.generate(extent);
        let buffer_id = ids.fresh();
        VolumetricMaterial { color, field, buffer_id }
    }

    /// The raymarching fragment program this material binds.
    pub fn fragment_shader(&self) -> (s: &'static str)
        ensures
            s@ == "shaders/cloud.wgsl"@,
    {
        "shaders/cloud.wgsl"
    }

    /// The cloud pass blends with ordinary alpha.
    pub fn alpha_mode(&self) -> (m: AlphaMode)
        ensures
            m == AlphaMode::Blend,
    {
        AlphaMode::Blend
    }
}

/// The compositing material: samples the offscreen target's texture through
/// the target's stable handle, and remembers which physical allocation its
/// bind group was built against. A binding is fresh only while that
/// allocation is the target's current one.
pub struct CompositeMaterial {
    pub texture: TextureHandle,
    /// Generation of the physical texture the bind group was built against.
    pub bound_generation: u64,
    /// Dimensions of that physical texture.
    pub bound_width: u32,
    pub bound_height: u32,
}

impl CompositeMaterial {
    /// Fresh with respect to `target`: the binding goes through the target's
    /// handle and was built against the target's current allocation, so it
    /// resolves to the current dimensions, never a prior generation's.
    pub open spec fn in_sync_with(&self, target: OffscreenTarget) -> bool {
        &&& self.texture == target.handle
        &&& self.bound_generation == target.generation
        &&& self.bound_width == target.descriptor.width
        &&& self.bound_height == target.descriptor.height
    }

    /// The binding re-pointed at `target`'s current allocation.
    pub open spec fn rebound(self, target: OffscreenTarget) -> CompositeMaterial {
        CompositeMaterial {
            texture: target.handle,
            bound_generation: target.generation,
            bound_width: target.descriptor.width,
            bound_height: target.descriptor.height,
        }
    }

    /// Bind a new compositing material to `target`.
    pub fn new(target: &OffscreenTarget) -> (m: CompositeMaterial)
        ensures
            m.in_sync_with(*target),
    {
        CompositeMaterial {
            texture: target.handle,
            bound_generation: target.generation,
            bound_width: target.descriptor.width,
            bound_height: target.descriptor.height,
        }
    }

    /// Re-point the binding at `target`'s current allocation. Must follow
    /// every resize of the target in the same logical step; afterwards the
    /// binding resolves to the just-resized dimensions.
    pub fn rebind(&mut self, target: &OffscreenTarget)
        ensures
            *final(self) == old(self).rebound(*target),
            final(self).in_sync_with(*target),
    {
        self.texture = target.handle;
        self.bound_generation = target.generation;
        self.bound_width = target.descriptor.width;
        self.bound_height = target.descriptor.height;
    }

    /// The screen-space fragment program this material binds.
    pub fn fragment_shader(&self) -> (s: &'static str)
        ensures
            s@ == "shaders/screen_space.wgsl"@,
    {
        "shaders/screen_space.wgsl"
    }

    /// The composited image carries premultiplied alpha.
    pub fn alpha_mode(&self) -> (m: AlphaMode)
        ensures
            m == AlphaMode::Premultiplied,
    {
        AlphaMode::Premultiplied
    }
}

} // verus!
