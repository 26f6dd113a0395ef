//! Layout accumulators: per-effect mutable structs that collect generated
//! shader text and side-channel data while a modifier list is applied.
//!
//! A layout starts empty, receives one application pass in registration
//! order (later writes to the same field overwrite earlier ones), and is then
//! handed read-only to the shader-assembly collaborator.

use vstd::prelude::*;

use crate::data::{FFNUM, ForceFieldParam, Gradient, TextureHandle, Vec2Data, Vec3Data,
    Vec4Data};

verus! {

/// Accumulator for the particle-initialization stage: the one source-text
/// block that computes a spawned particle's position and velocity.
#[derive(Debug)]
pub struct InitLayout {
    /// Shader source computing `ret.pos` and `ret.vel` for a fresh particle.
    /// Overwritten, not appended, by each position modifier.
    pub position_code: String,
}

impl InitLayout {
    /// An empty accumulator, ready for one application pass.
    pub fn new() -> (r: InitLayout)
        ensures
            r.position_code@ == Seq::<char>::empty(),
    {
        let code = String::new();
        proof {
            assert(code@ =~= Seq::<char>::empty());
        }
        InitLayout { position_code: code }
    }
}

impl Default for InitLayout {
    /// Same as [`InitLayout::new`].
    fn default() -> (r: InitLayout)
        ensures
            r.position_code@ == Seq::<char>::empty(),
    {
        InitLayout::new()
    }
}

/// Accumulator for the per-frame update stage: a constant acceleration and
/// the fixed-size force-field slot array, each settable by its own modifier.
#[derive(Clone, Copy, Debug)]
pub struct UpdateLayout {
    /// Bit patterns of the constant acceleration applied to every particle
    /// each frame.
    pub accel: Vec3Data,
    /// The force-field slots, uploaded verbatim to the GPU; slot order is
    /// evaluation order and the first zero-mass slot stops evaluation.
    pub force_field: [ForceFieldParam; FFNUM],
}

impl UpdateLayout {
    /// An empty accumulator: zero acceleration, all slots at the sentinel
    /// default.
    pub fn new() -> (r: UpdateLayout)
        ensures
            r.accel == (Vec3Data { x: 0u32, y: 0u32, z: 0u32 }),
            r.force_field@.len() == FFNUM,
            forall|i: int| 0 <= i < FFNUM ==> #[trigger] r.force_field@[i]
                == ForceFieldParam::default_param(),
    {
        UpdateLayout {
            accel: Vec3Data::zero(),
            force_field: [ForceFieldParam::default(); FFNUM],
        }
    }
}

impl Default for UpdateLayout {
    /// Same as [`UpdateLayout::new`].
    fn default() -> (r: UpdateLayout)
        ensures
            r.accel == (Vec3Data { x: 0u32, y: 0u32, z: 0u32 }),
            r.force_field@.len() == FFNUM,
            forall|i: int| 0 <= i < FFNUM ==> #[trigger] r.force_field@[i]
                == ForceFieldParam::default_param(),
    {
        UpdateLayout::new()
    }
}

/// Accumulator for the render stage: optional texture reference and optional
/// color and size gradients, set as resolved data rather than shader text.
#[derive(Clone, Debug)]
pub struct RenderLayout {
    /// The texture whose samples modulate each particle's color, if any.
    pub particle_texture: Option<TextureHandle>,
    /// The color-over-lifetime gradient, if any.
    pub lifetime_color_gradient: Option<Gradient<Vec4Data>>,
    /// The size-over-lifetime gradient, if any.
    pub size_color_gradient: Option<Gradient<Vec2Data>>,
}

impl RenderLayout {
    /// An empty accumulator with none of the payloads set.
    pub fn new() -> (r: RenderLayout)
        ensures
            r.particle_texture is None,
            r.lifetime_color_gradient is None,
            r.size_color_gradient is None,
    {
        RenderLayout { particle_texture: None, lifetime_color_gradient: None,
            size_color_gradient: None }
    }
}

impl Default for RenderLayout {
    /// Same as [`RenderLayout::new`].
    fn default() -> (r: RenderLayout)
        ensures
            r.particle_texture is None,
            r.lifetime_color_gradient is None,
            r.size_color_gradient is None,
    {
        RenderLayout::new()
    }
}

} // verus!
