//! The three capability roles a modifier may implement, and the modifiers
//! that record plain data: texture, gradients and constant acceleration.
//!
//! Each role is a one-method contract: `apply` reads only the modifier and
//! mutates only the passed layout.  Applying modifiers in registration order
//! gives last-write-wins semantics on each layout field.

use vstd::prelude::*;

use crate::data::{Gradient, TextureHandle, Vec2Data, Vec3Data, Vec4Data};
use crate::layout::{InitLayout, RenderLayout, UpdateLayout};

verus! {

/// Role of a modifier that customizes the initializing of newly spawned
/// particles.
pub trait InitModifier {
    /// Apply the modifier to the init layout of the effect instance.
    fn apply(&self, init_layout: &mut InitLayout);
}

/// Role of a modifier that customizes the updating of existing particles
/// each frame.
pub trait UpdateModifier {
    /// Apply the modifier to the update layout of the effect instance.
    fn apply(&self, update_layout: &mut UpdateLayout);
}

/// Role of a modifier that customizes the rendering of alive particles each
/// frame.
pub trait RenderModifier {
    /// Apply the modifier to the render layout of the effect instance.
    fn apply(&self, render_layout: &mut RenderLayout);
}

/// A modifier modulating each particle's color by sampling a texture.
#[derive(Clone, Copy, PartialEq, Eq, Structural, Debug)]
pub struct ParticleTextureModifier {
    /// The texture whose samples modulate the particle color.
    pub texture: TextureHandle,
}

impl RenderModifier for ParticleTextureModifier {
    /// Sets the render layout's texture reference to a copy of the held
    /// handle; the gradient slots are left as they were.
    fn apply(&self, render_layout: &mut RenderLayout)
        ensures
            final(render_layout).particle_texture == Some(self.texture),
            final(render_layout).lifetime_color_gradient == old(render_layout).lifetime_color_gradient,
            final(render_layout).size_color_gradient == old(render_layout).size_color_gradient,
    {
        render_layout.particle_texture = Some(self.texture);
    }
}

/// A modifier modulating each particle's color over its lifetime with a
/// gradient curve.
#[derive(Clone, Debug)]
pub struct ColorOverLifetimeModifier {
    /// The color gradient defining the particle color based on its lifetime.
    pub gradient: Gradient<Vec4Data>,
}

impl RenderModifier for ColorOverLifetimeModifier {
    /// Stores a copy of the held gradient in the render layout's color slot;
    /// the texture and size slots are left as they were.
    fn apply(&self, render_layout: &mut RenderLayout)
        ensures
            final(render_layout).lifetime_color_gradient matches Some(g)
                && g.keys@ == self.gradient.keys@,
            final(render_layout).particle_texture == old(render_layout).particle_texture,
            final(render_layout).size_color_gradient == old(render_layout).size_color_gradient,
    {
        render_layout.lifetime_color_gradient = Some(self.gradient.duplicate());
    }
}

/// A modifier modulating each particle's size over its lifetime with a
/// gradient curve.
#[derive(Clone, Debug)]
pub struct SizeOverLifetimeModifier {
    /// The size gradient defining the particle size based on its lifetime.
    pub gradient: Gradient<Vec2Data>,
}

impl RenderModifier for SizeOverLifetimeModifier {
    /// Stores a copy of the held gradient in the render layout's size slot;
    /// the texture and color slots are left as they were.
    fn apply(&self, render_layout: &mut RenderLayout)
        ensures
            final(render_layout).size_color_gradient matches Some(g)
                && g.keys@ == self.gradient.keys@,
            final(render_layout).particle_texture == old(render_layout).particle_texture,
            final(render_layout).lifetime_color_gradient == old(render_layout).lifetime_color_gradient,
    {
        render_layout.size_color_gradient = Some(self.gradient.duplicate());
    }
}

/// A modifier applying a constant acceleration to all particles each frame,
/// typically some kind of gravity.
#[derive(Clone, Copy, PartialEq, Eq, Structural, Debug)]
pub struct AccelModifier {
    /// Bit patterns of the constant acceleration to apply to all particles
    /// in the effect each frame.
    pub accel: Vec3Data,
}

impl UpdateModifier for AccelModifier {
    /// Overwrites the update layout's acceleration with the held vector; the
    /// force-field slots are left as they were.
    fn apply(&self, update_layout: &mut UpdateLayout)
        ensures
            final(update_layout).accel == self.accel,
            final(update_layout).force_field@ == old(update_layout).force_field@,
    {
        update_layout.accel = self.accel;
    }
}

} // verus!
