//! Declarative composition of GPU shader fragments for a particle system.
//!
//! A small family of "modifier" values describes where particles spawn, how
//! fast they leave, how they accelerate, and how they are drawn.  Applying a
//! modifier to a layout accumulator either emits shader source text (spawn
//! position and velocity) or records plain data (acceleration, force-field
//! slots, texture and gradient payloads) for a later shader-assembly stage.

pub mod data;
pub mod force_field;
pub mod laws;
pub mod layout;
pub mod modifier;
pub mod shape;
pub mod wgsl;
