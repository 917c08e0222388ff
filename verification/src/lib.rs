//! Core of a multi-pass volumetric cloud renderer: a jittered-grid noise
//! field feeding a raymarching material, an offscreen render target kept in
//! lockstep with the viewport through a downsample rule, and a compositing
//! material that must be re-pointed at the target in the same step as every
//! resize. Engine glue (windowing, GPU submission, scene spawning) lives
//! outside this crate; everything here is plain data and verified logic.

pub mod coordinator;
pub mod material;
pub mod noise;
pub mod target;
