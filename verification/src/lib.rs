//! Core bookkeeping for an isometric camera demo scene.
//!
//! The host game engine owns rendering, entity storage, input polling and
//! windowing; this crate holds the decisions the scene makes on top of it:
//! which entity is the controlled player, which entities a per-frame update
//! may touch, the integer scale that fits the offscreen render target to the
//! window, and the wrapping counter that drives the orbiting sphere.

pub mod camera;
pub mod player;
pub mod sphere;
