//! Verified core of an instanced 3-D renderer.
//!
//! The crate models the render-state lifecycle of a GPU-driven scene:
//! the fixed grid of mesh instances, the camera's aspect-ratio rules,
//! the resize and surface-recovery protocol, the per-frame
//! update/render ordering, and the all-or-nothing validation of a
//! loaded model. Everything the GPU itself computes — matrices of
//! floating-point numbers, texture decoding, command submission —
//! stays outside the crate; the contracts here pin down the decisions
//! the renderer takes around those calls.

pub mod camera;
pub mod instances;
pub mod model;
pub mod shell;
pub mod state;
pub mod surface;
