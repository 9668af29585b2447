//! Core of an immediate-mode batched line/triangle renderer and the camera
//! abstraction it draws with.
//!
//! Per-frame geometry is accumulated into a vertex list plus draw-call
//! descriptors; at draw time the descriptors are compacted into maximal
//! contiguous runs so the platform layer can issue as few draw calls as
//! possible. Cameras hold a pose and a tagged projection; a follow camera
//! interpolates toward a target. All 32-bit numeric quantities are carried
//! as their IEEE-754 bit patterns, so the bookkeeping and the decisions
//! made on them are verified exactly; the platform layer converts at the
//! boundary and performs the numeric matrix work and the GL calls.

pub mod bits;
pub mod input;
pub mod render;
pub mod top_down_camera;
