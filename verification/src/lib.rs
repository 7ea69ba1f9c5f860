//! Core bookkeeping of a Monte Carlo path tracer: the order in which the
//! pixels of an image are visited, the per-pixel sample accounting with its
//! convergence early exit, the framebuffer that finished pixels are written
//! into, and the event queue that a consumer drains.
//!
//! The floating-point parts of the renderer (colors, rays, signed distance
//! fields, materials) live outside this library; what is verified here is
//! every decision the driver makes in integers: which pixel an index maps to,
//! that the traversal covers the image exactly once, how many samples a pixel
//! has taken, and where a pixel's bytes land in the framebuffer.

pub mod events;
pub mod framebuffer;
pub mod sampling;
pub mod schedule;
