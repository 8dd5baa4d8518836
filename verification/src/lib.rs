//! A verified model of a dispatch-once GPU image-filter pipeline.
//!
//! The library holds the decision logic and the pixel-level semantics of a
//! compute pipeline that runs one per-pixel kernel (grayscale, invert, box
//! blur) over an RGBA image: device and queue-family selection, pooled memory
//! accounting, staging-resource invariants, kernel binding, command ordering,
//! dispatch extents, and the completion fence. The device driver and the
//! image file format live outside, in the surrounding application, which
//! feeds this library plain values and obeys the decisions it returns.

pub mod device;
pub mod dispatch;
pub mod errors;
pub mod gate;
pub mod image;
pub mod kernels;
pub mod memory;
pub mod pipeline;
pub mod resources;
pub mod sequence;
