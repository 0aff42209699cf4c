//! View-transform core of an interactive fractal viewer: pixel / device /
//! scene coordinate conversions, the zoom-anchored view state machine driven
//! by input events, and the frame-acquisition decisions of the render loop.
//!
//! Scene-space quantities (zoom, offsets, scene points, device coordinates)
//! are fixed-point integers with `transform::FIXED_ONE` units per 1.0, so that
//! every conversion is exact integer arithmetic with floor rounding.
mod fixed;

pub mod transform;
pub mod view;
pub mod frame;
