//! A verified model of a minimal real-time rendering demo: a frame-loop
//! state machine that animates a background clear color from a hue cycle
//! and the cursor position, toggles between two precomputed shapes on a
//! key event, and plans one draw call per frame.
//!
//! All color arithmetic is exact: saturation and value are unit fractions
//! taken straight from integer pixel coordinates, and the HSV-to-RGB
//! conversion is carried out on integer numerators over a common
//! denominator, so every contract pins the precise result.

pub mod color;
pub mod frame;
pub mod geometry;
