//! The verified core of an interactive fractal explorer: palettes and color
//! schemes, the fractal families, keyboard-driven view state, and the
//! integer side of exporting images and videos (readback layout, file names).
//!
//! Floating-point values that the core carries or orders (palette positions
//! and colors, complex parameters) are held as IEEE-754 bit patterns.

pub mod color_scheme;
pub mod controls;
pub mod export;
pub mod float_bits;
pub mod fractals;
pub mod palette;
pub mod palette_editor;
pub mod presets;
