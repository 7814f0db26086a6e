//! Interactive Mandelbrot explorer: the verified core.
//!
//! The library holds the integer logic of the explorer: the colour mapping of
//! escape counts, the escape-time counting rule, the per-tick key rules that
//! drive the viewport, and the frame gate. The floating-point orbit and
//! viewport arithmetic, the window and the keyboard live in the program
//! around it.
pub mod color;
pub mod controls;
pub mod escape;
pub mod frame;

pub use color::color_map;
