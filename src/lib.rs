//! A bounded 2D scene of rising, drifting bubbles.
//!
//! All lengths and speeds are integers in sub-pixel units: one pixel is
//! `UNITS_PER_PIXEL` units. A bubble is a square box given by its top-left
//! corner and its side (the radius); y grows downward.

pub mod bubble;
pub mod level;
mod draw;
