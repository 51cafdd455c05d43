//! A pixel-grid painting surface: clicks colour grid cells with a brush and
//! wheel scrolling zooms the view.
//!
//! Screen-space quantities are fixed-point numbers: positions and lengths are
//! counted in hundredths of a pixel, and the zoom factor in tenths.
use vstd::prelude::*;

pub mod brush;
pub mod editor;
pub mod geometry;
pub mod input;
pub mod layout;
pub mod paint;
pub mod render;

verus! {

} // verus!
