//! Sizing of the logical grid in screen space under a zoom factor.
use vstd::prelude::*;

verus! {

/// The smallest zoom factor, in tenths: one tenth.
pub const MIN_ZOOM: u16 = 1;

/// Extent of the logical grid, in cells.
#[derive(Clone, Copy, Debug, PartialEq, Eq, Structural)]
pub struct GridSize {
    pub width: u32,
    pub height: u32,
}

/// Base size of one cell, in whole pixels, before zooming.
#[derive(Clone, Copy, Debug, PartialEq, Eq, Structural)]
pub struct CellSize {
    pub width: u16,
    pub height: u16,
}

/// A screen-space extent, in hundredths of a pixel.
#[derive(Clone, Copy, Debug, PartialEq, Eq, Structural)]
pub struct Extent {
    pub width: u128,
    pub height: u128,
}

/// The canvas geometry: grid extent, base cell size and zoom factor.
///
/// `zoom` is counted in tenths, so `zoom == 10` is a factor of one.
#[derive(Clone, Copy, Debug, PartialEq, Eq, Structural)]
pub struct AppCanvas {
    pub canvas_size: GridSize,
    pub cell_size: CellSize,
    pub zoom: u16,
}

impl AppCanvas {
    /// The geometry keeps a positive zoom and a positive base cell size.
    pub open spec fn wf(self) -> bool {
        &&& self.zoom >= MIN_ZOOM
        &&& self.cell_size.width > 0
        &&& self.cell_size.height > 0
    }

    /// Width of a zoomed cell in hundredths of a pixel: the base width
    /// times the zoom factor.
    pub open spec fn scaled_width(self) -> int {
        self.cell_size.width * (self.zoom as int) * 10
    }

    /// Height of a zoomed cell in hundredths of a pixel.
    pub open spec fn scaled_height(self) -> int {
        self.cell_size.height * (self.zoom as int) * 10
    }

    /// Screen width of the canvas in hundredths of a pixel: the grid width
    /// times the zoom factor times the zoomed cell *height*.
    pub open spec fn view_width(self) -> int {
        self.canvas_size.width * (self.zoom as int) * self.scaled_height() / 10
    }

    /// Screen height of the canvas: the grid height times the zoom factor
    /// times the zoomed cell *width*.
    pub open spec fn view_height(self) -> int {
        self.canvas_size.height * (self.zoom as int) * self.scaled_width() / 10
    }

    /// Screen width of the whole canvas, in hundredths of a pixel.
    pub fn width(&self) -> (r: u128)
        ensures
            r == self.view_width(),
            r * 10 == self.canvas_size.width * (self.zoom as int) * self.scaled_height(),
    {
        let g = self.canvas_size.width as u128;
        let z = self.zoom as u128;
        let c = self.cell_size.height as u128;
        proof {
            assert(g * z <= 0xffff_ffffu128 * 0xffffu128) by (nonlinear_arith)
                requires g <= 0xffff_ffffu128, z <= 0xffffu128;
            assert(g * z * c <= 0xffff_ffffu128 * 0xffffu128 * 0xffffu128) by (nonlinear_arith)
                requires g * z <= 0xffff_ffffu128 * 0xffffu128, c <= 0xffffu128;
            assert(g * z * c * z <= 0xffff_ffffu128 * 0xffffu128 * 0xffffu128 * 0xffffu128)
                by (nonlinear_arith)
                requires g * z * c <= 0xffff_ffffu128 * 0xffffu128 * 0xffffu128, z <= 0xffffu128;
            assert(g * z * (c * z * 10) == (g * z * c * z) * 10) by (nonlinear_arith);
        }
        g * z * c * z
    }

    /// Screen height of the whole canvas, in hundredths of a pixel.
    pub fn height(&self) -> (r: u128)
        ensures
            r == self.view_height(),
            r * 10 == self.canvas_size.height * (self.zoom as int) * self.scaled_width(),
    {
        let g = self.canvas_size.height as u128;
        let z = self.zoom as u128;
        let c = self.cell_size.width as u128;
        proof {
            assert(g * z <= 0xffff_ffffu128 * 0xffffu128) by (nonlinear_arith)
                requires g <= 0xffff_ffffu128, z <= 0xffffu128;
            assert(g * z * c <= 0xffff_ffffu128 * 0xffffu128 * 0xffffu128) by (nonlinear_arith)
                requires g * z <= 0xffff_ffffu128 * 0xffffu128, c <= 0xffffu128;
            assert(g * z * c * z <= 0xffff_ffffu128 * 0xffffu128 * 0xffffu128 * 0xffffu128)
                by (nonlinear_arith)
                requires g * z * c <= 0xffff_ffffu128 * 0xffffu128 * 0xffffu128, z <= 0xffffu128;
            assert(g * z * (c * z * 10) == (g * z * c * z) * 10) by (nonlinear_arith);
        }
        g * z * c * z
    }

    /// Size of one zoomed cell: the base cell size multiplied component-wise
    /// by the zoom factor, in hundredths of a pixel.
    pub fn cell_size(&self) -> (r: Extent)
        ensures
            r.width == self.scaled_width(),
            r.height == self.scaled_height(),
    {
        let z = self.zoom as u128;
        let w = self.cell_size.width as u128;
        let h = self.cell_size.height as u128;
        proof {
            assert(w * z <= 0xffffu128 * 0xffffu128) by (nonlinear_arith)
                requires w <= 0xffffu128, z <= 0xffffu128;
            assert(h * z <= 0xffffu128 * 0xffffu128) by (nonlinear_arith)
                requires h <= 0xffffu128, z <= 0xffffu128;
        }
        Extent { width: w * z * 10, height: h * z * 10 }
    }
}

} // verus!
