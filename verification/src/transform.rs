//! Coordinate transform between the plotting engine's virtual-pixel space
//! (origin top-left, y down) and the canvas's normalized space (origin
//! bottom-left, y up, both axes in [0, 1]).

use vstd::prelude::*;

verus! {

/// Addressable virtual pixels per character cell, horizontally.
pub const CELL_PIXEL_WIDTH: u32 = 2;

/// Addressable virtual pixels per character cell, vertically.
pub const CELL_PIXEL_HEIGHT: u32 = 4;

/// The rectangular character-cell area one render pass is confined to.
#[derive(Clone, Copy, PartialEq, Eq, Structural, Debug)]
pub struct Region {
    /// Column of the top-left cell.
    pub x: u16,
    /// Row of the top-left cell.
    pub y: u16,
    /// Width in character cells.
    pub width: u16,
    /// Height in character cells.
    pub height: u16,
}

impl Region {
    /// A region can be drawn into only when it spans at least one cell in
    /// each axis; a zero-sized region makes the transform undefined.
    pub open spec fn is_drawable(self) -> bool {
        self.width > 0 && self.height > 0
    }

    /// Width of the addressable virtual-pixel space.
    pub open spec fn spec_pixel_width(self) -> int {
        self.width * CELL_PIXEL_WIDTH
    }

    /// Height of the addressable virtual-pixel space.
    pub open spec fn spec_pixel_height(self) -> int {
        self.height * CELL_PIXEL_HEIGHT
    }
}

/// A coordinate in the canvas's normalized space, kept exact as a pair of
/// rationals: the point is (x_num / x_den, y_num / y_den). Denominators are
/// the addressable pixel width and height of the region the coordinate was
/// derived from; conversion to machine floats is left to the unverified rim.
#[derive(Clone, Copy, PartialEq, Eq, Structural, Debug)]
pub struct NormCoord {
    pub x_num: i64,
    pub x_den: u64,
    pub y_num: i64,
    pub y_den: u64,
}

/// The affine, orientation-flipping transform from virtual-pixel space into
/// normalized space: x' = x / W and y' = 1 - y / H = (H - y) / H, where
/// (W, H) is the addressable size of the region.
pub open spec fn norm_spec(x: int, y: int, region: Region) -> NormCoord {
    NormCoord {
        x_num: x as i64,
        x_den: region.spec_pixel_width() as u64,
        y_num: (region.spec_pixel_height() - y) as i64,
        y_den: region.spec_pixel_height() as u64,
    }
}

/// Addressable size of a region: cells times virtual pixels per cell, in
/// each axis. Pure and total.
pub fn addressable_size(region: &Region) -> (r: (u32, u32))
    ensures
        r.0 == region.spec_pixel_width(),
        r.1 == region.spec_pixel_height(),
{
    (region.width as u32 * CELL_PIXEL_WIDTH, region.height as u32 * CELL_PIXEL_HEIGHT)
}

/// Transforms one virtual-pixel coordinate into normalized space. Inputs are
/// taken as `i64` so that callers may pass shifted or offset coordinates
/// without overflow; the lower bound on `y` only keeps `H - y` inside `i64`.
pub fn to_normalized(x: i64, y: i64, region: &Region) -> (r: NormCoord)
    requires
        region.is_drawable(),
        y > i64::MIN + 0x10_0000,
    ensures
        r == norm_spec(x as int, y as int, *region),
{
    let (w, h) = addressable_size(region);
    NormCoord { x_num: x, x_den: w as u64, y_num: h as i64 - y, y_den: h as u64 }
}

/// The y-flip is an involution of the ends of the pixel range: pixel row 0
/// (top) maps to normalized 1 (top of the canvas, whose y axis points up),
/// and pixel row H (bottom) maps to normalized 0, for every x.
pub proof fn lemma_y_flip(x: int, region: Region)
    requires
        region.is_drawable(),
    ensures
        norm_spec(x, 0, region).y_num == norm_spec(x, 0, region).y_den,
        norm_spec(x, 0, region).y_den > 0,
        norm_spec(x, region.spec_pixel_height(), region).y_num == 0,
{
}

} // verus!
