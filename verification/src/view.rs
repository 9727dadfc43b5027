//! The viewport: the rectangle of the complex plane that is rendered, the
//! size of the raster it is rendered to, and the zoom that replaces it.
//!
//! The bounds are binary64 encodings.  The arithmetic that finds the
//! bounds of a zoomed viewport is the caller's; the renderer decides
//! whether those bounds may replace the current ones.  A viewport that is
//! accepted has finite bounds with `xmin < xmax` and `ymin < ymax`, so the
//! mapping from the plane to the raster never divides by zero.

use vstd::prelude::*;
use crate::binary64::{finite, is_finite, is_positive_finite, less_than, lt, positive_finite};

verus! {

/// The height of the raster, in pixels.
pub const WINDOW_HEIGHT: i32 = 800;

/// The width of the raster, in pixels.
pub const WINDOW_WIDTH: i32 = 800;

/// The left edge of the initial viewport: the encoding of -2.
pub const INIT_VIRTUAL_GRID_XMIN: u64 = 0xc000_0000_0000_0000;

/// The right edge of the initial viewport: the encoding of 2.
pub const INIT_VIRTUAL_GRID_XMAX: u64 = 0x4000_0000_0000_0000;

/// The lower edge of the initial viewport: the encoding of -2.
pub const INIT_VIRTUAL_GRID_YMIN: u64 = 0xc000_0000_0000_0000;

/// The upper edge of the initial viewport: the encoding of 2.
pub const INIT_VIRTUAL_GRID_YMAX: u64 = 0x4000_0000_0000_0000;

/// A rectangle of the plane and the size of the raster it is mapped to.
#[derive(Clone, Copy, Debug, PartialEq, Eq)]
pub struct Viewport {
    pub xmin: u64,
    pub xmax: u64,
    pub ymin: u64,
    pub ymax: u64,
    pub width: i32,
    pub height: i32,
}

impl Viewport {
    /// The bounds are finite numbers, the rectangle has an extent in both
    /// directions, and so has the raster.
    pub open spec fn well_formed(self) -> bool {
        &&& is_finite(self.xmin)
        &&& is_finite(self.xmax)
        &&& is_finite(self.ymin)
        &&& is_finite(self.ymax)
        &&& less_than(self.xmin, self.xmax)
        &&& less_than(self.ymin, self.ymax)
        &&& self.width > 0
        &&& self.height > 0
    }

    /// This viewport with other bounds and the same raster.
    pub open spec fn with_bounds(self, xmin: u64, xmax: u64, ymin: u64, ymax: u64) -> Viewport {
        Viewport { xmin, xmax, ymin, ymax, width: self.width, height: self.height }
    }
}

/// The viewport a renderer starts with.
pub open spec fn initial_viewport() -> Viewport {
    Viewport {
        xmin: INIT_VIRTUAL_GRID_XMIN,
        xmax: INIT_VIRTUAL_GRID_XMAX,
        ymin: INIT_VIRTUAL_GRID_YMIN,
        ymax: INIT_VIRTUAL_GRID_YMAX,
        width: WINDOW_WIDTH,
        height: WINDOW_HEIGHT,
    }
}

/// Whether a zoom by `ratio` to the given bounds is carried out: the ratio
/// is a finite number above zero, and the bounds are those of a
/// well-formed viewport.
pub open spec fn zoom_accepted(ratio: u64, xmin: u64, xmax: u64, ymin: u64, ymax: u64) -> bool {
    &&& is_positive_finite(ratio)
    &&& is_finite(xmin)
    &&& is_finite(xmax)
    &&& is_finite(ymin)
    &&& is_finite(ymax)
    &&& less_than(xmin, xmax)
    &&& less_than(ymin, ymax)
}

/// A zoom was refused: it would have left a viewport without extent, or
/// with a bound that is not a number.
#[derive(Clone, Copy, Debug, PartialEq, Eq)]
pub struct DegenerateViewport;

/// The renderer's state: the current viewport.  It is always well-formed.
pub struct Mandelbrot {
    xmin: u64,
    xmax: u64,
    ymin: u64,
    ymax: u64,
    width: i32,
    height: i32,
}

impl View for Mandelbrot {
    type V = Viewport;

    closed spec fn view(&self) -> Viewport {
        Viewport {
            xmin: self.xmin,
            xmax: self.xmax,
            ymin: self.ymin,
            ymax: self.ymax,
            width: self.width,
            height: self.height,
        }
    }
}

impl Mandelbrot {
    #[verifier::type_invariant]
    spec fn inv(self) -> bool {
        self@.well_formed()
    }

    /// A renderer on the initial viewport.
    pub fn new() -> (mandelbrot: Mandelbrot)
        ensures
            mandelbrot@ == initial_viewport(),
            mandelbrot@.well_formed(),
    {
        Mandelbrot {
            xmin: INIT_VIRTUAL_GRID_XMIN,
            xmax: INIT_VIRTUAL_GRID_XMAX,
            ymin: INIT_VIRTUAL_GRID_YMIN,
            ymax: INIT_VIRTUAL_GRID_YMAX,
            width: WINDOW_WIDTH,
            height: WINDOW_HEIGHT,
        }
    }

    /// The current viewport.
    pub fn viewport(&self) -> (viewport: Viewport)
        ensures
            viewport == self@,
            viewport.well_formed(),
    {
        proof {
            use_type_invariant(self);
        }
        Viewport {
            xmin: self.xmin,
            xmax: self.xmax,
            ymin: self.ymin,
            ymax: self.ymax,
            width: self.width,
            height: self.height,
        }
    }

    /// Replaces the viewport's bounds by those of a zoom by `ratio`, which
    /// the caller has worked out, if the zoom is acceptable.
    ///
    /// A refused zoom leaves the viewport as it was.  The raster's size
    /// never changes.
    pub fn zoom(&mut self, ratio: u64, xmin: u64, xmax: u64, ymin: u64, ymax: u64) -> (result:
        Result<(), DegenerateViewport>)
        ensures
            result is Ok <==> zoom_accepted(ratio, xmin, xmax, ymin, ymax),
            result is Ok ==> final(self)@ == old(self)@.with_bounds(xmin, xmax, ymin, ymax),
            result is Err ==> final(self)@ == old(self)@,
            old(self)@.well_formed(),
            final(self)@.well_formed(),
    {
        proof {
            use_type_invariant(&*self);
        }
        if positive_finite(ratio) && finite(xmin) && finite(xmax) && finite(ymin) && finite(ymax)
            && lt(xmin, xmax) && lt(ymin, ymax) {
            *self = Mandelbrot { xmin, xmax, ymin, ymax, width: self.width, height: self.height };
            Ok(())
        } else {
            Err(DegenerateViewport)
        }
    }
}

} // verus!
