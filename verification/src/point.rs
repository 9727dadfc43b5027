//! The sample points a render pass works on.

use vstd::prelude::*;

verus! {

/// A red, green, blue colour.
pub type Rgb = (u8, u8, u8);

/// A point of the complex plane with the colour it is drawn in.
///
/// `x` and `y` are the binary64 encodings of the real and the imaginary
/// coordinate.  A point that has not been evaluated carries a placeholder
/// colour, which nothing reads.
#[derive(Clone, Copy, Debug, PartialEq, Eq)]
pub struct VirtualPoint {
    pub x: u64,
    pub y: u64,
    pub color: Rgb,
}

/// A point together with the count at which its escape iteration stopped.
#[derive(Clone, Copy, Debug, PartialEq, Eq)]
pub struct Sample {
    pub point: VirtualPoint,
    pub escape_count: i32,
}

/// A pixel of the raster with the colour it is drawn in.
#[derive(Clone, Copy, Debug, PartialEq, Eq)]
pub struct PhysicalPoint {
    pub x: i32,
    pub y: i32,
    pub color: Rgb,
}

impl PhysicalPoint {
    /// The pixel at `(x, y)` for an evaluated point: it takes the point's
    /// colour as it is.
    pub fn new(x: i32, y: i32, point: &VirtualPoint) -> (pixel: PhysicalPoint)
        ensures
            pixel == (PhysicalPoint { x, y, color: point.color }),
    {
        PhysicalPoint { x, y, color: point.color }
    }
}

} // verus!
