//! The square pixel grid that the sampler reads.
//!
//! The grid is produced outside the core (decoding and resizing are a
//! collaborator's job) and handed in as raw row-major RGB bytes; once
//! built it is only ever read.

use vstd::prelude::*;

verus! {

/// One source pixel: three 8-bit channels.
#[derive(Clone, Copy, PartialEq, Eq, Structural, Debug)]
pub struct Pixel {
    pub r: u8,
    pub g: u8,
    pub b: u8,
}

/// Largest accepted side length of the working image.  Keeps
/// `3 * side * side` within `usize` on every platform and all
/// fixed-point coordinates comfortably inside `i64`.
pub const MAX_SIDE: usize = 16384;

/// A square RGB image, row-major, origin at the top-left corner.
#[derive(Debug)]
pub struct WorkingImage {
    /// Width and height in pixels.
    pub side: usize,
    /// `3 * side * side` bytes: `r, g, b` of pixel `(x, y)` start at
    /// `3 * (y * side + x)`.
    pub data: Vec<u8>,
}

impl WorkingImage {
    /// The shape every function of the core relies on.
    pub open spec fn wf(self) -> bool {
        &&& 2 <= self.side <= MAX_SIDE
        &&& self.data.len() == 3 * self.side * self.side
    }

    /// The pixel at column `x`, row `y`.
    pub open spec fn pixel_spec(self, x: int, y: int) -> Pixel {
        Pixel {
            r: self.data[3 * (y * self.side + x)],
            g: self.data[3 * (y * self.side + x) + 1],
            b: self.data[3 * (y * self.side + x) + 2],
        }
    }

    /// Wraps raw bytes as a working image; rejects anything that is not
    /// a square grid of RGB triples with an accepted side length.
    pub fn new(side: usize, data: Vec<u8>) -> (r: Option<WorkingImage>)
        ensures
            match r {
                Some(img) => img.wf() && img.side == side && img.data == data,
                None => !(WorkingImage { side, data }).wf(),
            },
    {
        if side < 2 || side > MAX_SIDE {
            return None;
        }
        assert(side * side <= MAX_SIDE * MAX_SIDE) by (nonlinear_arith)
            requires
                side <= MAX_SIDE,
            ;
        if data.len() == 3 * (side * side) {
            assert(3 * (side * side) == 3 * side * side) by (nonlinear_arith);
            Some(WorkingImage { side, data })
        } else {
            assert(3 * (side * side) == 3 * side * side) by (nonlinear_arith);
            None
        }
    }

    /// Reads the pixel at column `x`, row `y`.
    pub fn pixel(&self, x: usize, y: usize) -> (p: Pixel)
        requires
            self.wf(),
            x < self.side,
            y < self.side,
        ensures
            p == self.pixel_spec(x as int, y as int),
    {
        proof {
            assert(y * self.side + x < self.side * self.side) by (nonlinear_arith)
                requires
                    x < self.side,
                    y < self.side,
                ;
            assert(3 * (y * self.side + x) + 2 < 3 * self.side * self.side) by (nonlinear_arith)
                requires
                    y * self.side + x < self.side * self.side,
                ;
        }
        let base: usize = 3 * (y * self.side + x);
        Pixel { r: self.data[base], g: self.data[base + 1], b: self.data[base + 2] }
    }
}

} // verus!
