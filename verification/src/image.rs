//! In-memory pixel buffer for image-backed textures.

use vstd::prelude::*;

verus! {

/// A decoded image: an interleaved RGB byte buffer, three bytes per pixel,
/// rows stored top to bottom and pixels left to right within a row.
#[derive(Debug, Clone, PartialEq)]
pub struct Image {
    pub width: usize,
    pub height: usize,
    pub bytes: Vec<u8>,
}

impl Image {
    /// The buffer holds exactly three bytes for each of the
    /// `width * height` pixels.
    pub open spec fn wf(&self) -> bool {
        self.bytes@.len() == self.width * self.height * 3
    }

    /// Red, green and blue bytes of the pixel in column `x` of row `y`.
    pub open spec fn pixel_spec(&self, x: int, y: int) -> (u8, u8, u8) {
        (
            self.bytes@[y * self.width * 3 + x * 3],
            self.bytes@[y * self.width * 3 + x * 3 + 1],
            self.bytes@[y * self.width * 3 + x * 3 + 2],
        )
    }

    /// A coordinate clamped to the valid index range `[0, n)`.
    pub open spec fn clamped(i: int, n: int) -> int {
        if i < 0 {
            0
        } else if i < n {
            i
        } else {
            n - 1
        }
    }

    /// Wrap an already decoded buffer. Decoding a file into such a buffer is
    /// the caller's business; the kernel only ever reads the bytes.
    pub fn new(width: usize, height: usize, bytes: Vec<u8>) -> (r: Self)
        requires
            bytes@.len() == width * height * 3,
        ensures
            r.wf(),
            r.width == width,
            r.height == height,
            r.bytes == bytes,
    {
        Image { width, height, bytes }
    }

    /// The pixel nearest to `(i, j)`: coordinates beyond the right or bottom
    /// edge are clamped onto the image.
    pub fn pixel_data(&self, i: usize, j: usize) -> (r: (u8, u8, u8))
        requires
            self.wf(),
            self.width > 0,
            self.height > 0,
        ensures
            r == self.pixel_spec(
                Self::clamped(i as int, self.width as int),
                Self::clamped(j as int, self.height as int),
            ),
    {
        let n: usize = self.bytes.len();
        let x: usize = if i < self.width {
            i
        } else {
            self.width - 1
        };
        let y: usize = if j < self.height {
            j
        } else {
            self.height - 1
        };
        proof {
            assert(self.width * 3 <= n && y * (self.width * 3) + x * 3 + 2 < n
                && y * (self.width * 3) == y * self.width * 3)
                by (nonlinear_arith)
                requires
                    x < self.width,
                    y < self.height,
                    self.width * self.height * 3 == n,
            ;
        }
        let bytes_per_pixel: usize = 3;
        let bytes_per_scanline: usize = self.width * bytes_per_pixel;
        let idx: usize = y * bytes_per_scanline + x * bytes_per_pixel;
        (self.bytes[idx], self.bytes[idx + 1], self.bytes[idx + 2])
    }
}

} // verus!

