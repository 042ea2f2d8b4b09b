use vstd::prelude::*;

use crate::arith::lemma_cell_in_grid;
use crate::geometry::RectI;
use crate::text::{append_decimal, decimal};

verus! {

/// Why a desktop frame could not be built.
#[derive(Debug, Clone, Copy, PartialEq, Eq, Structural)]
pub enum FrameError {
    /// The pixel count times four does not fit in a `u32`.
    DimensionsOverflow,
    /// The bounds have no width or no height.
    Empty,
    /// The pixel buffer does not hold exactly four bytes per pixel.
    InvalidLength { expected: usize, actual: usize },
}

impl FrameError {
    /// A sentence that describes the error for a log or a dialog.
    pub fn message(&self) -> (text: String)
        ensures
            match *self {
                FrameError::DimensionsOverflow => text@ == "desktop frame dimensions overflow"@,
                FrameError::Empty => text@ == "desktop frame must not be empty"@,
                FrameError::InvalidLength { expected, actual } => text@
                    == "invalid desktop frame length: expected "@ + decimal(expected as nat)
                    + ", got "@ + decimal(actual as nat),
            },
    {
        match *self {
            FrameError::DimensionsOverflow => String::from_str("desktop frame dimensions overflow"),
            FrameError::Empty => String::from_str("desktop frame must not be empty"),
            FrameError::InvalidLength { expected, actual } => {
                let mut text = String::from_str("invalid desktop frame length: expected ");
                append_decimal(&mut text, expected);
                text.append(", got ");
                append_decimal(&mut text, actual);
                text
            },
        }
    }
}

/// The byte length of a BGRA8 frame of `bounds`.
pub open spec fn bgra_len(bounds: RectI) -> int {
    bounds.width * bounds.height * 4
}

/// A top-down BGRA8 desktop frame in physical pixels.
#[derive(Debug)]
pub struct DesktopFrame {
    pub bounds: RectI,
    pub pixels: Vec<u8>,
}

impl DesktopFrame {
    /// What `new` guarantees of a frame: it is not empty, its byte length fits in a `u32`,
    /// and it holds exactly four bytes per pixel.
    pub open spec fn valid(&self) -> bool {
        &&& self.bounds.width > 0
        &&& self.bounds.height > 0
        &&& bgra_len(self.bounds) <= u32::MAX
        &&& self.pixels@.len() == bgra_len(self.bounds)
    }

    /// Checks the dimensions first (their byte length must fit in a `u32`), then that the
    /// frame is not empty, then the length of `pixels`.
    pub fn new(bounds: RectI, pixels: Vec<u8>) -> (r: Result<DesktopFrame, FrameError>)
        ensures
            bgra_len(bounds) > u32::MAX ==> r == Err::<DesktopFrame, FrameError>(
                FrameError::DimensionsOverflow,
            ),
            bgra_len(bounds) <= u32::MAX && (bounds.width == 0 || bounds.height == 0) ==> r
                == Err::<DesktopFrame, FrameError>(FrameError::Empty),
            bgra_len(bounds) <= u32::MAX && bounds.width > 0 && bounds.height > 0
                && pixels@.len() != bgra_len(bounds) ==> r == Err::<DesktopFrame, FrameError>(
                FrameError::InvalidLength {
                    expected: bgra_len(bounds) as usize,
                    actual: pixels@.len() as usize,
                },
            ),
            bgra_len(bounds) <= u32::MAX && bounds.width > 0 && bounds.height > 0
                && pixels@.len() == bgra_len(bounds) ==> (match r {
                Ok(frame) => frame.bounds == bounds && frame.pixels@ == pixels@ && frame.valid(),
                Err(_) => false,
            }),
    {
        let expected: u32 = match bounds.width().checked_mul(bounds.height()) {
            Some(count) => match count.checked_mul(4) {
                Some(n) => n,
                None => {
                    return Err(FrameError::DimensionsOverflow);
                },
            },
            None => {
                proof {
                    assert(bounds.width * bounds.height * 4 >= bounds.width * bounds.height)
                        by (nonlinear_arith);
                }
                return Err(FrameError::DimensionsOverflow);
            },
        };
        if bounds.width() == 0 || bounds.height() == 0 {
            return Err(FrameError::Empty);
        }
        let expected = expected as usize;
        let actual = pixels.len();
        if actual != expected {
            return Err(FrameError::InvalidLength { expected, actual });
        }
        Ok(DesktopFrame { bounds, pixels })
    }

    /// The four bytes of the pixel at (`x`, `y`) relative to the frame's top-left corner,
    /// or `None` outside the frame.
    pub fn pixel_at_local(&self, x: i32, y: i32) -> (r: Option<[u8; 4]>)
        requires
            self.valid(),
        ensures
            (x < 0 || y < 0 || x >= self.bounds.width || y >= self.bounds.height) ==> r is None,
            (0 <= x < self.bounds.width && 0 <= y < self.bounds.height) ==> ({
                let offset = (y * self.bounds.width + x) * 4;
                r == Some(
                    [
                        self.pixels@[offset],
                        self.pixels@[offset + 1],
                        self.pixels@[offset + 2],
                        self.pixels@[offset + 3],
                    ],
                )
            }),
    {
        let width = self.bounds.width();
        let height = self.bounds.height();
        proof {
            assert(width * height * 4 >= width * 4) by (nonlinear_arith)
                requires
                    height > 0,
            ;
            assert(width * height * 4 >= height * 4) by (nonlinear_arith)
                requires
                    width > 0,
            ;
        }
        if x < 0 || y < 0 || x >= width as i32 || y >= height as i32 {
            return None;
        }
        proof {
            lemma_cell_in_grid(y as int, x as int, width as int, height as int);
        }
        let offset = (y as usize * width as usize + x as usize) * 4;
        Some(
            [
                self.pixels[offset],
                self.pixels[offset + 1],
                self.pixels[offset + 2],
                self.pixels[offset + 3],
            ],
        )
    }
}

} // verus!
