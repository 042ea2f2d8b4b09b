use vstd::prelude::*;

use crate::arith::lemma_cell_in_grid;
use crate::export::RgbaFrame;

verus! {

/// The fingerprint samples this many columns of a frame.
pub const SAMPLE_COLUMNS: usize = 32;

/// The fingerprint samples this many rows of a frame.
pub const SAMPLE_ROWS: usize = 32;

/// The pixel coordinate of sample `index` of `samples` along an axis of `extent` pixels:
/// the middle of its share of the axis, kept on the axis.
pub open spec fn spec_sample_coordinate(index: int, samples: int, extent: int) -> int {
    let centre = ((index * 2 + 1) * extent) / (samples * 2);
    let last = if extent > 0 {
        extent - 1
    } else {
        0
    };
    if centre < last {
        centre
    } else {
        last
    }
}

/// The luminance of a color with the integer BT.601 weights 77, 150 and 29, rounded.
pub open spec fn spec_rgb_luminance(red: u8, green: u8, blue: u8) -> int {
    (red * 77 + green * 150 + blue * 29 + 128) / 256
}

pub fn sample_coordinate(index: usize, samples: usize, extent: u32) -> (coordinate: u32)
    requires
        index < samples <= 1024,
    ensures
        coordinate == spec_sample_coordinate(index as int, samples as int, extent as int),
        extent > 0 ==> coordinate < extent,
{
    proof {
        assert((index * 2 + 1) * extent <= 2048 * 0xffff_ffff) by (nonlinear_arith)
            requires
                index < 1024,
                extent <= 0xffff_ffff,
        ;
    }
    let centre = ((index as u64 * 2 + 1) * extent as u64) / (samples as u64 * 2);
    let last: u64 = if extent > 0 {
        extent as u64 - 1
    } else {
        0
    };
    if centre < last {
        centre as u32
    } else {
        last as u32
    }
}

pub fn rgb_luminance(red: u8, green: u8, blue: u8) -> (luminance: u8)
    ensures
        luminance == spec_rgb_luminance(red, green, blue),
{
    ((red as u32 * 77 + green as u32 * 150 + blue as u32 * 29 + 128) / 256) as u8
}

/// The luminance sample at (`sample_x`, `sample_y`) of a frame of `width` × `height`
/// RGBA pixels.
pub open spec fn sampled_luminance(
    pixels: Seq<u8>,
    width: int,
    height: int,
    sample_x: int,
    sample_y: int,
) -> int {
    let x = spec_sample_coordinate(sample_x, SAMPLE_COLUMNS as int, width);
    let y = spec_sample_coordinate(sample_y, SAMPLE_ROWS as int, height);
    let offset = (y * width + x) * 4;
    spec_rgb_luminance(pixels[offset], pixels[offset + 1], pixels[offset + 2])
}

/// The sum of the absolute differences of the first `count` entries of two sequences.
pub open spec fn absolute_difference_sum(left: Seq<u8>, right: Seq<u8>, count: int) -> int
    decreases count,
{
    if count <= 0 {
        0
    } else {
        let a = left[count - 1] as int;
        let b = right[count - 1] as int;
        absolute_difference_sum(left, right, count - 1) + if a >= b {
            a - b
        } else {
            b - a
        }
    }
}

proof fn lemma_difference_sum_bound(left: Seq<u8>, right: Seq<u8>, count: int)
    ensures
        0 <= absolute_difference_sum(left, right, count) <= 255 * (if count > 0 {
            count
        } else {
            0
        }),
    decreases count,
{
    if count > 0 {
        lemma_difference_sum_bound(left, right, count - 1);
    }
}

/// A coarse luminance grid of a frame, to tell frames apart cheaply.
#[derive(Debug, Clone, PartialEq, Eq)]
pub struct FrameFingerprint {
    width: u32,
    height: u32,
    luminance: Vec<u8>,
}

impl FrameFingerprint {
    pub closed spec fn spec_width(&self) -> u32 {
        self.width
    }

    pub closed spec fn spec_height(&self) -> u32 {
        self.height
    }

    /// The samples, row by row.
    pub closed spec fn samples(&self) -> Seq<u8> {
        self.luminance@
    }

    /// Samples the luminance of `frame` on a grid of 32 × 32 points.
    pub fn from_frame(frame: &RgbaFrame) -> (fingerprint: FrameFingerprint)
        ensures
            fingerprint.spec_width() == frame.spec_bounds().width,
            fingerprint.spec_height() == frame.spec_bounds().height,
            fingerprint.samples().len() == SAMPLE_COLUMNS * SAMPLE_ROWS,
            forall|sample_x: int, sample_y: int|
                0 <= sample_x < SAMPLE_COLUMNS && 0 <= sample_y < SAMPLE_ROWS
                    ==> #[trigger] fingerprint.samples()[sample_y * SAMPLE_COLUMNS + sample_x]
                    == sampled_luminance(
                    frame@,
                    frame.spec_bounds().width as int,
                    frame.spec_bounds().height as int,
                    sample_x,
                    sample_y,
                ),
    {
        let pixels = frame.pixels();
        let len = pixels.len();
        let width = frame.width();
        let height = frame.height();
        let mut luminance: Vec<u8> = Vec::new();
        let mut sample_y: usize = 0;
        while sample_y < SAMPLE_ROWS
            invariant
                pixels@ == frame@,
                len == pixels@.len(),
                pixels@.len() == width * height * 4,
                width == frame.spec_bounds().width,
                height == frame.spec_bounds().height,
                width > 0,
                height > 0,
                sample_y <= SAMPLE_ROWS,
                luminance@.len() == sample_y * SAMPLE_COLUMNS,
                forall|sx: int, sy: int|
                    0 <= sx < SAMPLE_COLUMNS && 0 <= sy < sample_y ==> #[trigger] luminance@[sy
                        * SAMPLE_COLUMNS + sx] == sampled_luminance(
                        frame@,
                        width as int,
                        height as int,
                        sx,
                        sy,
                    ),
            decreases SAMPLE_ROWS - sample_y,
        {
            let y = sample_coordinate(sample_y, SAMPLE_ROWS, height);
            let mut sample_x: usize = 0;
            while sample_x < SAMPLE_COLUMNS
                invariant
                    pixels@ == frame@,
                    len == pixels@.len(),
                    pixels@.len() == width * height * 4,
                    width == frame.spec_bounds().width,
                    height == frame.spec_bounds().height,
                    width > 0,
                    height > 0,
                    sample_y < SAMPLE_ROWS,
                    y == spec_sample_coordinate(sample_y as int, SAMPLE_ROWS as int, height as int),
                    y < height,
                    sample_x <= SAMPLE_COLUMNS,
                    luminance@.len() == sample_y * SAMPLE_COLUMNS + sample_x,
                    forall|sx: int, sy: int|
                        (0 <= sx < SAMPLE_COLUMNS && 0 <= sy < sample_y || sy == sample_y && 0
                            <= sx < sample_x) ==> #[trigger] luminance@[sy * SAMPLE_COLUMNS + sx]
                            == sampled_luminance(frame@, width as int, height as int, sx, sy),
                decreases SAMPLE_COLUMNS - sample_x,
            {
                let x = sample_coordinate(sample_x, SAMPLE_COLUMNS, width);
                proof {
                    lemma_cell_in_grid(y as int, x as int, width as int, height as int);
                    assert(height * width * 4 == width * height * 4) by (nonlinear_arith);
                }
                let offset = (y as usize * width as usize + x as usize) * 4;
                let value = rgb_luminance(pixels[offset], pixels[offset + 1], pixels[offset + 2]);
                let ghost before = luminance@;
                luminance.push(value);
                proof {
                    assert forall|sx: int, sy: int|
                        (0 <= sx < SAMPLE_COLUMNS && 0 <= sy < sample_y || sy == sample_y && 0
                            <= sx < sample_x + 1) implies #[trigger] luminance@[sy * SAMPLE_COLUMNS
                        + sx] == sampled_luminance(frame@, width as int, height as int, sx, sy) by {
                        if sy < sample_y || sx < sample_x {
                            assert(luminance@[sy * SAMPLE_COLUMNS + sx] == before[sy
                                * SAMPLE_COLUMNS + sx]);
                        }
                    }
                }
                sample_x = sample_x + 1;
            }
            sample_y = sample_y + 1;
        }
        FrameFingerprint { width, height, luminance }
    }

    /// The summed absolute luminance difference of two fingerprints of frames of the same
    /// size, or `None` when the sizes differ. Divided by the sample count it is the mean
    /// difference in luminance units.
    pub fn total_difference(&self, other: &FrameFingerprint) -> (total: Option<u64>)
        requires
            self.samples().len() == SAMPLE_COLUMNS * SAMPLE_ROWS,
            other.samples().len() == SAMPLE_COLUMNS * SAMPLE_ROWS,
        ensures
            (self.spec_width() != other.spec_width() || self.spec_height()
                != other.spec_height()) ==> total is None,
            (self.spec_width() == other.spec_width() && self.spec_height()
                == other.spec_height()) ==> total == Some(
                absolute_difference_sum(
                    self.samples(),
                    other.samples(),
                    (SAMPLE_COLUMNS * SAMPLE_ROWS) as int,
                ) as u64,
            ),
    {
        if self.width != other.width || self.height != other.height {
            return None;
        }
        let count = self.luminance.len();
        let mut total: u64 = 0;
        let mut index: usize = 0;
        while index < count
            invariant
                count == self.luminance@.len(),
                count == other.luminance@.len(),
                count == SAMPLE_COLUMNS * SAMPLE_ROWS,
                index <= count,
                total == absolute_difference_sum(self.luminance@, other.luminance@, index as int),
            decreases count - index,
        {
            proof {
                lemma_difference_sum_bound(self.luminance@, other.luminance@, index as int);
            }
            let a = self.luminance[index];
            let b = other.luminance[index];
            let step: u64 = if a >= b {
                (a - b) as u64
            } else {
                (b - a) as u64
            };
            total = total + step;
            index = index + 1;
        }
        Some(total)
    }

    /// The number of luminance samples.
    pub fn sample_count(&self) -> (count: usize)
        ensures
            count == self.samples().len(),
    {
        self.luminance.len()
    }
}


/// A fingerprint differs from itself by nothing, and the difference of two fingerprints does
/// not depend on their order.
pub proof fn lemma_difference_is_a_distance(left: Seq<u8>, right: Seq<u8>, count: int)
    ensures
        absolute_difference_sum(left, left, count) == 0,
        absolute_difference_sum(left, right, count) == absolute_difference_sum(right, left, count),
    decreases count,
{
    if count > 0 {
        lemma_difference_is_a_distance(left, right, count - 1);
    }
}

} // verus!
