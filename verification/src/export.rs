use vstd::prelude::*;

use crate::geometry::RectI;
use crate::text::{append_decimal, decimal};

verus! {

/// What the user asked to do with a confirmed capture.
#[derive(Debug, Clone, Copy, PartialEq, Eq, Structural)]
pub enum CaptureIntent {
    Clipboard,
    Save,
    Pin,
    ExtractText,
    ScrollCapture,
}

/// Why a selection could not become an exported image.
#[derive(Debug, Clone, Copy, PartialEq, Eq, Structural)]
pub enum ExportError {
    EmptyDesktop,
    NonFiniteSelection,
    EmptySelection,
    CoordinateOverflow,
    PixelLengthOverflow,
    InvalidPixelLength { expected: usize, actual: usize },
}

impl ExportError {
    /// A sentence that describes the error for a log or a dialog.
    pub fn message(&self) -> (text: String)
        ensures
            match *self {
                ExportError::EmptyDesktop => text@ == "export desktop must not be empty"@,
                ExportError::NonFiniteSelection => text@
                    == "export selection coordinates must be finite"@,
                ExportError::EmptySelection => text@ == "export selection must not be empty"@,
                ExportError::CoordinateOverflow => text@ == "export coordinates overflow"@,
                ExportError::PixelLengthOverflow => text@ == "export pixel length overflow"@,
                ExportError::InvalidPixelLength { expected, actual } => text@
                    == "invalid RGBA frame length: expected "@ + decimal(expected as nat) + ", got "@
                    + decimal(actual as nat),
            },
    {
        match *self {
            ExportError::EmptyDesktop => String::from_str("export desktop must not be empty"),
            ExportError::NonFiniteSelection => String::from_str(
                "export selection coordinates must be finite",
            ),
            ExportError::EmptySelection => String::from_str("export selection must not be empty"),
            ExportError::CoordinateOverflow => String::from_str("export coordinates overflow"),
            ExportError::PixelLengthOverflow => String::from_str("export pixel length overflow"),
            ExportError::InvalidPixelLength { expected, actual } => {
                let mut text = String::from_str("invalid RGBA frame length: expected ");
                append_decimal(&mut text, expected);
                text.append(", got ");
                append_decimal(&mut text, actual);
                text
            },
        }
    }
}

/// `value` clamped into `[low, high]`.
pub open spec fn clamp_int(value: int, low: int, high: int) -> int {
    if value < low {
        low
    } else if value > high {
        high
    } else {
        value
    }
}

/// The result of cropping a selection whose edges were already rounded outward
/// (left and top down, right and bottom up) to whole pixels of `desktop`.
pub open spec fn spec_rounded_region(
    finite: bool,
    left: int,
    top: int,
    right: int,
    bottom: int,
    desktop: RectI,
) -> Result<ExportRegion, ExportError> {
    let l = clamp_int(left, 0, desktop.width as int);
    let t = clamp_int(top, 0, desktop.height as int);
    let r = clamp_int(right, 0, desktop.width as int);
    let b = clamp_int(bottom, 0, desktop.height as int);
    if desktop.width == 0 || desktop.height == 0 {
        Err(ExportError::EmptyDesktop)
    } else if !finite {
        Err(ExportError::NonFiniteSelection)
    } else if r <= l || b <= t {
        Err(ExportError::EmptySelection)
    } else if l > i32::MAX || t > i32::MAX || desktop.left + l > i32::MAX || desktop.top + t
        > i32::MAX {
        Err(ExportError::CoordinateOverflow)
    } else {
        Ok(
            ExportRegion {
                local: RectI { left: l as i32, top: t as i32, width: (r - l) as u32, height: (b - t) as u32 },
                desktop: RectI {
                    left: (desktop.left + l) as i32,
                    top: (desktop.top + t) as i32,
                    width: (r - l) as u32,
                    height: (b - t) as u32,
                },
            },
        )
    }
}

/// A crop never leaves the desktop, keeps the rounded selection's clipped edges, and sits
/// at the same place of the virtual desktop as of the overlay, shifted by the desktop's
/// origin, negative or not.
pub proof fn lemma_export_region_within_desktop(
    finite: bool,
    left: int,
    top: int,
    right: int,
    bottom: int,
    desktop: RectI,
)
    requires
        spec_rounded_region(finite, left, top, right, bottom, desktop) is Ok,
    ensures
        ({
            let region = spec_rounded_region(finite, left, top, right, bottom, desktop)->Ok_0;
            &&& 0 <= region.local.left
            &&& region.local.left + region.local.width <= desktop.width
            &&& 0 <= region.local.top
            &&& region.local.top + region.local.height <= desktop.height
            &&& region.local.left == clamp_int(left, 0, desktop.width as int)
            &&& region.local.top == clamp_int(top, 0, desktop.height as int)
            &&& region.local.left + region.local.width == clamp_int(right, 0, desktop.width as int)
            &&& region.local.top + region.local.height == clamp_int(bottom, 0, desktop.height as int)
            &&& region.desktop.left == desktop.left + region.local.left
            &&& region.desktop.top == desktop.top + region.local.top
            &&& region.desktop.width == region.local.width
            &&& region.desktop.height == region.local.height
        }),
{
}

fn clamp_i64(value: i64, low: i64, high: i64) -> (r: i64)
    requires
        low <= high,
    ensures
        r == clamp_int(value as int, low as int, high as int),
{
    if value < low {
        low
    } else if value > high {
        high
    } else {
        value
    }
}

/// Integer crop derived from a physical-pixel selection.
#[derive(Debug, Clone, Copy, PartialEq, Eq, Structural)]
pub struct ExportRegion {
    pub local: RectI,
    pub desktop: RectI,
}

impl ExportRegion {
    /// Crops a selection given by its pixel edges, already rounded outward, to `desktop`.
    /// `finite` tells whether every edge of the selection was a finite number.
    pub fn from_rounded_selection(
        finite: bool,
        left: i64,
        top: i64,
        right: i64,
        bottom: i64,
        desktop: RectI,
    ) -> (r: Result<ExportRegion, ExportError>)
        ensures
            r == spec_rounded_region(
                finite,
                left as int,
                top as int,
                right as int,
                bottom as int,
                desktop,
            ),
    {
        if desktop.width() == 0 || desktop.height() == 0 {
            return Err(ExportError::EmptyDesktop);
        }
        if !finite {
            return Err(ExportError::NonFiniteSelection);
        }
        let width = desktop.width() as i64;
        let height = desktop.height() as i64;
        let left = clamp_i64(left, 0, width);
        let top = clamp_i64(top, 0, height);
        let right = clamp_i64(right, 0, width);
        let bottom = clamp_i64(bottom, 0, height);
        if right <= left || bottom <= top {
            return Err(ExportError::EmptySelection);
        }
        if left > i32::MAX as i64 || top > i32::MAX as i64 {
            return Err(ExportError::CoordinateOverflow);
        }
        let local_left = left as i32;
        let local_top = top as i32;
        let region_width = (right - left) as u32;
        let region_height = (bottom - top) as u32;
        let desktop_left = desktop.left as i64 + left;
        let desktop_top = desktop.top as i64 + top;
        if desktop_left > i32::MAX as i64 || desktop_top > i32::MAX as i64 {
            return Err(ExportError::CoordinateOverflow);
        }
        Ok(
            ExportRegion {
                local: RectI::new(local_left, local_top, region_width, region_height),
                desktop: RectI::new(
                    desktop_left as i32,
                    desktop_top as i32,
                    region_width,
                    region_height,
                ),
            },
        )
    }

    pub fn local(self) -> (r: RectI)
        ensures
            r == self.local,
    {
        self.local
    }

    pub fn desktop(self) -> (r: RectI)
        ensures
            r == self.desktop,
    {
        self.desktop
    }
}

/// The byte length of a top-down RGBA8 image of `bounds`.
pub open spec fn rgba_len(bounds: RectI) -> int {
    bounds.width * bounds.height * 4
}

/// A top-down RGBA8 image positioned in virtual-desktop physical pixels.
#[derive(Debug, PartialEq, Eq)]
pub struct RgbaFrame {
    bounds: RectI,
    pixels: Vec<u8>,
}

impl View for RgbaFrame {
    type V = Seq<u8>;

    /// The image bytes, four per pixel, rows top to bottom.
    closed spec fn view(&self) -> Seq<u8> {
        self.pixels@
    }
}

impl RgbaFrame {
    #[verifier::type_invariant]
    closed spec fn well_formed(self) -> bool {
        &&& self.bounds.width > 0
        &&& self.bounds.height > 0
        &&& self.pixels@.len() == rgba_len(self.bounds)
        &&& rgba_len(self.bounds) <= usize::MAX
    }

    pub closed spec fn spec_bounds(&self) -> RectI {
        self.bounds
    }

    /// Both frames have the same bounds and the same pixels.
    pub open spec fn same_image(&self, other: &RgbaFrame) -> bool {
        &&& self.spec_bounds() == other.spec_bounds()
        &&& self@ == other@
    }

    /// The byte length that `new` expects for `bounds`, or `None` when it does not fit in `usize`.
    pub fn expected_len(bounds: RectI) -> (r: Option<usize>)
        ensures
            match r {
                Some(n) => n == rgba_len(bounds),
                None => rgba_len(bounds) > usize::MAX,
            },
    {
        let pixel_count = (bounds.width as usize).checked_mul(bounds.height as usize);
        match pixel_count {
            Some(count) => {
                proof {
                    assert(bounds.width * bounds.height * 4 == (bounds.width * bounds.height) * 4);
                }
                count.checked_mul(4)
            },
            None => {
                proof {
                    assert(bounds.width * bounds.height * 4 >= bounds.width * bounds.height)
                        by (nonlinear_arith);
                }
                None
            },
        }
    }

    pub fn new(bounds: RectI, pixels: Vec<u8>) -> (r: Result<RgbaFrame, ExportError>)
        ensures
            bounds.width == 0 || bounds.height == 0 ==> r == Err::<RgbaFrame, ExportError>(
                ExportError::EmptySelection,
            ),
            bounds.width > 0 && bounds.height > 0 && rgba_len(bounds) > usize::MAX ==> r == Err::<
                RgbaFrame,
                ExportError,
            >(ExportError::PixelLengthOverflow),
            bounds.width > 0 && bounds.height > 0 && rgba_len(bounds) <= usize::MAX
                && pixels@.len() != rgba_len(bounds) ==> r == Err::<RgbaFrame, ExportError>(
                ExportError::InvalidPixelLength {
                    expected: rgba_len(bounds) as usize,
                    actual: pixels@.len() as usize,
                },
            ),
            bounds.width > 0 && bounds.height > 0 && pixels@.len() == rgba_len(bounds) ==> (
            match r {
                Ok(frame) => frame.spec_bounds() == bounds && frame@ == pixels@,
                Err(_) => false,
            }),
    {
        let actual = pixels.len();
        if bounds.width() == 0 || bounds.height() == 0 {
            return Err(ExportError::EmptySelection);
        }
        let expected = match RgbaFrame::expected_len(bounds) {
            Some(n) => n,
            None => {
                return Err(ExportError::PixelLengthOverflow);
            },
        };
        if pixels.len() != expected {
            return Err(ExportError::InvalidPixelLength { expected, actual });
        }
        Ok(RgbaFrame { bounds, pixels })
    }

    pub fn width(&self) -> (w: u32)
        ensures
            w == self.spec_bounds().width,
            w > 0,
    {
        proof {
            use_type_invariant(self);
        }
        self.bounds.width
    }

    pub fn height(&self) -> (h: u32)
        ensures
            h == self.spec_bounds().height,
            h > 0,
    {
        proof {
            use_type_invariant(self);
        }
        self.bounds.height
    }

    /// The bounds; the pixels fill them exactly and they are never empty.
    pub fn bounds(&self) -> (b: RectI)
        ensures
            b == self.spec_bounds(),
            b.width > 0,
            b.height > 0,
            self@.len() == rgba_len(b),
    {
        proof {
            use_type_invariant(self);
        }
        self.bounds
    }

    /// The pixels, which fill the (never empty) bounds exactly.
    pub fn pixels(&self) -> (p: &[u8])
        ensures
            p@ == self@,
            p@.len() == rgba_len(self.spec_bounds()),
            rgba_len(self.spec_bounds()) <= usize::MAX,
            self.spec_bounds().width > 0,
            self.spec_bounds().height > 0,
    {
        proof {
            use_type_invariant(self);
        }
        self.pixels.as_slice()
    }


    /// Consumes the frame and returns its pixel buffer.
    pub fn into_pixels(self) -> (p: Vec<u8>)
        ensures
            p@ == self@,
    {
        self.pixels
    }
}

impl Clone for RgbaFrame {
    /// An independent copy with the same bounds and pixels.
    fn clone(&self) -> (copy: Self)
        ensures
            copy.spec_bounds() == self.spec_bounds(),
            copy@ == self@,
    {
        proof {
            use_type_invariant(self);
        }
        RgbaFrame { bounds: self.bounds, pixels: self.pixels.clone() }
    }
}

} // verus!
