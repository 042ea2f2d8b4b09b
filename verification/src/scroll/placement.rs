use vstd::prelude::*;

use crate::arith::lemma_mul_le;
use crate::export::RgbaFrame;
use crate::frame::DesktopFrame;
use crate::geometry::{RectI, clamp_i32};

verus! {

/// The width of the live preview beside a scrolling capture, in physical pixels.
pub const PREVIEW_WIDTH: i32 = 280;

/// The gap between the capture and its live preview, and the preview's margin to the
/// desktop's top edge.
pub const PREVIEW_GAP: i32 = 12;

/// Why the live preview could not be placed.
#[derive(Debug, Clone, Copy, PartialEq, Eq, Structural)]
pub enum PlacementError {
    DesktopWidthOverflow,
    DesktopHeightOverflow,
}

/// Where the live preview stands: its bounds, the bottom edge that it keeps while it grows,
/// and the tallest it may get.
#[derive(Debug, Clone, Copy, PartialEq, Eq, Structural)]
pub struct RightPreviewGeometry {
    pub bounds: RectI,
    pub bottom_anchor: i32,
    pub maximum_height: u32,
}

pub open spec fn max_int(a: int, b: int) -> int {
    if a >= b {
        a
    } else {
        b
    }
}

pub open spec fn min_int(a: int, b: int) -> int {
    if a <= b {
        a
    } else {
        b
    }
}

/// `value` clamped into `[low, high]`, for `low <= high`.
pub open spec fn clamp_between(value: int, low: int, high: int) -> int {
    if value < low {
        low
    } else if value > high {
        high
    } else {
        value
    }
}

/// `numerator / denominator` rounded up.
pub open spec fn ceil_div(numerator: int, denominator: int) -> int {
    (numerator + denominator - 1) / denominator
}

/// The preview height that shows a document of `document_width` × `document_height` at the
/// viewport's width, within one pixel and `maximum_height` (each zero counted as one).
pub open spec fn spec_scaled_preview_height(
    viewport_width: int,
    document_width: int,
    document_height: int,
    maximum_height: int,
) -> int {
    let scaled = min_int(
        ceil_div(max_int(document_height, 1) * max_int(viewport_width, 1), max_int(document_width, 1)),
        u32::MAX as int,
    );
    clamp_between(scaled, 1, max_int(maximum_height, 1))
}

pub fn scaled_preview_height(
    viewport_width: u32,
    document_width: u32,
    document_height: u32,
    maximum_height: u32,
) -> (height: u32)
    ensures
        height == spec_scaled_preview_height(
            viewport_width as int,
            document_width as int,
            document_height as int,
            maximum_height as int,
        ),
        1 <= height <= max_int(maximum_height as int, 1),
{
    let width: u64 = if document_width > 1 {
        document_width as u64
    } else {
        1
    };
    let rows: u64 = if document_height > 1 {
        document_height as u64
    } else {
        1
    };
    let viewport: u64 = if viewport_width > 1 {
        viewport_width as u64
    } else {
        1
    };
    proof {
        lemma_mul_le(rows as int, u32::MAX as int, viewport as int);
        lemma_mul_le(viewport as int, u32::MAX as int, u32::MAX as int);
    }
    let numerator = rows * viewport;
    let ceiling = (numerator + width - 1) / width;
    let scaled: u32 = if ceiling > u32::MAX as u64 {
        u32::MAX
    } else {
        ceiling as u32
    };
    let limit: u32 = if maximum_height > 1 {
        maximum_height
    } else {
        1
    };
    if scaled < 1 {
        1
    } else if scaled > limit {
        limit
    } else {
        scaled
    }
}

/// The desktop's width and height as `placement` uses them: at least one pixel.
pub open spec fn desktop_extent(length: int) -> int {
    max_int(length, 1)
}

/// The live preview's width on a desktop.
pub open spec fn preview_width(desktop: RectI) -> int {
    min_int(PREVIEW_WIDTH as int, desktop_extent(desktop.width as int))
}

/// The lowest and highest left edge that keep the preview on the desktop.
pub open spec fn lowest_left(desktop: RectI) -> int {
    desktop.left as int
}

pub open spec fn highest_left(desktop: RectI) -> int {
    clamp_i32(desktop.spec_right() - preview_width(desktop))
}

/// The preview's top may not come closer than this to the desktop's top edge.
pub open spec fn top_limit(desktop: RectI) -> int {
    clamp_i32(desktop.top + min_int(PREVIEW_GAP as int, desktop_extent(desktop.height as int) / 2))
}

/// The ranges that the preview's left edge and bottom edge are clamped into are not empty.
pub open spec fn placement_ranges_ordered(desktop: RectI) -> bool {
    &&& lowest_left(desktop) <= highest_left(desktop)
    &&& clamp_i32(top_limit(desktop) + 1) <= desktop.spec_bottom()
}

/// The preview's left edge: right of the selection when it fits there, else left of it,
/// clamped onto the desktop.
pub open spec fn preview_left(desktop: RectI, selection: RectI) -> int {
    let width = preview_width(desktop);
    let preferred = clamp_i32(selection.spec_right() + PREVIEW_GAP);
    let left = if clamp_i32(preferred + width) <= desktop.spec_right() {
        preferred
    } else {
        clamp_i32(selection.left - (width + PREVIEW_GAP))
    };
    clamp_between(left, lowest_left(desktop), highest_left(desktop))
}

/// The preview's bottom edge: level with the selection's, kept below the top limit and on
/// the desktop.
pub open spec fn preview_anchor(desktop: RectI, selection: RectI) -> int {
    clamp_between(
        selection.spec_bottom(),
        clamp_i32(top_limit(desktop) + 1),
        desktop.spec_bottom(),
    )
}

/// The tallest the preview may get: from its anchor up to the top limit.
pub open spec fn preview_maximum_height(desktop: RectI, selection: RectI) -> int {
    max_int(min_int(preview_anchor(desktop, selection) - top_limit(desktop), i32::MAX as int), 1)
}

/// The placement of the preview of a capture of `selection` on `desktop`.
pub open spec fn spec_right_preview_geometry(desktop: RectI, selection: RectI) -> Result<
    RightPreviewGeometry,
    PlacementError,
> {
    if desktop.width > i32::MAX {
        Err(PlacementError::DesktopWidthOverflow)
    } else if desktop.height > i32::MAX {
        Err(PlacementError::DesktopHeightOverflow)
    } else {
        let width = preview_width(desktop);
        let anchor = preview_anchor(desktop, selection);
        let maximum = preview_maximum_height(desktop, selection);
        let height = spec_scaled_preview_height(
            width,
            selection.width as int,
            selection.height as int,
            maximum,
        );
        Ok(
            RightPreviewGeometry {
                bounds: RectI {
                    left: preview_left(desktop, selection) as i32,
                    top: clamp_i32(anchor - height) as i32,
                    width: width as u32,
                    height: height as u32,
                },
                bottom_anchor: anchor as i32,
                maximum_height: maximum as u32,
            },
        )
    }
}

fn clamp_i64(value: i64, low: i64, high: i64) -> (r: i64)
    requires
        low <= high,
    ensures
        r == clamp_between(value as int, low as int, high as int),
{
    if value < low {
        low
    } else if value > high {
        high
    } else {
        value
    }
}

fn saturate_i32(value: i64) -> (r: i32)
    ensures
        r == clamp_i32(value as int),
{
    if value > i32::MAX as i64 {
        i32::MAX
    } else if value < i32::MIN as i64 {
        i32::MIN
    } else {
        value as i32
    }
}

/// Places the live preview of a scrolling capture beside the captured `initial` frame: right
/// of it where it fits, else left, with its bottom edge level with the capture's and its
/// height following the document's aspect. The bottom edge stays at the anchor.
pub fn right_preview_geometry(desktop: &DesktopFrame, initial: &RgbaFrame) -> (r: Result<
    RightPreviewGeometry,
    PlacementError,
>)
    requires
        desktop.bounds.width <= i32::MAX && desktop.bounds.height <= i32::MAX
            ==> placement_ranges_ordered(desktop.bounds),
    ensures
        r == spec_right_preview_geometry(desktop.bounds, initial.spec_bounds()),
        r matches Ok(geometry) ==> geometry.bounds.spec_bottom() == geometry.bottom_anchor
            && geometry.bounds.height <= geometry.maximum_height,
{
    let selection = initial.bounds();
    let bounds = desktop.bounds;
    if bounds.width() > i32::MAX as u32 {
        return Err(PlacementError::DesktopWidthOverflow);
    }
    if bounds.height() > i32::MAX as u32 {
        return Err(PlacementError::DesktopHeightOverflow);
    }
    let desktop_width: i64 = if bounds.width() > 1 {
        bounds.width() as i64
    } else {
        1
    };
    let desktop_height: i64 = if bounds.height() > 1 {
        bounds.height() as i64
    } else {
        1
    };
    let width: i64 = if (PREVIEW_WIDTH as i64) < desktop_width {
        PREVIEW_WIDTH as i64
    } else {
        desktop_width
    };
    let desktop_right = bounds.right() as i64;
    let preferred = saturate_i32(selection.right() as i64 + PREVIEW_GAP as i64) as i64;
    let candidate: i64 = if saturate_i32(preferred + width) as i64 <= desktop_right {
        preferred
    } else {
        saturate_i32(selection.left as i64 - (width + PREVIEW_GAP as i64)) as i64
    };
    let highest = saturate_i32(desktop_right - width) as i64;
    let left = clamp_i64(candidate, bounds.left as i64, highest);
    let margin: i64 = if (PREVIEW_GAP as i64) < desktop_height / 2 {
        PREVIEW_GAP as i64
    } else {
        desktop_height / 2
    };
    let limit = saturate_i32(bounds.top as i64 + margin) as i64;
    let anchor = clamp_i64(
        selection.bottom() as i64,
        saturate_i32(limit + 1) as i64,
        bounds.bottom() as i64,
    );
    let span = anchor - limit;
    let maximum: i64 = if span > i32::MAX as i64 {
        i32::MAX as i64
    } else if span < 1 {
        1
    } else {
        span
    };
    let height = scaled_preview_height(
        width as u32,
        initial.width(),
        initial.height(),
        maximum as u32,
    );
    let top = saturate_i32(anchor - height as i64);
    Ok(
        RightPreviewGeometry {
            bounds: RectI::new(left as i32, top, width as u32, height),
            bottom_anchor: anchor as i32,
            maximum_height: maximum as u32,
        },
    )
}

/// The bounds of a preview `width` wide, with its left edge at `left` and its bottom edge
/// at `bottom_anchor`, tall enough for a document of `document_width` × `document_height`
/// within `maximum_height`. The bottom edge stays at the anchor whenever the tallest
/// allowed preview still fits above it.
pub fn preview_bounds_for_document(
    left: i32,
    width: u32,
    bottom_anchor: i32,
    maximum_height: u32,
    document_width: u32,
    document_height: u32,
) -> (bounds: RectI)
    ensures
        bounds.left == left,
        bounds.width == width,
        bounds.height == spec_scaled_preview_height(
            width as int,
            document_width as int,
            document_height as int,
            maximum_height as int,
        ),
        bounds.top == clamp_i32(bottom_anchor - bounds.height),
        bottom_anchor - max_int(maximum_height as int, 1) >= i32::MIN ==> bounds.spec_bottom()
            == bottom_anchor,
{
    let height = scaled_preview_height(width, document_width, document_height, maximum_height);
    let top = saturate_i32(bottom_anchor as i64 - height as i64);
    RectI::new(left, top, width, height)
}

} // verus!
