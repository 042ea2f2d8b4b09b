use vstd::prelude::*;

use crate::export::{rgba_len, RgbaFrame};
use crate::geometry::RectI;

use super::stitch::OwnedPreviewPatch;
use super::tiled::{grown_rows, overlap_rows, sub_nat, TiledImage};

verus! {

/// The stitched document never grows taller than this many rows.
pub const MAX_STITCHED_HEIGHT: u32 = 30_000;

/// The stitched document never holds more pixels than this.
pub const MAX_STITCHED_AREA: u64 = 149_999_999;

/// Why a scrolling frame could not be stitched.
#[derive(Debug, Clone, Copy, PartialEq, Eq, Structural)]
pub enum ScrollError {
    /// A frame's size differs from the size of the capture.
    DimensionsChanged,
    /// Adding the frame would exceed the maximum document size.
    HeightLimit,
    /// The capture region is too small to be matched.
    RegionTooSmall,
    /// The feature matcher failed on the frame.
    MatcherFailed,
}

/// Whether `width` × (`current_height` + `added_height`, saturated) stays within the
/// maximum document size.
pub open spec fn height_fits(width: nat, current_height: nat, added_height: nat) -> bool {
    let height = if current_height + added_height > u32::MAX {
        u32::MAX as nat
    } else {
        current_height + added_height
    };
    &&& height <= MAX_STITCHED_HEIGHT
    &&& width <= MAX_STITCHED_HEIGHT
    &&& width * height <= MAX_STITCHED_AREA
}

pub fn ensure_height_limit(width: u32, current_height: u32, added_height: u32) -> (r: Result<
    (),
    ScrollError,
>)
    ensures
        r is Ok <==> height_fits(width as nat, current_height as nat, added_height as nat),
        r is Err ==> r == Err::<(), ScrollError>(ScrollError::HeightLimit),
{
    let height = current_height.saturating_add(added_height);
    if height > MAX_STITCHED_HEIGHT || width > MAX_STITCHED_HEIGHT {
        return Err(ScrollError::HeightLimit);
    }
    proof {
        assert(width * height <= 30_000 * 30_000) by (nonlinear_arith)
            requires
                width <= 30_000,
                height <= 30_000,
        ;
    }
    if width as u64 * height as u64 <= MAX_STITCHED_AREA {
        Ok(())
    } else {
        Err(ScrollError::HeightLimit)
    }
}

/// Rows of a `height`-row frame that are spliced in when the document grows by `grow` rows:
/// at least half the frame and at least a quarter of it plus the new rows, never more
/// than the frame.
pub open spec fn splice_rows(height: nat, grow: nat) -> nat {
    let half = height / 2;
    let quarter = (height + 3) / 4 + grow;
    let quarter = if quarter > u32::MAX { u32::MAX as nat } else { quarter };
    let wanted = if half >= quarter { half } else { quarter };
    if wanted < 1 {
        1
    } else if wanted > height {
        height
    } else {
        wanted
    }
}

/// The rows of `frame` that a growth of `grow` rows splices in: taken from the top
/// of the frame when the document grows upward, from its bottom otherwise.
pub open spec fn splice_strip(pixels: Seq<u8>, width: nat, height: nat, grow: nat, from_top: bool) -> Seq<u8> {
    let rows = splice_rows(height, grow);
    let top = if from_top { 0 } else { height - rows };
    pixels.subrange(top * width * 4, (top + rows) * width * 4)
}

proof fn lemma_rows_bytes(top: nat, rows: nat, height: nat, width: nat)
    requires
        top + rows <= height,
    ensures
        top * width * 4 <= (top + rows) * width * 4 <= height * width * 4,
        (top + rows) * width * 4 - top * width * 4 == rows * (width * 4),
{
    assert(top * width * 4 <= (top + rows) * width * 4 <= height * width * 4) by (nonlinear_arith)
        requires
            top + rows <= height,
    ;
    assert((top + rows) * width * 4 - top * width * 4 == rows * (width * 4)) by (nonlinear_arith);
}

/// Copies the rows of `frame` that a growth of `grow` rows splices in, with their row count.
pub fn crop_splice_strip(frame: &RgbaFrame, grow: u32, from_top: bool) -> (r: (Vec<u8>, u32))
    ensures
        r.1 == splice_rows(frame.spec_bounds().height as nat, grow as nat),
        r.0@ == splice_strip(
            frame@,
            frame.spec_bounds().width as nat,
            frame.spec_bounds().height as nat,
            grow as nat,
            from_top,
        ),
        r.0@.len() == r.1 * (frame.spec_bounds().width * 4),
{
    let height = frame.height();
    let width = frame.width();
    let pixels = frame.pixels();
    let total = pixels.len();
    let half = height / 2;
    let quarter = (height / 4 + if height % 4 == 0 { 0 } else { 1 }).saturating_add(grow);
    let wanted = if half >= quarter {
        half
    } else {
        quarter
    };
    let crop = if wanted < 1 {
        1
    } else if wanted > height {
        height
    } else {
        wanted
    };
    let top = if from_top {
        0
    } else {
        height - crop
    };
    proof {
        assert(width * 4 <= width * height * 4) by (nonlinear_arith)
            requires
                height >= 1,
        ;
        assert(height * width * 4 == width * height * 4) by (nonlinear_arith);
        lemma_rows_bytes(top as nat, crop as nat, height as nat, width as nat);
        assert((height / 4 + if height % 4 == 0 { 0int } else { 1int }) == (height + 3) / 4);
    }
    let row_bytes = width as usize * 4;
    proof {
        assert(top * row_bytes == top * width * 4) by (nonlinear_arith)
            requires
                row_bytes == width * 4,
        ;
        assert(crop * row_bytes == crop * (width * 4));
        assert(top * row_bytes + crop * row_bytes == (top + crop) * width * 4) by (nonlinear_arith)
            requires
                row_bytes == width * 4,
        ;
    }
    let start = top as usize * row_bytes;
    let end = start + crop as usize * row_bytes;
    let mut strip: Vec<u8> = Vec::new();
    let mut index = start;
    while index < end
        invariant
            start <= index <= end,
            end <= pixels@.len(),
            strip@ == pixels@.subrange(start as int, index as int),
        decreases end - index,
    {
        strip.push(pixels[index]);
        proof {
            assert(pixels@.subrange(start as int, index + 1) =~= pixels@.subrange(
                start as int,
                index as int,
            ).push(pixels@[index as int]));
        }
        index = index + 1;
    }
    (strip, crop)
}

/// Whether two frames have the same size and the same color in every pixel, ignoring alpha.
pub open spec fn same_visible_pixels(left: Seq<u8>, right: Seq<u8>) -> bool {
    &&& left.len() == right.len()
    &&& forall|i: int|
        0 <= i < left.len() / 4 * 4 && i % 4 != 3 ==> #[trigger] left[i] == right[i]
}

pub fn visible_pixels_identical(left: &RgbaFrame, right: &RgbaFrame) -> (same: bool)
    ensures
        same == same_visible_pixels(left@, right@),
{
    let a = left.pixels();
    let b = right.pixels();
    if a.len() != b.len() {
        return false;
    }
    let limit = a.len() / 4 * 4;
    let mut index: usize = 0;
    while index < limit
        invariant
            a@ == left@,
            b@ == right@,
            a@.len() == b@.len(),
            limit == a@.len() / 4 * 4,
            index <= limit,
            index % 4 == 0,
            forall|i: int| 0 <= i < index && i % 4 != 3 ==> #[trigger] a@[i] == b@[i],
        decreases limit - index,
    {
        if a[index] != b[index] || a[index + 1] != b[index + 1] || a[index + 2] != b[index + 2] {
            return false;
        }
        index = index + 4;
    }
    true
}

/// How the stitched document grows to take in a matched frame.
#[derive(Debug, Clone, Copy, PartialEq, Eq, Structural)]
pub struct SpliceGrowth {
    pub rows: u32,
    pub from_top: bool,
}

/// A frame whose offset from the previous frame is known, on its way to the splicer.
pub struct MatchedFrame {
    pub splice_id: u64,
    pub frame: RgbaFrame,
    pub shift: i32,
    pub growth: Option<SpliceGrowth>,
}

impl MatchedFrame {
    /// A matched frame whose growth has not been planned yet.
    pub fn new(splice_id: u64, frame: RgbaFrame, shift: i32) -> (m: MatchedFrame)
        ensures
            m.splice_id == splice_id,
            m.frame == frame,
            m.shift == shift,
            m.growth is None,
    {
        MatchedFrame { splice_id, frame, shift, growth: None }
    }
}

/// The scroll position and depth after moving by `shift` rows, and how the document grows:
/// moving above the top grows it upward by the rows above, moving below the deepest point
/// seen so far grows it downward by the new rows.
pub open spec fn plan_positions(position: int, max_depth: int, shift: int) -> (int, int, Option<SpliceGrowth>) {
    if shift == 0 {
        (position, max_depth, None)
    } else {
        let p = position - shift;
        if p < 0 {
            (0, max_depth - p, Some(SpliceGrowth { rows: (-p) as u32, from_top: true }))
        } else if p - max_depth > 0 {
            (p, p, Some(SpliceGrowth { rows: (p - max_depth) as u32, from_top: false }))
        } else {
            (p, max_depth, None)
        }
    }
}

/// The stitching state of one scrolling capture: the document so far, the last frame,
/// and where the viewport stands in the document.
#[derive(Clone)]
pub struct ScrollCaptureSession {
    stitched: TiledImage,
    previous: RgbaFrame,
    bounds: RectI,
    position: i64,
    max_depth: i64,
    planned_height: u32,
}

impl ScrollCaptureSession {
    /// The document is consistent, has the width of the frames, and is never empty;
    /// the viewport lies between the top and the deepest point seen.
    pub closed spec fn wf(&self) -> bool {
        &&& self.stitched.wf()
        &&& self.stitched.spec_width() == self.bounds.width
        &&& self.previous.spec_bounds().width == self.bounds.width
        &&& self.previous.spec_bounds().height == self.bounds.height
        &&& self.bounds.width > 0
        &&& self.stitched.spec_height() >= 1
        &&& 0 <= self.position <= self.max_depth
    }

    pub closed spec fn document(&self) -> TiledImage {
        self.stitched
    }

    pub closed spec fn spec_previous(&self) -> RgbaFrame {
        self.previous
    }

    pub closed spec fn spec_bounds(&self) -> RectI {
        self.bounds
    }

    pub closed spec fn spec_position(&self) -> int {
        self.position as int
    }

    pub closed spec fn spec_max_depth(&self) -> int {
        self.max_depth as int
    }

    pub closed spec fn spec_planned_height(&self) -> nat {
        self.planned_height as nat
    }

    pub fn new(initial: RgbaFrame) -> (session: ScrollCaptureSession)
        ensures
            session.wf(),
            session.document()@ == initial@,
            session.document().spec_height() == initial.spec_bounds().height,
            session.document().spec_width() == initial.spec_bounds().width,
            session.spec_previous() == initial,
            session.spec_bounds() == initial.spec_bounds(),
            session.spec_position() == 0,
            session.spec_max_depth() == 0,
            session.spec_planned_height() == initial.spec_bounds().height,
    {
        let bounds = initial.bounds();
        let pixels = initial.pixels();
        let mut copy: Vec<u8> = Vec::new();
        let mut index: usize = 0;
        while index < pixels.len()
            invariant
                index <= pixels@.len(),
                copy@ == pixels@.take(index as int),
            decreases pixels@.len() - index,
        {
            copy.push(pixels[index]);
            proof {
                assert(pixels@.take(index + 1) =~= pixels@.take(index as int).push(pixels@[index as int]));
            }
            index = index + 1;
        }
        proof {
            assert(pixels@.take(index as int) =~= pixels@);
            assert(bounds.width * bounds.height * 4 == bounds.height * (bounds.width * 4)) by (nonlinear_arith);
            assert(bounds.width * 4 <= bounds.width * bounds.height * 4) by (nonlinear_arith)
                requires
                    bounds.height >= 1,
            ;
        }
        let stitched = TiledImage::new(bounds.width, bounds.height, copy);
        ScrollCaptureSession {
            stitched,
            previous: initial,
            bounds,
            position: 0,
            max_depth: 0,
            planned_height: bounds.height,
        }
    }

    /// A consistent session's document has the width of its frames, is never empty, and the
    /// viewport lies between the document's top and the deepest point seen: so `finish` returns
    /// an image exactly as wide as the first frame.
    pub proof fn lemma_document_keeps_the_frame_width(&self)
        requires
            self.wf(),
        ensures
            self.document().spec_width() == self.spec_bounds().width,
            self.spec_bounds().width > 0,
            self.document().spec_height() >= 1,
            self.spec_previous().spec_bounds().width == self.spec_bounds().width,
            self.spec_previous().spec_bounds().height == self.spec_bounds().height,
            0 <= self.spec_position() <= self.spec_max_depth(),
    {
    }

    /// The last frame that was matched or used as a baseline.
    pub fn previous(&self) -> (frame: &RgbaFrame)
        ensures
            *frame == self.spec_previous(),
    {
        &self.previous
    }

    /// Replaces the frame that the next frame is matched against, when it has the capture's size.
    pub fn reset_baseline(&mut self, frame: RgbaFrame)
        requires
            old(self).wf(),
        ensures
            final(self).wf(),
            final(self).document() == old(self).document(),
            final(self).spec_bounds() == old(self).spec_bounds(),
            final(self).spec_position() == old(self).spec_position(),
            final(self).spec_max_depth() == old(self).spec_max_depth(),
            final(self).spec_planned_height() == old(self).spec_planned_height(),
            final(self).spec_previous() == (if frame.spec_bounds().width == old(self).spec_previous().spec_bounds().width
                && frame.spec_bounds().height == old(self).spec_previous().spec_bounds().height {
                frame
            } else {
                old(self).spec_previous()
            }),
    {
        if frame.width() == self.previous.width() && frame.height() == self.previous.height() {
            self.previous = frame;
        }
    }

    /// Whether `frame` has to be matched: an error when its size differs from the capture's,
    /// `false` when it shows exactly what the previous frame showed.
    pub fn needs_match(&self, frame: &RgbaFrame) -> (r: Result<bool, ScrollError>)
        ensures
            (frame.spec_bounds().width != self.spec_previous().spec_bounds().width
                || frame.spec_bounds().height != self.spec_previous().spec_bounds().height)
                ==> r == Err::<bool, ScrollError>(ScrollError::DimensionsChanged),
            (frame.spec_bounds().width == self.spec_previous().spec_bounds().width
                && frame.spec_bounds().height == self.spec_previous().spec_bounds().height)
                ==> r == Ok::<bool, ScrollError>(!same_visible_pixels(self.spec_previous()@, frame@)),
    {
        if frame.width() != self.previous.width() || frame.height() != self.previous.height() {
            return Err(ScrollError::DimensionsChanged);
        }
        Ok(!visible_pixels_identical(&self.previous, frame))
    }

    /// Takes in the matcher's verdict on `frame`: the frame becomes the new baseline; a
    /// matcher failure is an error, a rejected offset gives `None`, any other offset gives
    /// the frame to splice.
    pub fn accept_match(
        &mut self,
        splice_id: u64,
        frame: RgbaFrame,
        matched: Result<super::matching::FrameMatch, ScrollError>,
    ) -> (r: Result<Option<MatchedFrame>, ScrollError>)
        requires
            old(self).wf(),
            frame.spec_bounds().width == old(self).spec_previous().spec_bounds().width,
            frame.spec_bounds().height == old(self).spec_previous().spec_bounds().height,
        ensures
            final(self).wf(),
            final(self).spec_previous().same_image(&frame),
            final(self).document() == old(self).document(),
            final(self).spec_bounds() == old(self).spec_bounds(),
            final(self).spec_position() == old(self).spec_position(),
            final(self).spec_max_depth() == old(self).spec_max_depth(),
            final(self).spec_planned_height() == old(self).spec_planned_height(),
            match matched {
                Err(e) => r == Err::<Option<MatchedFrame>, ScrollError>(e),
                Ok(m) => if m.rejected {
                    r == Ok::<Option<MatchedFrame>, ScrollError>(None)
                } else {
                    match r {
                        Ok(Some(out)) => out.splice_id == splice_id && out.frame == frame
                            && out.shift == m.shift && out.growth is None,
                        _ => false,
                    }
                },
            },
    {
        let baseline = frame.clone();
        self.previous = baseline;
        match matched {
            Err(error) => Err(error),
            Ok(m) => {
                if m.rejected {
                    Ok(None)
                } else {
                    Ok(Some(MatchedFrame::new(splice_id, frame, m.shift)))
                }
            },
        }
    }

    /// Moves the viewport by the frame's offset and, where the document has to grow,
    /// reserves the rows within the size limit and records the growth on the frame.
    pub fn plan_matched_frame(&mut self, matched: &mut MatchedFrame) -> (r: Result<(), ScrollError>)
        requires
            old(self).wf(),
            old(self).spec_max_depth() <= i64::MAX - 0x1_0000_0000,
        ensures
            final(self).wf(),
            final(self).document() == old(self).document(),
            final(self).spec_previous() == old(self).spec_previous(),
            final(self).spec_bounds() == old(self).spec_bounds(),
            final(matched).splice_id == old(matched).splice_id,
            final(matched).frame == old(matched).frame,
            final(matched).shift == old(matched).shift,
            ({
                let planned = plan_positions(
                    old(self).spec_position(),
                    old(self).spec_max_depth(),
                    old(matched).shift as int,
                );
                &&& final(self).spec_position() == planned.0
                &&& final(self).spec_max_depth() == planned.1
                &&& match planned.2 {
                    None => {
                        &&& r is Ok
                        &&& final(self).spec_planned_height() == old(self).spec_planned_height()
                        &&& final(matched).growth == old(matched).growth
                    },
                    Some(growth) => if height_fits(
                        old(self).spec_bounds().width as nat,
                        old(self).spec_planned_height(),
                        growth.rows as nat,
                    ) {
                        &&& r is Ok
                        &&& final(self).spec_planned_height() == old(self).spec_planned_height()
                            + growth.rows
                        &&& final(matched).growth == Some(growth)
                    } else {
                        &&& r == Err::<(), ScrollError>(ScrollError::HeightLimit)
                        &&& final(self).spec_planned_height() == old(self).spec_planned_height()
                        &&& final(matched).growth == old(matched).growth
                    },
                }
            }),
    {
        if matched.shift == 0 {
            return Ok(());
        }
        self.position = self.position - matched.shift as i64;
        let growth = if self.position < 0 {
            let rows = (-self.position) as u32;
            self.max_depth = self.max_depth + rows as i64;
            self.position = 0;
            Some(SpliceGrowth { rows, from_top: true })
        } else {
            let rows = self.position - self.max_depth;
            if rows > 0 {
                self.max_depth = self.position;
                Some(SpliceGrowth { rows: rows as u32, from_top: false })
            } else {
                None
            }
        };
        if let Some(growth) = growth {
            ensure_height_limit(self.stitched.width(), self.planned_height, growth.rows)?;
            self.planned_height = self.planned_height + growth.rows;
            matched.growth = Some(growth);
        }
        Ok(())
    }

    /// Splices a planned frame into the document and returns the changed rows; a frame that
    /// needs no growth only becomes the new baseline.
    pub fn commit_matched_frame(&mut self, matched: MatchedFrame) -> (r: Result<
        Option<OwnedPreviewPatch>,
        ScrollError,
    >)
        requires
            old(self).wf(),
            matched.frame.spec_bounds().width == old(self).spec_bounds().width,
            matched.frame.spec_bounds().height == old(self).spec_bounds().height,
        ensures
            final(self).wf(),
            final(self).spec_bounds() == old(self).spec_bounds(),
            final(self).spec_position() == old(self).spec_position(),
            final(self).spec_max_depth() == old(self).spec_max_depth(),
            final(self).spec_planned_height() == old(self).spec_planned_height(),
            match matched.growth {
                None => {
                    &&& r matches Ok(None)
                    &&& final(self).document() == old(self).document()
                    &&& final(self).spec_previous() == matched.frame
                },
                Some(growth) => if !height_fits(
                    old(self).spec_bounds().width as nat,
                    old(self).document().spec_height(),
                    growth.rows as nat,
                ) {
                    &&& r == Err::<Option<OwnedPreviewPatch>, ScrollError>(ScrollError::HeightLimit)
                    &&& final(self).document() == old(self).document()
                    &&& final(self).spec_previous() == old(self).spec_previous()
                } else {
                    let frame = matched.frame;
                    let strip = splice_strip(
                        frame@,
                        frame.spec_bounds().width as nat,
                        frame.spec_bounds().height as nat,
                        growth.rows as nat,
                        growth.from_top,
                    );
                    let strip_height = splice_rows(frame.spec_bounds().height as nat, growth.rows as nat);
                    let old_doc = old(self).document();
                    let rb = old_doc.spec_row_bytes();
                    let ov = overlap_rows(old_doc.spec_height(), strip_height, growth.rows as nat);
                    let drawn = grown_rows(strip_height, growth.rows as nat) + ov;
                    &&& final(self).spec_previous() == frame
                    &&& final(self).document().spec_height() == old_doc.spec_height() + grown_rows(
                        strip_height,
                        growth.rows as nat,
                    )
                    &&& final(self).document()@ == (if growth.from_top {
                        strip.subrange(0, (drawn * rb) as int) + old_doc@.subrange(
                            (ov * rb) as int,
                            old_doc@.len() as int,
                        )
                    } else {
                        old_doc@.subrange(0, (sub_nat(old_doc.spec_height(), ov) * rb) as int)
                            + strip.subrange(((strip_height - drawn) * rb) as int, strip.len() as int)
                    })
                    &&& match r {
                        Ok(Some(patch)) => {
                            let top = if growth.from_top { 0 } else { old_doc.spec_height() - ov };
                            let height = if growth.from_top {
                                final(self).document().spec_height()
                            } else {
                                drawn
                            };
                            &&& patch.document_width == old_doc.spec_width()
                            &&& patch.document_height == final(self).document().spec_height()
                            &&& patch.region.top == top
                            &&& patch.region.height == height
                            &&& patch.rgba@ == super::tiled::crop_of(
                                final(self).document()@,
                                rb,
                                top as nat,
                                height as nat,
                            )
                        },
                        _ => false,
                    }
                },
            },
    {
        let growth = match matched.growth {
            None => {
                self.previous = matched.frame;
                return Ok(None);
            },
            Some(growth) => growth,
        };
        ensure_height_limit(self.stitched.width(), self.stitched.height(), growth.rows)?;
        proof {
            self.stitched.lemma_wf_len();
        }
        let (strip, strip_height) = crop_splice_strip(&matched.frame, growth.rows, growth.from_top);
        self.previous = matched.frame;
        let region = if growth.from_top {
            self.stitched.prepend_overlapping(strip, strip_height, growth.rows)
        } else {
            self.stitched.append_overlapping(strip, strip_height, growth.rows)
        };
        proof {
            self.stitched.lemma_wf_len();
            let h = self.stitched.spec_height();
            let w = self.stitched.spec_width();
            let limit = if old(self).stitched.spec_height() + growth.rows > u32::MAX {
                u32::MAX as int
            } else {
                old(self).stitched.spec_height() + growth.rows
            };
            assert(h <= limit);
            assert(w * h <= w * limit) by (nonlinear_arith)
                requires
                    h <= limit,
            ;
            assert(region.height <= h);
            assert(region.height * (w * 4) <= h * (w * 4)) by (nonlinear_arith)
                requires
                    region.height <= h,
            ;
            assert(h * (w * 4) <= MAX_STITCHED_AREA * 4) by (nonlinear_arith)
                requires
                    w * h <= MAX_STITCHED_AREA,
            ;
        }
        let rgba = self.stitched.crop_rows(region.top, region.height);
        Ok(
            Some(
                OwnedPreviewPatch {
                    document_width: self.stitched.width(),
                    document_height: self.stitched.height(),
                    rgba,
                    region,
                },
            ),
        )
    }

    /// Ends the capture and returns the stitched document at the capture's origin.
    pub fn finish(self) -> (frame: RgbaFrame)
        requires
            self.wf(),
        ensures
            frame.spec_bounds() == (RectI {
                left: self.spec_bounds().left,
                top: self.spec_bounds().top,
                width: self.document().spec_width() as u32,
                height: self.document().spec_height() as u32,
            }),
            frame.spec_bounds().width == self.spec_bounds().width,
            frame@ == self.document()@,
    {
        proof {
            self.stitched.lemma_wf_len();
        }
        let bounds = RectI::new(
            self.bounds.left,
            self.bounds.top,
            self.stitched.width(),
            self.stitched.height(),
        );
        let pixels = self.stitched.into_pixels();
        proof {
            assert(bounds.height * (bounds.width * 4) == bounds.width * bounds.height * 4)
                by (nonlinear_arith);
        }
        match RgbaFrame::new(bounds, pixels) {
            Ok(frame) => frame,
            Err(_) => vstd::pervasive::unreached(),
        }
    }
}

} // verus!
