use std::collections::BTreeMap;
use vstd::prelude::*;

use crate::arith::{lemma_cell_in_grid, lemma_mul_le};
use crate::export::{rgba_len, RgbaFrame};

use super::session::ScrollError;
use vstd::std_specs::iter::IteratorSpec;

verus! {

broadcast use {vstd::std_specs::btree::group_btree_axioms, vstd::laws_cmp::group_laws_cmp};

/// Weight of one exact vote for an offset against the votes for no movement.
pub const SUPPORT_WEIGHT: usize = 20;

/// The matcher's verdict on a frame: the row offset from the previous frame (positive when
/// the content moved down), the offset before the plausibility check, and whether that
/// check rejected it.
#[derive(Debug, Clone, Copy, PartialEq, Eq, Structural)]
pub struct FrameMatch {
    pub shift: i32,
    pub raw_shift: i32,
    pub rejected: bool,
}

/// The verdict when the frames show no movement.
pub fn no_movement() -> (m: FrameMatch)
    ensures
        m == (FrameMatch { shift: 0, raw_shift: 0, rejected: false }),
{
    FrameMatch { shift: 0, raw_shift: 0, rejected: false }
}

/// Whether rows `left_row` of `left` and `right_row` of `right` agree in color (alpha ignored)
/// on columns 1 through `compared`.
pub open spec fn rows_agree(
    left: Seq<u8>,
    left_stride: int,
    left_row: int,
    right: Seq<u8>,
    right_stride: int,
    right_row: int,
    compared: int,
) -> bool {
    forall|x: int, c: int|
        1 <= x <= compared && 0 <= c < 3 ==> #[trigger] left[left_row * left_stride + x * 4 + c]
            == right[right_row * right_stride + x * 4 + c]
}

/// The `i`-th inner row visited: rows 1 to height - 2, from the top or from the bottom.
pub open spec fn edge_row(height: int, i: int, from_bottom: bool) -> int {
    if from_bottom {
        height - 2 - i
    } else {
        1 + i
    }
}

/// The narrower width of the two frames.
pub open spec fn common_width(left: &RgbaFrame, right: &RgbaFrame) -> int {
    if left.spec_bounds().width <= right.spec_bounds().width {
        left.spec_bounds().width as int
    } else {
        right.spec_bounds().width as int
    }
}

/// The shorter height of the two frames.
pub open spec fn common_height(left: &RgbaFrame, right: &RgbaFrame) -> int {
    if left.spec_bounds().height <= right.spec_bounds().height {
        left.spec_bounds().height as int
    } else {
        right.spec_bounds().height as int
    }
}

/// Whether the `i`-th visited inner row agrees in both frames.
pub open spec fn edge_row_agrees(left: &RgbaFrame, right: &RgbaFrame, i: int, from_bottom: bool) -> bool {
    rows_agree(
        left@,
        left.spec_bounds().width * 4,
        edge_row(common_height(left, right), i, from_bottom),
        right@,
        right.spec_bounds().width * 4,
        edge_row(common_height(left, right), i, from_bottom),
        common_width(left, right) - 2,
    )
}

/// How many visited inner rows, starting at the `i`-th, agree before the first that differs.
pub open spec fn agreeing_rows_from(left: &RgbaFrame, right: &RgbaFrame, i: int, from_bottom: bool) -> nat
    decreases common_height(left, right) - 2 - i,
{
    if 0 <= i < common_height(left, right) - 2 && edge_row_agrees(left, right, i, from_bottom) {
        1 + agreeing_rows_from(left, right, i + 1, from_bottom)
    } else {
        0
    }
}

/// How many inner rows, from the top or from the bottom, are identical in both frames
/// (columns at the edges not compared); zero for frames too small to have inner pixels.
pub open spec fn spec_identical_edge_rows(left: &RgbaFrame, right: &RgbaFrame, from_bottom: bool) -> nat {
    if common_width(left, right) <= 2 || common_height(left, right) <= 2 {
        0
    } else {
        agreeing_rows_from(left, right, 0, from_bottom)
    }
}

proof fn lemma_row_offset(row: int, stride: int, x: int, height: int, width: int)
    requires
        0 <= row < height,
        0 <= x < width,
        stride == width * 4,
    ensures
        0 <= row * stride + x * 4,
        row * stride + x * 4 + 4 <= width * height * 4,
{
    assert(0 <= row * stride + x * 4 && row * stride + x * 4 + 4 <= width * height * 4)
        by (nonlinear_arith)
        requires
            0 <= row < height,
            0 <= x < width,
            stride == width * 4,
    ;
}

/// Counts how many inner rows (all rows but the first and the last), from the top or from
/// the bottom, are identical in both frames before the first that differs. Columns at the
/// left and right edge are not compared.
pub fn identical_edge_rows(left: &RgbaFrame, right: &RgbaFrame, from_bottom: bool) -> (n: u32)
    ensures
        n == spec_identical_edge_rows(left, right, from_bottom),
{
    let lw = left.width();
    let rw = right.width();
    let lh = left.height();
    let rh = right.height();
    let width = if lw <= rw {
        lw
    } else {
        rw
    };
    let height = if lh <= rh {
        lh
    } else {
        rh
    };
    if width <= 2 || height <= 2 {
        return 0;
    }
    let compared = width - 2;
    let lp = left.pixels();
    let rp = right.pixels();
    let llen = lp.len();
    let rlen = rp.len();
    proof {
        assert(lw * 4 <= lw * lh * 4) by (nonlinear_arith)
            requires
                lh >= 1,
        ;
        assert(rw * 4 <= rw * rh * 4) by (nonlinear_arith)
            requires
                rh >= 1,
        ;
    }
    let left_stride = lw as usize * 4;
    let right_stride = rw as usize * 4;
    let mut count: u32 = 0;
    let total = height - 2;
    proof {
        assert(agreeing_rows_from(left, right, 0, from_bottom) == 0 + agreeing_rows_from(left, right, 0, from_bottom));
    }
    while count < total
        invariant
            lp@ == left@,
            rp@ == right@,
            lp@.len() == lw * lh * 4,
            rp@.len() == rw * rh * 4,
            llen == lp@.len(),
            rlen == rp@.len(),
            left_stride == lw * 4,
            right_stride == rw * 4,
            width <= lw,
            width <= rw,
            height <= lh,
            height <= rh,
            width > 2,
            height > 2,
            compared == width - 2,
            total == height - 2,
            count <= total,
            lw == left.spec_bounds().width,
            rw == right.spec_bounds().width,
            width == common_width(left, right),
            height == common_height(left, right),
            agreeing_rows_from(left, right, 0, from_bottom) == count + agreeing_rows_from(
                left,
                right,
                count as int,
                from_bottom,
            ),
        decreases total - count,
    {
        let row = if from_bottom {
            height - 2 - count
        } else {
            1 + count
        };
        let mut x: u32 = 1;
        let mut same = true;
        while x <= compared && same
            invariant
                1 <= x <= compared + 1,
                lp@ == left@,
                rp@ == right@,
                lp@.len() == lw * lh * 4,
                rp@.len() == rw * rh * 4,
                llen == lp@.len(),
                rlen == rp@.len(),
                left_stride == lw * 4,
                right_stride == rw * 4,
                width <= lw,
                width <= rw,
                row < height,
                height <= lh,
                height <= rh,
                compared == width - 2,
                same ==> forall|xx: int, c: int|
                    1 <= xx < x && 0 <= c < 3 ==> #[trigger] lp@[row * left_stride + xx * 4 + c]
                        == rp@[row * right_stride + xx * 4 + c],
                !same ==> !rows_agree(lp@, left_stride as int, row as int, rp@, right_stride as int, row as int, compared as int),
            decreases compared + 1 - x + (if same { 1int } else { 0int }),
        {
            proof {
                lemma_row_offset(row as int, left_stride as int, x as int, lh as int, lw as int);
                lemma_row_offset(row as int, right_stride as int, x as int, rh as int, rw as int);
            }
            let left_at = row as usize * left_stride + x as usize * 4;
            let right_at = row as usize * right_stride + x as usize * 4;
            if lp[left_at] != rp[right_at] || lp[left_at + 1] != rp[right_at + 1] || lp[left_at + 2]
                != rp[right_at + 2] {
                same = false;
                proof {
                    if lp@[left_at as int] != rp@[right_at as int] {
                        assert(lp@[row * left_stride + x * 4 + 0] != rp@[row * right_stride + x * 4 + 0]);
                    } else if lp@[left_at + 1] != rp@[right_at + 1] {
                        assert(lp@[row * left_stride + x * 4 + 1] != rp@[row * right_stride + x * 4 + 1]);
                    } else {
                        assert(lp@[row * left_stride + x * 4 + 2] != rp@[row * right_stride + x * 4 + 2]);
                    }
                }
            } else {
                x = x + 1;
            }
        }
        proof {
            assert(row == edge_row(height as int, count as int, from_bottom));
        }
        if !same {
            return count;
        }
        proof {
            assert(rows_agree(lp@, left_stride as int, row as int, rp@, right_stride as int, row as int, compared as int));
            assert(edge_row_agrees(left, right, count as int, from_bottom));
        }
        count = count + 1;
    }
    count
}

/// Where the feature matcher looks: the inner rectangle of the frames without the rows
/// that are identical at the top and at the bottom (keeping 31 of them as context).
#[derive(Debug, Clone, Copy, PartialEq, Eq, Structural)]
pub enum MatcherWindow {
    NoMovement,
    Window { left: u32, top: u32, width: u32, height: u32 },
}

/// The window for `top` identical rows at the top and `bottom` at the bottom of frames
/// of `width` × `height`.
pub open spec fn spec_window(width: nat, height: nat, top: nat, bottom: nat) -> MatcherWindow {
    let inset = height - 2;
    if top >= inset || top + bottom > inset {
        MatcherWindow::NoMovement
    } else {
        let crop_top = if top >= 31 { top - 31 } else { 0 };
        let crop_bottom = if bottom >= 31 { bottom - 31 } else { 0 };
        MatcherWindow::Window {
            left: 1,
            top: (1 + crop_top) as u32,
            width: (width - 2) as u32,
            height: (inset - crop_top - crop_bottom) as u32,
        }
    }
}

/// The smaller of `a` and `b`.
pub open spec fn min_nat(a: nat, b: nat) -> nat {
    if a <= b {
        a
    } else {
        b
    }
}

/// Where the matcher looks, in terms of the rows that agree: the window spans the inner
/// columns and lies inside the inner rows; of the identical rows at the top it keeps exactly
/// the last 31 (all of them when there are fewer) as context above the changed rows, and of
/// the identical rows at the bottom likewise the first 31 below them. So its top row depends
/// only on the identical rows counted from the top, and its bottom row only on those counted
/// from the bottom. There is a window exactly when some inner row differs from the top and
/// the two counts do not overlap.
pub proof fn lemma_window_keeps_31_rows_of_context(
    width: nat,
    height: nat,
    top: nat,
    bottom: nat,
    other_top: nat,
    other_bottom: nat,
)
    requires
        3 <= width <= u32::MAX,
        3 <= height <= u32::MAX,
    ensures
        spec_window(width, height, top, bottom) is NoMovement <==> (top >= height - 2 || top
            + bottom > height - 2),
        spec_window(width, height, top, bottom) matches MatcherWindow::Window {
            left,
            top: window_top,
            width: window_width,
            height: window_height,
        } ==> {
            &&& left == 1 && window_width == width - 2
            &&& 1 <= window_top && window_top + window_height <= height - 1
            &&& (1 + top) - window_top == min_nat(top, 31)
            &&& window_top + window_height - (height - 1 - bottom) == min_nat(bottom, 31)
        },
        spec_window(width, height, top, bottom) is Window && spec_window(
            width,
            height,
            top,
            other_bottom,
        ) is Window ==> spec_window(width, height, top, bottom)->top == spec_window(
            width,
            height,
            top,
            other_bottom,
        )->top,
        spec_window(width, height, top, bottom) is Window && spec_window(
            width,
            height,
            other_top,
            bottom,
        ) is Window ==> spec_window(width, height, top, bottom)->top + spec_window(
            width,
            height,
            top,
            bottom,
        )->height == spec_window(width, height, other_top, bottom)->top + spec_window(
            width,
            height,
            other_top,
            bottom,
        )->height,
{
}

/// Decides where two consecutive frames have to be compared by the feature matcher.
pub fn matcher_window(previous: &RgbaFrame, next: &RgbaFrame) -> (r: Result<MatcherWindow, ScrollError>)
    ensures
        (previous.spec_bounds().width != next.spec_bounds().width || previous.spec_bounds().height
            != next.spec_bounds().height) ==> r == Err::<MatcherWindow, ScrollError>(
            ScrollError::DimensionsChanged,
        ),
        (previous.spec_bounds().width == next.spec_bounds().width && previous.spec_bounds().height
            == next.spec_bounds().height && (previous.spec_bounds().width < 3
            || previous.spec_bounds().height < 3)) ==> r == Err::<MatcherWindow, ScrollError>(
            ScrollError::RegionTooSmall,
        ),
        (previous.spec_bounds().width == next.spec_bounds().width && previous.spec_bounds().height
            == next.spec_bounds().height && previous.spec_bounds().width >= 3
            && previous.spec_bounds().height >= 3) ==> r == Ok::<MatcherWindow, ScrollError>(
            spec_window(
                previous.spec_bounds().width as nat,
                previous.spec_bounds().height as nat,
                spec_identical_edge_rows(previous, next, false),
                spec_identical_edge_rows(previous, next, true),
            ),
        ),
{
    if previous.width() != next.width() || previous.height() != next.height() {
        return Err(ScrollError::DimensionsChanged);
    }
    let width = previous.width();
    let height = previous.height();
    if width < 3 || height < 3 {
        return Err(ScrollError::RegionTooSmall);
    }
    let inset_height = height - 2;
    let identical_top = identical_edge_rows(previous, next, false);
    if identical_top >= inset_height {
        return Ok(MatcherWindow::NoMovement);
    }
    let identical_bottom = identical_edge_rows(previous, next, true);
    let crop_top = if identical_top >= 31 {
        identical_top - 31
    } else {
        0
    };
    let crop_bottom = if identical_bottom >= 31 {
        identical_bottom - 31
    } else {
        0
    };
    let r = if identical_top as u64 + identical_bottom as u64 > inset_height as u64 {
        MatcherWindow::NoMovement
    } else {
        MatcherWindow::Window {
            left: 1,
            top: 1 + crop_top,
            width: width - 2,
            height: inset_height - crop_top - crop_bottom,
        }
    };
    Ok(r)
}

/// The channel of an RGBA pixel that lands in channel `channel` of a BGRA pixel.
pub open spec fn bgra_source_channel(channel: int) -> int {
    if channel == 3 {
        3
    } else {
        2 - channel
    }
}

/// `window` holds the pixels of the `width` × `height` window at (`left`, `top`) of the
/// RGBA image `pixels` (rows of `stride` bytes), row by row in BGRA order.
pub open spec fn is_bgra_window(
    window: Seq<u8>,
    pixels: Seq<u8>,
    stride: int,
    left: int,
    top: int,
    width: int,
    height: int,
) -> bool {
    &&& window.len() == width * height * 4
    &&& forall|row: int, column: int, channel: int|
        0 <= row < height && 0 <= column < width && 0 <= channel < 4 ==> #[trigger] window[(row
            * width + column) * 4 + channel] == pixels[(top + row) * stride + (left + column) * 4
            + bgra_source_channel(channel)]
}

/// Copies the `width` × `height` window at (`left`, `top`) of `image` in the BGRA order
/// that the feature matcher reads.
pub fn bgra_window(image: &RgbaFrame, left: u32, top: u32, width: u32, height: u32) -> (window:
    Vec<u8>)
    requires
        left + width <= image.spec_bounds().width,
        top + height <= image.spec_bounds().height,
    ensures
        is_bgra_window(
            window@,
            image@,
            image.spec_bounds().width * 4,
            left as int,
            top as int,
            width as int,
            height as int,
        ),
{
    let pixels = image.pixels();
    let len = pixels.len();
    let image_width = image.width();
    let image_height = image.height();
    let ghost stride = image_width * 4;
    proof {
        assert(image_width * image_height * 4 == image_height * stride) by (nonlinear_arith)
            requires
                stride == image_width * 4,
        ;
    }
    let mut window: Vec<u8> = Vec::new();
    let mut row: u32 = 0;
    while row < height
        invariant
            pixels@ == image@,
            len == pixels@.len(),
            image_width == image.spec_bounds().width,
            image_height == image.spec_bounds().height,
            stride == image_width * 4,
            len == image_height * stride,
            left + width <= image_width,
            top + height <= image_height,
            row <= height,
            window@.len() == row * width * 4,
            forall|r: int, c: int, ch: int|
                0 <= r < row && 0 <= c < width && 0 <= ch < 4 ==> #[trigger] window@[(r * width
                    + c) * 4 + ch] == pixels@[(top + r) * stride + (left + c) * 4
                    + bgra_source_channel(ch)],
        decreases height - row,
    {
        let mut column: u32 = 0;
        while column < width
            invariant
                pixels@ == image@,
                len == pixels@.len(),
                image_width == image.spec_bounds().width,
                image_height == image.spec_bounds().height,
                stride == image_width * 4,
                len == image_height * stride,
                left + width <= image_width,
                top + height <= image_height,
                row < height,
                column <= width,
                window@.len() == (row * width + column) * 4,
                forall|r: int, c: int, ch: int|
                    (0 <= r < row && 0 <= c < width || r == row && 0 <= c < column) && 0 <= ch < 4
                        ==> #[trigger] window@[(r * width + c) * 4 + ch] == pixels@[(top + r)
                        * stride + (left + c) * 4 + bgra_source_channel(ch)],
            decreases width - column,
        {
            proof {
                lemma_mul_le(1, image_height as int, stride);
                lemma_cell_in_grid(
                    (top + row) as int,
                    ((left + column) * 4) as int,
                    stride,
                    image_height as int,
                );
                lemma_cell_in_grid(
                    (top + row) as int,
                    ((left + column) * 4 + 3) as int,
                    stride,
                    image_height as int,
                );
            }
            let start = (top + row) as usize * (image_width as usize * 4) + (left + column) as usize
                * 4;
            let ghost before = window@;
            window.push(pixels[start + 2]);
            window.push(pixels[start + 1]);
            window.push(pixels[start]);
            window.push(pixels[start + 3]);
            proof {
                assert forall|r: int, c: int, ch: int|
                    (0 <= r < row && 0 <= c < width || r == row && 0 <= c < column + 1) && 0 <= ch
                        < 4 implies #[trigger] window@[(r * width + c) * 4 + ch] == pixels@[(top
                    + r) * stride + (left + c) * 4 + bgra_source_channel(ch)] by {
                    if r < row {
                        lemma_cell_in_grid(r, c, width as int, row as int);
                        lemma_mul_le(row as int, row as int, width as int);
                        assert((r * width + c) * 4 + ch < before.len());
                        assert(window@[(r * width + c) * 4 + ch] == before[(r * width + c) * 4
                            + ch]);
                    } else if c < column {
                        assert(window@[(r * width + c) * 4 + ch] == before[(r * width + c) * 4
                            + ch]);
                    }
                }
            }
            column = column + 1;
        }
        proof {
            assert((row + 1) * width == row * width + width) by (nonlinear_arith);
        }
        row = row + 1;
    }
    proof {
        assert(row * width * 4 == width * height * 4) by (nonlinear_arith)
            requires
                row == height,
        ;
    }
    window
}

/// The matcher's verdict once its matches are known: no movement when no trusted group
/// votes, else the shift that the votes select.
pub fn shift_from_matches(groups: &Vec<Vec<KeyMatch>>, height: u32) -> (m: FrameMatch)
    requires
        forall|g: int, i: int|
            0 <= g < groups@.len() && 0 <= i < groups@[g]@.len() ==> coordinates_bounded(
                #[trigger] groups@[g]@[i],
            ),
    ensures
        ({
            let offsets = all_offsets(groups@.map_values(|g: Vec<KeyMatch>| g@));
            let displacements = all_displacements(groups@.map_values(|g: Vec<KeyMatch>| g@));
            &&& offsets.len() == 0 ==> m == (FrameMatch { shift: 0, raw_shift: 0, rejected: false })
            &&& offsets.len() > 0 ==> {
                &&& (forall|v: i32| !#[trigger] is_candidate(offsets, v)) ==> m.raw_shift
                    == NO_CANDIDATE_SHIFT
                &&& (exists|v: i32| #[trigger] is_candidate(offsets, v)) ==> is_chosen_shift(
                    offsets,
                    displacements,
                    m.raw_shift,
                )
                &&& m.rejected == (abs_int(m.raw_shift as int) > max_plausible_shift(height))
                &&& m.shift == (if m.rejected {
                    0
                } else {
                    m.raw_shift
                })
            }
        }),
{
    let (offsets, displacements) = collect_votes(groups);
    if offsets.len() == 0 {
        return no_movement();
    }
    select_shift(offsets.as_slice(), displacements.as_slice(), height)
}

/// One descriptor match as the feature matcher reports it: the Hamming distance of the two
/// descriptors and the rounded positions of the matched keypoints in the previous frame
/// (query) and in the next frame (train).
#[derive(Debug, Clone, Copy, PartialEq, Eq, Structural)]
pub struct KeyMatch {
    pub distance: u32,
    pub query_x: i32,
    pub query_y: i32,
    pub train_x: i32,
    pub train_y: i32,
}

/// Matches farther apart than this are not trusted.
pub const MAX_MATCH_DISTANCE: u32 = 20;

/// Keypoint coordinates stay far enough from the integer limits to be subtracted.
pub open spec fn coordinates_bounded(m: KeyMatch) -> bool {
    &&& -0x3fff_ffff <= m.query_x <= 0x3fff_ffff
    &&& -0x3fff_ffff <= m.query_y <= 0x3fff_ffff
    &&& -0x3fff_ffff <= m.train_x <= 0x3fff_ffff
    &&& -0x3fff_ffff <= m.train_y <= 0x3fff_ffff
}

pub open spec fn abs_int(v: int) -> int {
    if v < 0 {
        -v
    } else {
        v
    }
}

/// The vertical offset that a trusted, horizontally aligned match votes for (offsets below
/// two rows count as no movement), or nothing.
pub open spec fn match_offset(m: KeyMatch) -> Seq<i32> {
    if m.distance > MAX_MATCH_DISTANCE || abs_int(m.query_x - m.train_x) > 4 {
        seq![]
    } else {
        let offset = m.train_y - m.query_y;
        seq![if abs_int(offset) < 2 { 0i32 } else { offset as i32 }]
    }
}

/// The offsets that one group of nearest matches votes for: only a group whose best match
/// is clearly better than the second (distance ratio below 0.75) votes, with both matches.
pub open spec fn group_offsets(group: Seq<KeyMatch>) -> Seq<i32> {
    if group.len() >= 2 && 3 * group[1].distance > 4 * group[0].distance {
        match_offset(group[0]) + match_offset(group[1])
    } else {
        seq![]
    }
}

pub open spec fn all_offsets(groups: Seq<Seq<KeyMatch>>) -> Seq<i32>
    decreases groups.len(),
{
    if groups.len() == 0 {
        seq![]
    } else {
        all_offsets(groups.drop_last()) + group_offsets(groups.last())
    }
}

/// The displacement (previous x − next x, next y − previous y) of every trusted match of a group.
pub open spec fn group_displacements(group: Seq<KeyMatch>) -> Seq<(i32, i32)>
    decreases group.len(),
{
    if group.len() == 0 {
        seq![]
    } else {
        let m = group.last();
        group_displacements(group.drop_last()) + if m.distance > MAX_MATCH_DISTANCE {
            seq![]
        } else {
            seq![((m.query_x - m.train_x) as i32, (m.train_y - m.query_y) as i32)]
        }
    }
}

pub open spec fn all_displacements(groups: Seq<Seq<KeyMatch>>) -> Seq<(i32, i32)>
    decreases groups.len(),
{
    if groups.len() == 0 {
        seq![]
    } else {
        all_displacements(groups.drop_last()) + group_displacements(groups.last())
    }
}

fn push_match_offset(offsets: &mut Vec<i32>, m: KeyMatch)
    requires
        coordinates_bounded(m),
    ensures
        final(offsets)@ == old(offsets)@ + match_offset(m),
{
    let dx = m.query_x as i64 - m.train_x as i64;
    let adx = if dx < 0 {
        -dx
    } else {
        dx
    };
    if m.distance > MAX_MATCH_DISTANCE || adx > 4 {
        proof {
            assert(old(offsets)@ + match_offset(m) =~= old(offsets)@);
        }
        return;
    }
    let mut offset = (m.train_y as i64 - m.query_y as i64) as i32;
    if offset > -2 && offset < 2 {
        offset = 0;
    }
    offsets.push(offset);
    proof {
        assert(offsets@ =~= old(offsets)@ + match_offset(m));
    }
}

/// Collects, from the matcher's groups of nearest matches (best first), the offsets that
/// the trusted groups vote for and the displacements of all trusted matches.
pub fn collect_votes(groups: &Vec<Vec<KeyMatch>>) -> (r: (Vec<i32>, Vec<(i32, i32)>))
    requires
        forall|g: int, i: int|
            0 <= g < groups@.len() && 0 <= i < groups@[g]@.len() ==> coordinates_bounded(
                #[trigger] groups@[g]@[i],
            ),
    ensures
        r.0@ == all_offsets(groups@.map_values(|g: Vec<KeyMatch>| g@)),
        r.1@ == all_displacements(groups@.map_values(|g: Vec<KeyMatch>| g@)),
{
    let ghost views = groups@.map_values(|g: Vec<KeyMatch>| g@);
    let mut offsets: Vec<i32> = Vec::new();
    let mut displacements: Vec<(i32, i32)> = Vec::new();
    let mut index: usize = 0;
    while index < groups.len()
        invariant
            index <= groups@.len(),
            views == groups@.map_values(|g: Vec<KeyMatch>| g@),
            forall|g: int, i: int|
                0 <= g < groups@.len() && 0 <= i < groups@[g]@.len() ==> coordinates_bounded(
                    #[trigger] groups@[g]@[i],
                ),
            offsets@ == all_offsets(views.take(index as int)),
            displacements@ == all_displacements(views.take(index as int)),
        decreases groups@.len() - index,
    {
        let group = &groups[index];
        proof {
            assert(views.take(index + 1).drop_last() =~= views.take(index as int));
            assert(views.take(index + 1).last() == group@);
        }
        if group.len() >= 2 && group[1].distance as u64 * 3 > group[0].distance as u64 * 4 {
            proof {
                assert(coordinates_bounded(groups@[index as int]@[0]));
                assert(coordinates_bounded(groups@[index as int]@[1]));
            }
            let ghost before = offsets@;
            push_match_offset(&mut offsets, group[0]);
            push_match_offset(&mut offsets, group[1]);
            proof {
                assert(offsets@ =~= before + group_offsets(group@));
            }
        } else {
            proof {
                assert(offsets@ =~= offsets@ + group_offsets(group@));
            }
        }
        let ghost before = displacements@;
        let mut item: usize = 0;
        proof {
            assert(group@.take(0) =~= Seq::<KeyMatch>::empty());
            assert(before + group_displacements(group@.take(0)) =~= before);
        }
        while item < group.len()
            invariant
                item <= group@.len(),
                group == groups@[index as int],
                forall|i: int| 0 <= i < group@.len() ==> coordinates_bounded(#[trigger] group@[i]),
                displacements@ == before + group_displacements(group@.take(item as int)),
            decreases group@.len() - item,
        {
            let m = group[item];
            proof {
                assert(group@.take(item + 1).drop_last() =~= group@.take(item as int));
                assert(group@.take(item + 1).last() == m);
                assert(coordinates_bounded(m));
            }
            if m.distance <= MAX_MATCH_DISTANCE {
                let dx = (m.query_x as i64 - m.train_x as i64) as i32;
                let dy = (m.train_y as i64 - m.query_y as i64) as i32;
                displacements.push((dx, dy));
                proof {
                    assert(displacements@ =~= before + group_displacements(group@.take(item + 1)));
                }
            } else {
                proof {
                    assert(displacements@ =~= before + group_displacements(group@.take(item + 1)));
                }
            }
            item = item + 1;
        }
        proof {
            assert(group@.take(item as int) =~= group@);
        }
        index = index + 1;
    }
    proof {
        assert(views.take(index as int) =~= views);
    }
    (offsets, displacements)
}


/// How often `value` occurs in `s`.
pub open spec fn count_in(s: Seq<i32>, value: i32) -> nat
    decreases s.len(),
{
    if s.len() == 0 {
        0
    } else {
        count_in(s.drop_last(), value) + if s.last() == value {
            1nat
        } else {
            0nat
        }
    }
}

/// How many displacements agree with `offset`: horizontally within four pixels and
/// vertically within one row.
pub open spec fn votes_for(displacements: Seq<(i32, i32)>, offset: int) -> nat
    decreases displacements.len(),
{
    if displacements.len() == 0 {
        0
    } else {
        let d = displacements.last();
        votes_for(displacements.drop_last(), offset) + if abs_int(d.0 as int) <= 4 && abs_int(
            d.1 - offset,
        ) <= 1 {
            1nat
        } else {
            0nat
        }
    }
}

/// An offset is a candidate when it was voted for and its weighted votes, with the votes
/// for no movement, reach the number of votes.
pub open spec fn is_candidate(offsets: Seq<i32>, value: i32) -> bool {
    &&& count_in(offsets, value) > 0
    &&& count_in(offsets, 0) + count_in(offsets, value) * SUPPORT_WEIGHT >= offsets.len()
}

/// `value` is the chosen offset: a candidate with the most supporting displacements, and the
/// largest such candidate when several tie.
pub open spec fn is_chosen_shift(offsets: Seq<i32>, displacements: Seq<(i32, i32)>, value: i32) -> bool {
    &&& is_candidate(offsets, value)
    &&& forall|other: i32|
        #[trigger] is_candidate(offsets, other) ==> votes_for(displacements, other as int)
            <= votes_for(displacements, value as int) && (other > value ==> votes_for(
            displacements,
            other as int,
        ) < votes_for(displacements, value as int))
}

/// The raw offset when no offset is a candidate.
pub const NO_CANDIDATE_SHIFT: i32 = 999_999;

/// The largest plausible offset for a frame of `height` rows: three fifths of it.
pub open spec fn max_plausible_shift(height: u32) -> int {
    let tripled = if height * 3 > u32::MAX { u32::MAX as int } else { height * 3 };
    tripled / 5
}

proof fn lemma_count_le(s: Seq<i32>, value: i32)
    ensures
        count_in(s, value) <= s.len(),
    decreases s.len(),
{
    if s.len() > 0 {
        lemma_count_le(s.drop_last(), value);
    }
}

proof fn lemma_votes_le(s: Seq<(i32, i32)>, value: int)
    ensures
        votes_for(s, value) <= s.len(),
    decreases s.len(),
{
    if s.len() > 0 {
        lemma_votes_le(s.drop_last(), value);
    }
}

fn count_votes(displacements: &[(i32, i32)], candidate: i32) -> (votes: usize)
    ensures
        votes == votes_for(displacements@, candidate as int),
{
    let mut votes: usize = 0;
    let mut index: usize = 0;
    while index < displacements.len()
        invariant
            index <= displacements@.len(),
            votes == votes_for(displacements@.take(index as int), candidate as int),
        decreases displacements@.len() - index,
    {
        let (dx, dy) = displacements[index];
        proof {
            assert(displacements@.take(index + 1).drop_last() =~= displacements@.take(index as int));
            lemma_votes_le(displacements@.take(index as int), candidate as int);
        }
        let dy_off = dy as i64 - candidate as i64;
        if dx >= -4 && dx <= 4 && dy_off >= -1 && dy_off <= 1 {
            votes = votes + 1;
        }
        index = index + 1;
    }
    proof {
        assert(displacements@.take(index as int) =~= displacements@);
    }
    votes
}

/// Picks the scrolling offset from the offset votes: among the candidate offsets, the one
/// with the most supporting displacements (the largest on a tie), rejected when it exceeds
/// three fifths of the frame height.
pub fn select_shift(offsets: &[i32], displacements: &[(i32, i32)], height: u32) -> (m: FrameMatch)
    ensures
        (forall|v: i32| !#[trigger] is_candidate(offsets@, v)) ==> m.raw_shift == NO_CANDIDATE_SHIFT,
        (exists|v: i32| #[trigger] is_candidate(offsets@, v)) ==> is_chosen_shift(
            offsets@,
            displacements@,
            m.raw_shift,
        ),
        m.rejected == (abs_int(m.raw_shift as int) > max_plausible_shift(height)),
        m.shift == (if m.rejected { 0 } else { m.raw_shift }),
{
    let mut exact_counts: BTreeMap<i32, usize> = BTreeMap::new();
    let mut index: usize = 0;
    while index < offsets.len()
        invariant
            index <= offsets@.len(),
            forall|v: i32| #[trigger] exact_counts@.contains_key(v) <==> count_in(offsets@.take(index as int), v) > 0,
            forall|v: i32| #[trigger] exact_counts@.contains_key(v) ==> exact_counts@[v] == count_in(offsets@.take(index as int), v),
        decreases offsets@.len() - index,
    {
        let offset = offsets[index];
        proof {
            assert(offsets@.take(index + 1).drop_last() =~= offsets@.take(index as int));
            lemma_count_le(offsets@.take(index as int), offset);
        }
        let current = match exact_counts.get(&offset) {
            Some(count) => *count,
            None => 0,
        };
        exact_counts.insert(offset, current + 1);
        index = index + 1;
    }
    proof {
        assert(offsets@.take(index as int) =~= offsets@);
    }
    let zero_votes = match exact_counts.get(&0) {
        Some(count) => *count,
        None => 0,
    };
    let total = offsets.len();
    let mut shift: i32 = 0;
    let mut support: usize = 0;
    let mut has_candidate = false;
    let ghost all = vstd::std_specs::btree::spec_keys_iter(&exact_counts).remaining();
    let ghost mut processed: int = 0;
    for candidate in it: exact_counts.keys()
        invariant
            it.seq() == all,
            processed == it.index(),
            zero_votes == count_in(offsets@, 0),
            total == offsets@.len(),
            forall|v: i32| #[trigger] exact_counts@.contains_key(v) <==> count_in(offsets@, v) > 0,
            forall|v: i32| #[trigger] exact_counts@.contains_key(v) ==> exact_counts@[v] == count_in(offsets@, v),
            it.seq().unref().to_set() == exact_counts@.dom(),
            has_candidate <==> exists|j: int| 0 <= j < it.index() && #[trigger] is_candidate(offsets@, *it.seq()[j]),
            has_candidate ==> is_candidate(offsets@, shift),
            has_candidate ==> support == votes_for(displacements@, shift as int),
            !has_candidate ==> support == 0,
            forall|j: int|
                0 <= j < it.index() && #[trigger] is_candidate(offsets@, *it.seq()[j]) ==> votes_for(displacements@, *it.seq()[j] as int) <= support
                    && (*it.seq()[j] > shift ==> votes_for(displacements@, *it.seq()[j] as int) < support),
    {
        proof {
            assert(*candidate == *all[processed]);
            assert(all.unref()[processed] == *candidate);
            assert(all.unref().to_set().contains(*candidate));
            assert(exact_counts@.contains_key(*candidate));
        }
        let count = match exact_counts.get(candidate) {
            Some(count) => *count,
            None => 0,
        };
        let scaled = match count.checked_mul(SUPPORT_WEIGHT) {
            Some(value) => value,
            None => usize::MAX,
        };
        let weighted = zero_votes.saturating_add(scaled);
        if weighted >= total {
            let votes = count_votes(displacements, *candidate);
            if !has_candidate || votes > support || (votes == support && *candidate > shift) {
                shift = *candidate;
            }
            if votes > support {
                support = votes;
            }
            has_candidate = true;
        }
        proof {
            assert(is_candidate(offsets@, *candidate) == (weighted >= total));
            if weighted >= total {
                assert(is_candidate(offsets@, *it.seq()[processed]));
            }
            processed = processed + 1;
        }
    }
    proof {
        assert forall|v: i32| #[trigger] is_candidate(offsets@, v) implies exists|j: int| 0 <= j < processed && *all[j] == v by {
            assert(exact_counts@.dom().contains(v));
            assert(all.unref().to_set().contains(v));
            let j = choose|j: int| 0 <= j < all.len() && all.unref()[j] == v;
            assert(*all[j] == v);
        }
    }
    if !has_candidate {
        shift = NO_CANDIDATE_SHIFT;
    }
    let tripled = match height.checked_mul(3) {
        Some(value) => value,
        None => u32::MAX,
    };
    let limit = tripled / 5;
    let magnitude: u32 = if shift < 0 {
        (-(shift as i64)) as u32
    } else {
        shift as u32
    };
    let rejected = magnitude > limit;
    FrameMatch { shift: if rejected { 0 } else { shift }, raw_shift: shift, rejected }
}

} // verus!
