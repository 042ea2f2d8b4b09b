use std::collections::VecDeque;
use vstd::prelude::*;

use super::stitch::PreviewRegion;
use crate::arith::{lemma_mul_add, lemma_mul_le, lemma_mul_sub};

verus! {

/// A horizontal band of complete RGBA rows.
#[derive(Clone)]
struct Strip {
    height: u32,
    pixels: Vec<u8>,
}

/// The rows of all strips, top strip first.
spec fn strips_pixels(strips: Seq<Strip>) -> Seq<u8>
    decreases strips.len(),
{
    if strips.len() == 0 {
        Seq::empty()
    } else {
        strips_pixels(strips.drop_last()) + strips.last().pixels@
    }
}

/// The number of rows of all strips together.
spec fn strips_height(strips: Seq<Strip>) -> nat
    decreases strips.len(),
{
    if strips.len() == 0 {
        0
    } else {
        strips_height(strips.drop_last()) + strips.last().height as nat
    }
}

/// Each strip holds exactly its rows of `row_bytes` bytes.
spec fn strips_wf(strips: Seq<Strip>, row_bytes: nat) -> bool {
    forall|i: int|
        0 <= i < strips.len() ==> #[trigger] strips[i].pixels@.len() == strips[i].height
            * row_bytes
}

proof fn lemma_strips_len(strips: Seq<Strip>, row_bytes: nat)
    requires
        strips_wf(strips, row_bytes),
    ensures
        strips_pixels(strips).len() == strips_height(strips) * row_bytes,
    decreases strips.len(),
{
    if strips.len() > 0 {
        let rest = strips.drop_last();
        assert(strips_wf(rest, row_bytes)) by {
            assert forall|i: int| 0 <= i < rest.len() implies #[trigger] rest[i].pixels@.len()
                == rest[i].height * row_bytes by {
                assert(rest[i] == strips[i]);
            }
        }
        lemma_strips_len(rest, row_bytes);
        assert(strips.last() == strips[strips.len() - 1]);
        assert(strips[strips.len() - 1].pixels@.len() == strips[strips.len() - 1].height * row_bytes);
        lemma_mul_add(strips_height(rest) as int, strips.last().height as int, row_bytes as int);
        assert(strips_pixels(strips) == strips_pixels(rest) + strips.last().pixels@);
        assert(strips_height(strips) == strips_height(rest) + strips.last().height);
    } else {
        assert(strips_height(strips) * row_bytes == 0) by (nonlinear_arith)
            requires
                strips_height(strips) == 0,
        ;
    }
}

proof fn lemma_strips_push_front(first: Strip, strips: Seq<Strip>)
    ensures
        strips_pixels(seq![first] + strips) == first.pixels@ + strips_pixels(strips),
        strips_height(seq![first] + strips) == first.height + strips_height(strips),
    decreases strips.len(),
{
    let all = seq![first] + strips;
    if strips.len() == 0 {
        assert(all.drop_last() =~= Seq::<Strip>::empty());
        assert(strips_pixels(all.drop_last()) == Seq::<u8>::empty());
        assert(strips_height(all.drop_last()) == 0);
        assert(all.last() == first);
        assert(first.pixels@ + Seq::<u8>::empty() =~= first.pixels@);
        assert(Seq::<u8>::empty() + first.pixels@ =~= first.pixels@);
    } else {
        assert(all.drop_last() =~= seq![first] + strips.drop_last());
        lemma_strips_push_front(first, strips.drop_last());
        assert(all.last() == strips.last());
        assert(first.pixels@ + strips_pixels(strips.drop_last()) + strips.last().pixels@
            =~= first.pixels@ + (strips_pixels(strips.drop_last()) + strips.last().pixels@));
    }
}

proof fn lemma_strips_push_back(strips: Seq<Strip>, last: Strip)
    ensures
        strips_pixels(strips.push(last)) == strips_pixels(strips) + last.pixels@,
        strips_height(strips.push(last)) == strips_height(strips) + last.height,
{
    assert(strips.push(last).drop_last() =~= strips);
}

proof fn lemma_strips_wf_front(strips: Seq<Strip>, row_bytes: nat)
    requires
        strips.len() > 0,
        strips_wf(strips, row_bytes),
    ensures
        strips_wf(strips.subrange(1, strips.len() as int), row_bytes),
        strips == seq![strips[0]] + strips.subrange(1, strips.len() as int),
        strips[0].pixels@.len() == strips[0].height * row_bytes,
{
    let rest = strips.subrange(1, strips.len() as int);
    assert forall|i: int| 0 <= i < rest.len() implies #[trigger] rest[i].pixels@.len()
        == rest[i].height * row_bytes by {
        assert(rest[i] == strips[i + 1]);
    }
    assert(strips =~= seq![strips[0]] + rest);
}

proof fn lemma_strips_wf_back(strips: Seq<Strip>, row_bytes: nat)
    requires
        strips.len() > 0,
        strips_wf(strips, row_bytes),
    ensures
        strips_wf(strips.drop_last(), row_bytes),
        strips.last().pixels@.len() == strips.last().height * row_bytes,
        strips == strips.drop_last().push(strips.last()),
{
    let rest = strips.drop_last();
    assert forall|i: int| 0 <= i < rest.len() implies #[trigger] rest[i].pixels@.len()
        == rest[i].height * row_bytes by {
        assert(rest[i] == strips[i]);
    }
    assert(strips =~= rest.push(strips.last()));
}

proof fn lemma_strips_wf_push_front(first: Strip, strips: Seq<Strip>, row_bytes: nat)
    requires
        strips_wf(strips, row_bytes),
        first.pixels@.len() == first.height * row_bytes,
    ensures
        strips_wf(seq![first] + strips, row_bytes),
{
    let all = seq![first] + strips;
    assert forall|i: int| 0 <= i < all.len() implies #[trigger] all[i].pixels@.len()
        == all[i].height * row_bytes by {
        if i > 0 {
            assert(all[i] == strips[i - 1]);
        }
    }
}

proof fn lemma_strips_wf_push_back(strips: Seq<Strip>, last: Strip, row_bytes: nat)
    requires
        strips_wf(strips, row_bytes),
        last.pixels@.len() == last.height * row_bytes,
    ensures
        strips_wf(strips.push(last), row_bytes),
{
    let all = strips.push(last);
    assert forall|i: int| 0 <= i < all.len() implies #[trigger] all[i].pixels@.len()
        == all[i].height * row_bytes by {
        if i < strips.len() {
            assert(all[i] == strips[i]);
        }
    }
}

/// The smaller of two naturals.
pub open spec fn min_nat(a: nat, b: nat) -> nat {
    if a <= b {
        a
    } else {
        b
    }
}

/// `a - b`, or zero when `b` exceeds `a`.
pub open spec fn sub_nat(a: nat, b: nat) -> nat {
    if a >= b {
        (a - b) as nat
    } else {
        0
    }
}

/// Rows that an overlapping strip of `strip_height` rows adds when it grows the image by `grow`.
pub open spec fn grown_rows(strip_height: nat, grow: nat) -> nat {
    min_nat(grow, strip_height)
}

/// Rows of an image of `height` rows that an overlapping strip replaces: the strip rows that
/// do not grow the image, but never the whole image.
pub open spec fn overlap_rows(height: nat, strip_height: nat, grow: nat) -> nat {
    min_nat(sub_nat(strip_height, grown_rows(strip_height, grow)), sub_nat(height, 1))
}

proof fn lemma_skip_concat(a: Seq<u8>, b: Seq<u8>, k: int)
    requires
        0 <= k <= a.len(),
    ensures
        (a + b).subrange(k, (a + b).len() as int) == a.subrange(k, a.len() as int) + b,
{
    assert((a + b).subrange(k, (a + b).len() as int) =~= a.subrange(k, a.len() as int) + b);
}

proof fn lemma_take_concat(a: Seq<u8>, b: Seq<u8>, k: int)
    requires
        0 <= k <= b.len(),
    ensures
        (a + b).subrange(0, a.len() + k) == a + b.subrange(0, k),
{
    assert((a + b).subrange(0, a.len() + k) =~= a + b.subrange(0, k));
}

proof fn lemma_strips_prefix(strips: Seq<Strip>, m: int, row_bytes: nat)
    requires
        0 <= m <= strips.len(),
        strips_wf(strips, row_bytes),
    ensures
        strips_height(strips.take(m)) <= strips_height(strips),
        strips_pixels(strips.take(m)).len() <= strips_pixels(strips).len(),
        forall|i: int|
            0 <= i < strips_pixels(strips.take(m)).len() ==> #[trigger] strips_pixels(strips)[i]
                == strips_pixels(strips.take(m))[i],
    decreases strips.len(),
{
    if m == strips.len() {
        assert(strips.take(m) =~= strips);
    } else {
        let rest = strips.drop_last();
        lemma_strips_wf_back(strips, row_bytes);
        assert(rest.take(m) =~= strips.take(m));
        lemma_strips_prefix(rest, m, row_bytes);
        lemma_strips_push_back(rest, strips.last());
    }
}

proof fn lemma_strip_pixel(strips: Seq<Strip>, j: int, row_bytes: nat)
    requires
        0 <= j < strips.len(),
        strips_wf(strips, row_bytes),
    ensures
        strips_height(strips.take(j + 1)) == strips_height(strips.take(j)) + strips[j].height,
        strips_pixels(strips.take(j)).len() == strips_height(strips.take(j)) * row_bytes,
        strips_height(strips.take(j + 1)) <= strips_height(strips),
        forall|q: int|
            0 <= q < strips[j].pixels@.len() ==> strips_height(strips.take(j)) * row_bytes + q
                < strips_pixels(strips).len() && #[trigger] strips[j].pixels@[q] == strips_pixels(
                strips,
            )[strips_height(strips.take(j)) * row_bytes + q],
{
    let before = strips.take(j);
    let through = strips.take(j + 1);
    assert(through.drop_last() =~= before);
    assert(through.last() == strips[j]);
    assert(strips_wf(before, row_bytes)) by {
        assert forall|i: int| 0 <= i < before.len() implies #[trigger] before[i].pixels@.len()
            == before[i].height * row_bytes by {
            assert(before[i] == strips[i]);
        }
    }
    lemma_strips_len(before, row_bytes);
    lemma_strips_prefix(strips, j + 1, row_bytes);
    assert forall|q: int| 0 <= q < strips[j].pixels@.len() implies strips_height(strips.take(j))
        * row_bytes + q < strips_pixels(strips).len() && #[trigger] strips[j].pixels@[q]
        == strips_pixels(strips)[strips_height(strips.take(j)) * row_bytes + q] by {
        let i = strips_height(strips.take(j)) * row_bytes + q;
        assert(strips_pixels(through) == strips_pixels(before) + strips[j].pixels@);
        assert(strips_pixels(through)[i] == strips[j].pixels@[q]);
    }
}

proof fn crop_gap_lemma(start: int, height: int, rb: int, k: int, copy_bottom: int, strip_bottom: int, end: int)
    requires
        0 <= rb,
        0 <= start,
        0 <= height,
        0 <= k < height * rb,
        start <= copy_bottom,
        k >= (copy_bottom - start) * rb,
        copy_bottom == (if end <= strip_bottom { end } else { strip_bottom }),
        end == start + height || (end == u32::MAX && strip_bottom <= u32::MAX),
    ensures
        start * rb + k >= strip_bottom * rb,
{
    if copy_bottom == strip_bottom {
        lemma_mul_add(start, copy_bottom - start, rb);
    } else {
        assert(end == start + height);
        assert(copy_bottom - start == height);
        assert(false);
    }
}

proof fn crop_empty_lemma(start: int, height: int, rb: int, k: int, strip_top: int, strip_bottom: int, end: int)
    requires
        0 <= rb,
        0 <= start,
        0 <= height,
        0 <= k < height * rb,
        strip_top <= strip_bottom,
        strip_top * rb <= start * rb + k < strip_bottom * rb,
        end == start + height || (end == u32::MAX && strip_bottom <= u32::MAX),
    ensures
        (if start >= strip_top { start } else { strip_top }) < (if end <= strip_bottom {
            end
        } else {
            strip_bottom
        }),
{
    let copy_top = if start >= strip_top { start } else { strip_top };
    let copy_bottom = if end <= strip_bottom { end } else { strip_bottom };
    lemma_mul_add(start, height, rb);
    assert(start * rb + k < (start + height) * rb);
    assert(copy_top * rb <= start * rb + k);
    assert(start * rb + k < copy_bottom * rb);
    assert(copy_top < copy_bottom) by (nonlinear_arith)
        requires
            copy_top * rb < copy_bottom * rb,
            0 <= rb,
    ;
}

proof fn crop_done_lemma(start: int, height: int, rb: int, k: int, strip_top: int, image_height: int, end: int)
    requires
        0 <= rb,
        0 <= start,
        0 <= height,
        0 <= k < height * rb,
        end <= strip_top <= image_height <= u32::MAX,
        end == (if start + height > u32::MAX { u32::MAX as int } else { start + height }),
    ensures
        (start * rb + k < strip_top * rb) == (start * rb + k < image_height * rb),
{
    if start + height > u32::MAX {
        assert(strip_top == image_height);
    } else {
        lemma_mul_add(start, height, rb);
        lemma_mul_le(end, strip_top, rb);
        lemma_mul_le(strip_top, image_height, rb);
    }
}

/// Row `start` onwards, `height` rows of `row_bytes` bytes; bytes below the image are zero.
pub open spec fn crop_of(pixels: Seq<u8>, row_bytes: nat, start: nat, height: nat) -> Seq<u8> {
    Seq::new(
        height * row_bytes,
        |k: int|
            if start * row_bytes + k < pixels.len() {
                pixels[start * row_bytes + k]
            } else {
                0u8
            },
    )
}

/// A tall RGBA image kept as a queue of row strips, so that rows can be added
/// at either end without copying what is already there.
#[derive(Clone)]
pub struct TiledImage {
    width: u32,
    height: u32,
    strips: VecDeque<Strip>,
}

impl View for TiledImage {
    type V = Seq<u8>;

    /// All rows of the image, top row first.
    closed spec fn view(&self) -> Seq<u8> {
        strips_pixels(self.strips@)
    }
}

impl TiledImage {
    pub closed spec fn spec_width(&self) -> nat {
        self.width as nat
    }

    pub closed spec fn spec_height(&self) -> nat {
        self.height as nat
    }

    /// Bytes in one row of the image.
    pub open spec fn spec_row_bytes(&self) -> nat {
        self.spec_width() * 4
    }

    /// The strips hold exactly `height` complete rows.
    pub closed spec fn wf(&self) -> bool {
        &&& self.width * 4 <= usize::MAX
        &&& strips_wf(self.strips@, (self.width * 4) as nat)
        &&& strips_height(self.strips@) == self.height
    }

    pub proof fn lemma_wf_len(&self)
        requires
            self.wf(),
        ensures
            self@.len() == self.spec_height() * self.spec_row_bytes(),
            self.spec_row_bytes() <= usize::MAX,
    {
        lemma_strips_len(self.strips@, (self.width * 4) as nat);
    }

    pub fn new(width: u32, height: u32, pixels: Vec<u8>) -> (image: TiledImage)
        requires
            width * 4 <= usize::MAX,
            pixels@.len() == height * (width * 4),
        ensures
            image.wf(),
            image.spec_width() == width,
            image.spec_height() == height,
            image@ == pixels@,
    {
        let ghost pix = pixels@;
        let mut strips: VecDeque<Strip> = VecDeque::new();
        let strip = Strip { height, pixels };
        strips.push_back(strip);
        proof {
            lemma_strips_push_back(Seq::<Strip>::empty(), strip);
            assert(Seq::<Strip>::empty().push(strip) =~= strips@);
            assert(strips_pixels(Seq::<Strip>::empty()) + pix =~= pix);
            assert(strips_wf(strips@, (width * 4) as nat)) by {
                assert forall|i: int| 0 <= i < strips@.len() implies #[trigger] strips@[i].pixels@.len()
                    == strips@[i].height * (width * 4) by {
                    assert(strips@[i] == strip);
                }
            }
        }
        TiledImage { width, height, strips }
    }

    pub fn width(&self) -> (w: u32)
        ensures
            w == self.spec_width(),
    {
        self.width
    }

    pub fn height(&self) -> (h: u32)
        ensures
            h == self.spec_height(),
    {
        self.height
    }

    fn row_bytes(&self) -> (r: usize)
        requires
            self.width * 4 <= usize::MAX,
        ensures
            r == self.spec_row_bytes(),
    {
        self.width as usize * 4
    }

    /// Drops up to `rows` rows from the top, always keeping at least one row.
    fn trim_top(&mut self, rows: u32)
        requires
            old(self).wf(),
        ensures
            final(self).wf(),
            final(self).spec_width() == old(self).spec_width(),
            final(self).spec_height() == old(self).spec_height() - min_nat(
                rows as nat,
                sub_nat(old(self).spec_height(), 1),
            ),
            final(self)@ == old(self)@.subrange(
                (min_nat(rows as nat, sub_nat(old(self).spec_height(), 1)) * old(self).spec_row_bytes()) as int,
                old(self)@.len() as int,
            ),
    {
        proof {
            self.lemma_wf_len();
        }
        let ghost old_pixels = self@;
        let ghost rb = self.spec_row_bytes();
        let limit = if self.height > 0 {
            self.height - 1
        } else {
            0
        };
        let mut rows = if rows < limit {
            rows
        } else {
            limit
        };
        let ghost total = rows as nat;
        let ghost old_height = self.height;
        let ghost old_width = self.width;
        self.height = self.height - rows;
        let row_bytes = self.row_bytes();
        proof {
            assert(old_pixels.subrange(0, old_pixels.len() as int) =~= old_pixels);
        }
        while rows > 0
            invariant
                self.width * 4 <= usize::MAX,
                row_bytes == rb,
                rb == self.spec_row_bytes(),
                rows <= total,
                self.height + total == old_height,
                self.width == old_width,
                self.height >= 1 || rows == 0,
                strips_wf(self.strips@, rb),
                strips_height(self.strips@) == self.height + rows,
                old_pixels.len() == (self.height + total) * rb,
                strips_pixels(self.strips@) == old_pixels.subrange(
                    (total - rows) * rb,
                    old_pixels.len() as int,
                ),
            decreases rows, self.strips@.len(),
        {
            let ghost before = self.strips@;
            proof {
                if before.len() == 0 {
                    assert(strips_height(before) == 0);
                }
                lemma_strips_wf_front(before, rb);
                lemma_strips_push_front(before[0], before.subrange(1, before.len() as int));
                lemma_mul_le(total - rows, total as int, rb as int);
            }
            let popped = self.strips.pop_front();
            match popped {
                Some(mut strip) => {
                    let ghost rest = self.strips@;
                    let strip_len = strip.pixels.len();
                    proof {
                        lemma_mul_le(total as int, (self.height + total) as int, rb as int);
                    }
                    if rows < strip.height {
                        proof {
                            lemma_mul_le(rows as int, strip.height as int, rb as int);
                            lemma_skip_concat(strip.pixels@, strips_pixels(rest), rows * rb);
                            lemma_mul_add((total - rows) as int, rows as int, rb as int);
                            lemma_mul_sub(strip.height as int, rows as int, rb as int);
                        }
                        let ghost old_strip = strip.pixels@;
                        let kept = strip.pixels.split_off(rows as usize * row_bytes);
                        strip.pixels = kept;
                        strip.height = strip.height - rows;
                        self.strips.push_front(strip);
                        proof {
                            lemma_strips_push_front(strip, rest);
                            lemma_strips_wf_push_front(strip, rest, rb);
                            assert(old_pixels.subrange((total - rows) * rb, old_pixels.len() as int).subrange(
                                rows * rb,
                                old_pixels.len() - (total - rows) * rb,
                            ) =~= old_pixels.subrange((total * rb) as int, old_pixels.len() as int));
                        }
                        rows = 0;
                    } else {
                        proof {
                            lemma_skip_concat(strip.pixels@, strips_pixels(rest), strip.pixels@.len() as int);
                            lemma_mul_add((total - rows) as int, strip.height as int, rb as int);
                            assert(strip.pixels@.subrange(strip.pixels@.len() as int, strip.pixels@.len() as int)
                                =~= Seq::<u8>::empty());
                            assert(Seq::<u8>::empty() + strips_pixels(rest) =~= strips_pixels(rest));
                            assert(old_pixels.subrange((total - rows) * rb, old_pixels.len() as int).subrange(
                                strip.height * rb,
                                old_pixels.len() - (total - rows) * rb,
                            ) =~= old_pixels.subrange((total - (rows - strip.height)) * rb, old_pixels.len() as int));
                        }
                        rows = rows - strip.height;
                    }
                },
                None => {
                    rows = 0;
                },
            }
        }
    }

    /// Drops up to `rows` rows from the bottom, always keeping at least one row.
    fn trim_bottom(&mut self, rows: u32)
        requires
            old(self).wf(),
        ensures
            final(self).wf(),
            final(self).spec_width() == old(self).spec_width(),
            final(self).spec_height() == old(self).spec_height() - min_nat(
                rows as nat,
                sub_nat(old(self).spec_height(), 1),
            ),
            final(self)@ == old(self)@.subrange(
                0,
                old(self)@.len() - min_nat(rows as nat, sub_nat(old(self).spec_height(), 1))
                    * old(self).spec_row_bytes(),
            ),
    {
        proof {
            self.lemma_wf_len();
        }
        let ghost old_pixels = self@;
        let ghost rb = self.spec_row_bytes();
        let limit = if self.height > 0 {
            self.height - 1
        } else {
            0
        };
        let mut rows = if rows < limit {
            rows
        } else {
            limit
        };
        let ghost total = rows as nat;
        let ghost old_height = self.height;
        let ghost old_width = self.width;
        self.height = self.height - rows;
        let row_bytes = self.row_bytes();
        proof {
            assert(old_pixels.subrange(0, old_pixels.len() as int) =~= old_pixels);
        }
        while rows > 0
            invariant
                self.width * 4 <= usize::MAX,
                row_bytes == rb,
                rb == self.spec_row_bytes(),
                rows <= total,
                self.height + total == old_height,
                self.width == old_width,
                self.height >= 1 || rows == 0,
                strips_wf(self.strips@, rb),
                strips_height(self.strips@) == self.height + rows,
                old_pixels.len() == (self.height + total) * rb,
                strips_pixels(self.strips@) == old_pixels.subrange(
                    0,
                    old_pixels.len() - (total - rows) * rb,
                ),
            decreases rows, self.strips@.len(),
        {
            let ghost before = self.strips@;
            proof {
                if before.len() == 0 {
                    assert(strips_height(before) == 0);
                }
                lemma_strips_wf_back(before, rb);
                lemma_strips_push_back(before.drop_last(), before.last());
                lemma_mul_le(total - rows, total as int, rb as int);
            }
            let popped = self.strips.pop_back();
            match popped {
                Some(mut strip) => {
                    let ghost rest = self.strips@;
                    let strip_len = strip.pixels.len();
                    proof {
                        lemma_mul_le(total as int, (self.height + total) as int, rb as int);
                        assert(rest =~= before.drop_last());
                        lemma_strips_len(rest, rb);
                    }
                    if rows < strip.height {
                        proof {
                            lemma_mul_le(rows as int, strip.height as int, rb as int);
                            lemma_mul_sub(strip.height as int, rows as int, rb as int);
                            lemma_take_concat(strips_pixels(rest), strip.pixels@, (strip.height - rows) * rb);
                            lemma_mul_add((total - rows) as int, rows as int, rb as int);
                            lemma_mul_le(0, rows as int, rb as int);
                            assert(strips_pixels(before) == strips_pixels(rest) + strip.pixels@);
                        }
                        let ghost old_strip_pixels = strip.pixels@;
                        strip.height = strip.height - rows;
                        strip.pixels.truncate(strip.height as usize * row_bytes);
                        self.strips.push_back(strip);
                        proof {
                            assert(strip.pixels@ == old_strip_pixels.subrange(0, (strip.height * rb) as int));
                            lemma_strips_push_back(rest, strip);
                            lemma_strips_wf_push_back(rest, strip, rb);
                            assert(old_pixels.subrange(0, old_pixels.len() - (total - rows) * rb).subrange(
                                0,
                                old_pixels.len() - (total - rows) * rb - rows * rb,
                            ) =~= old_pixels.subrange(0, old_pixels.len() - total * rb));
                        }
                        rows = 0;
                    } else {
                        proof {
                            assert(strips_pixels(before) == strips_pixels(rest) + strip.pixels@);
                            assert(strip.pixels@.len() == strip.height * rb);
                            lemma_take_concat(strips_pixels(rest), strip.pixels@, 0);
                            lemma_mul_add((total - rows) as int, strip.height as int, rb as int);
                            lemma_mul_le(total - rows + strip.height, total as int, rb as int);
                            assert(strip.pixels@.subrange(0, 0) =~= Seq::<u8>::empty());
                            assert(strips_pixels(rest) + Seq::<u8>::empty() =~= strips_pixels(rest));
                            assert(old_pixels.subrange(0, old_pixels.len() - (total - rows) * rb).subrange(
                                0,
                                old_pixels.len() - (total - rows) * rb - strip.height * rb,
                            ) =~= old_pixels.subrange(0, old_pixels.len() - (total - (rows - strip.height)) * rb));
                        }
                        rows = rows - strip.height;
                    }
                },
                None => {
                    rows = 0;
                },
            }
        }
    }

    /// Adds `strip` below the image so that the image grows by `grow` rows (at most the
    /// strip's height); the strip's remaining top rows replace the image's bottom rows.
    pub fn append_overlapping(&mut self, strip: Vec<u8>, strip_height: u32, grow: u32) -> (region:
        PreviewRegion)
        requires
            old(self).wf(),
            strip@.len() == strip_height * old(self).spec_row_bytes(),
            old(self).spec_height() + grown_rows(strip_height as nat, grow as nat) <= u32::MAX,
        ensures
            final(self).wf(),
            final(self).spec_width() == old(self).spec_width(),
            final(self).spec_height() == old(self).spec_height() + grown_rows(
                strip_height as nat,
                grow as nat,
            ),
            ({
                let rb = old(self).spec_row_bytes();
                let ov = overlap_rows(old(self).spec_height(), strip_height as nat, grow as nat);
                let drawn = grown_rows(strip_height as nat, grow as nat) + ov;
                &&& final(self)@ == old(self)@.subrange(0, (sub_nat(old(self).spec_height(), ov) * rb) as int)
                    + strip@.subrange(((strip_height - drawn) * rb) as int, strip@.len() as int)
                &&& region.top == old(self).spec_height() - ov
                &&& region.height == drawn
            }),
    {
        proof {
            self.lemma_wf_len();
        }
        let ghost old_pixels = self@;
        let ghost rb = self.spec_row_bytes();
        let ghost old_strip = strip@;
        let grow = if grow < strip_height {
            grow
        } else {
            strip_height
        };
        let old_height = self.height;
        let new_height = old_height + grow;
        let spare = strip_height - grow;
        let limit = if self.height > 0 {
            self.height - 1
        } else {
            0
        };
        let overlap = if spare < limit {
            spare
        } else {
            limit
        };
        self.trim_bottom(overlap);
        proof {
            lemma_mul_sub(old_height as int, overlap as int, rb as int);
        }
        let row_bytes = self.row_bytes();
        let drawn = new_height - self.height;
        let mut strip = strip;
        let strip_len = strip.len();
        proof {
            lemma_mul_le(drawn as int, strip_height as int, rb as int);
            lemma_mul_le(0, drawn as int, rb as int);
        }
        if drawn < strip_height {
            let drop_rows = strip_height - drawn;
            proof {
                lemma_mul_le(drop_rows as int, strip_height as int, rb as int);
            }
            let tail = strip.split_off(drop_rows as usize * row_bytes);
            strip = tail;
            proof {
                lemma_mul_sub(strip_height as int, drop_rows as int, rb as int);
            }
        } else {
            proof {
                assert(old_strip.subrange(0, old_strip.len() as int) =~= old_strip);
            }
        }
        self.height = self.height + drawn;
        let ghost rest = self.strips@;
        let piece = Strip { height: drawn, pixels: strip };
        self.strips.push_back(piece);
        proof {
            lemma_strips_push_back(rest, piece);
            lemma_strips_wf_push_back(rest, piece, rb);
        }
        PreviewRegion { top: new_height - drawn, height: drawn }
    }

    /// Adds `strip` above the image so that the image grows by `grow` rows (at most the
    /// strip's height); the strip's remaining bottom rows replace the image's top rows.
    pub fn prepend_overlapping(&mut self, strip: Vec<u8>, strip_height: u32, grow: u32) -> (region:
        PreviewRegion)
        requires
            old(self).wf(),
            strip@.len() == strip_height * old(self).spec_row_bytes(),
            old(self).spec_height() + grown_rows(strip_height as nat, grow as nat) <= u32::MAX,
        ensures
            final(self).wf(),
            final(self).spec_width() == old(self).spec_width(),
            final(self).spec_height() == old(self).spec_height() + grown_rows(
                strip_height as nat,
                grow as nat,
            ),
            ({
                let rb = old(self).spec_row_bytes();
                let ov = overlap_rows(old(self).spec_height(), strip_height as nat, grow as nat);
                let drawn = grown_rows(strip_height as nat, grow as nat) + ov;
                &&& final(self)@ == strip@.subrange(0, (drawn * rb) as int) + old(self)@.subrange(
                    (ov * rb) as int,
                    old(self)@.len() as int,
                )
                &&& region.top == 0
                &&& region.height == final(self).spec_height()
            }),
    {
        proof {
            self.lemma_wf_len();
        }
        let ghost old_pixels = self@;
        let ghost rb = self.spec_row_bytes();
        let ghost old_strip = strip@;
        let grow = if grow < strip_height {
            grow
        } else {
            strip_height
        };
        let new_height = self.height + grow;
        let spare = strip_height - grow;
        let limit = if self.height > 0 {
            self.height - 1
        } else {
            0
        };
        let overlap = if spare < limit {
            spare
        } else {
            limit
        };
        self.trim_top(overlap);
        let row_bytes = self.row_bytes();
        let drawn = new_height - self.height;
        let mut strip = strip;
        let strip_len = strip.len();
        proof {
            lemma_mul_le(drawn as int, strip_height as int, rb as int);
        }
        if drawn < strip_height {
            strip.truncate(drawn as usize * row_bytes);
        } else {
            proof {
                assert(old_strip.subrange(0, old_strip.len() as int) =~= old_strip);
            }
        }
        self.height = self.height + drawn;
        let ghost rest = self.strips@;
        let piece = Strip { height: drawn, pixels: strip };
        self.strips.push_front(piece);
        proof {
            lemma_strips_push_front(piece, rest);
            lemma_strips_wf_push_front(piece, rest, rb);
        }
        PreviewRegion { top: 0, height: new_height }
    }

    /// Copies `height` rows starting at row `start`; rows below the image stay zero.
    pub fn crop_rows(&self, start: u32, height: u32) -> (output: Vec<u8>)
        requires
            self.wf(),
            height * self.spec_row_bytes() <= usize::MAX,
        ensures
            output@ == crop_of(self@, self.spec_row_bytes(), start as nat, height as nat),
    {
        proof {
            self.lemma_wf_len();
        }
        let ghost pixels = self@;
        let ghost rb = self.spec_row_bytes();
        let ghost all = self.strips@;
        let row_bytes = self.row_bytes();
        let total: usize = height as usize * row_bytes;
        let mut output: Vec<u8> = Vec::new();
        while output.len() < total
            invariant
                output@.len() <= total,
                forall|k: int| 0 <= k < output@.len() ==> #[trigger] output@[k] == 0u8,
            decreases total - output@.len(),
        {
            output.push(0u8);
        }
        let end = start.saturating_add(height);
        let mut strip_top: u32 = 0;
        let mut index: usize = 0;
        proof {
            assert(all.take(0) =~= Seq::<Strip>::empty());
        }
        while index < self.strips.len() && strip_top < end
            invariant
                self.wf(),
                self@ == pixels,
                self.strips@ == all,
                row_bytes == rb,
                rb == self.spec_row_bytes(),
                pixels.len() == self.spec_height() * rb,
                total == height * rb,
                end == (if start + height > u32::MAX { u32::MAX as int } else { start + height }),
                index <= all.len(),
                strip_top == strips_height(all.take(index as int)),
                strip_top <= self.spec_height(),
                output@.len() == total,
                forall|k: int|
                    0 <= k < total ==> #[trigger] output@[k] == (if start * rb + k < strip_top * rb {
                        pixels[start * rb + k]
                    } else {
                        0u8
                    }),
            decreases all.len() - index,
        {
            let strip = &self.strips[index];
            proof {
                lemma_strip_pixel(all, index as int, rb);
                assert(strip == all[index as int]);
                assert(all.take(index as int + 1).drop_last() =~= all.take(index as int));
            }
            let strip_len = strip.pixels.len();
            let strip_bottom = strip_top + strip.height;
            let copy_top = if start >= strip_top {
                start
            } else {
                strip_top
            };
            let copy_bottom = if end <= strip_bottom {
                end
            } else {
                strip_bottom
            };
            let ghost before = output@;
            if copy_top < copy_bottom {
                proof {
                    lemma_mul_le((copy_bottom - start) as int, height as int, rb as int);
                    lemma_mul_le((copy_bottom - strip_top) as int, strip.height as int, rb as int);
                    lemma_mul_add((copy_top - start) as int, (copy_bottom - copy_top) as int, rb as int);
                    lemma_mul_add((copy_top - strip_top) as int, (copy_bottom - copy_top) as int, rb as int);
                    lemma_mul_add(start as int, (copy_top - start) as int, rb as int);
                    lemma_mul_add(strip_top as int, (copy_top - strip_top) as int, rb as int);
                    lemma_mul_add(start as int, (copy_bottom - start) as int, rb as int);
                    lemma_mul_add(strip_top as int, (copy_bottom - strip_top) as int, rb as int);
                }
                let source = (copy_top - strip_top) as usize * row_bytes;
                let destination = (copy_top - start) as usize * row_bytes;
                let bytes = (copy_bottom - copy_top) as usize * row_bytes;
                let mut byte: usize = 0;
                while byte < bytes
                    invariant
                        byte <= bytes,
                        destination + bytes <= total,
                        source + bytes <= strip.pixels@.len(),
                        strip_len == strip.pixels@.len(),
                        output@.len() == total,
                        forall|k: int|
                            0 <= k < total && !(destination <= k < destination + byte)
                                ==> #[trigger] output@[k] == before[k],
                        forall|k: int|
                            destination <= k < destination + byte ==> #[trigger] output@[k]
                                == strip.pixels@[source + k - destination],
                    decreases bytes - byte,
                {
                    output.set(destination + byte, strip.pixels[source + byte]);
                    byte = byte + 1;
                }
                proof {
                    assert forall|k: int| 0 <= k < total implies #[trigger] output@[k] == (if start
                        * rb + k < strip_bottom * rb {
                        pixels[start * rb + k]
                    } else {
                        0u8
                    }) by {
                        if destination <= k < destination + bytes {
                            let q = source + k - destination;
                            assert(strip.pixels@[q] == pixels[strip_top * rb + q]);
                            assert(strip_top * rb + q == start * rb + k);
                            lemma_mul_le(strip_top as int, copy_top as int, rb as int);
                            lemma_mul_le(copy_bottom as int, strip_bottom as int, rb as int);
                        } else if k < destination {
                            lemma_mul_le(strip_top as int, strip_bottom as int, rb as int);
                            assert(copy_top != start);
                        } else {
                            crop_gap_lemma(start as int, height as int, rb as int, k, copy_bottom as int,
                                strip_bottom as int, end as int);
                        }
                    }
                }
            } else {
                proof {
                    lemma_mul_le(strip_top as int, strip_bottom as int, rb as int);
                    assert forall|k: int| 0 <= k < total implies #[trigger] output@[k] == (if start
                        * rb + k < strip_bottom * rb {
                        pixels[start * rb + k]
                    } else {
                        0u8
                    }) by {
                        if start * rb + k >= strip_top * rb && start * rb + k < strip_bottom * rb {
                            crop_empty_lemma(start as int, height as int, rb as int, k,
                                strip_top as int, strip_bottom as int, end as int);
                        }
                    }
                }
            }
            strip_top = strip_bottom;
            index = index + 1;
        }
        proof {
            if index == all.len() {
                assert(all.take(index as int) =~= all);
            }
            assert forall|k: int| 0 <= k < total implies #[trigger] output@[k] == crop_of(
                pixels,
                rb,
                start as nat,
                height as nat,
            )[k] by {
                if index == all.len() {
                } else {
                    crop_done_lemma(start as int, height as int, rb as int, k, strip_top as int,
                        self.spec_height() as int, end as int);
                }
            }
            assert(output@ =~= crop_of(pixels, rb, start as nat, height as nat));
        }
        output
    }

    /// Consumes the image and returns all of its rows as one buffer.
    pub fn into_pixels(self) -> (pixels: Vec<u8>)
        requires
            self.wf(),
        ensures
            pixels@ == self@,
    {
        let mut pixels: Vec<u8> = Vec::new();
        let mut strips = self.strips;
        let ghost all = strips@;
        let mut index: usize = 0;
        while index < strips.len()
            invariant
                strips@ == all,
                index <= all.len(),
                pixels@ == strips_pixels(all.take(index as int)),
            decreases all.len() - index,
        {
            let strip = &strips[index];
            let mut byte: usize = 0;
            let ghost before = pixels@;
            while byte < strip.pixels.len()
                invariant
                    byte <= strip.pixels@.len(),
                    pixels@ == before + strip.pixels@.take(byte as int),
                decreases strip.pixels@.len() - byte,
            {
                pixels.push(strip.pixels[byte]);
                proof {
                    assert(strip.pixels@.take(byte as int + 1) =~= strip.pixels@.take(byte as int).push(
                        strip.pixels@[byte as int],
                    ));
                }
                byte = byte + 1;
            }
            proof {
                assert(strip.pixels@.take(byte as int) =~= strip.pixels@);
                assert(all.take(index as int + 1).drop_last() =~= all.take(index as int));
                assert(all.take(index as int + 1).last() == all[index as int]);
            }
            index = index + 1;
        }
        proof {
            assert(all.take(index as int) =~= all);
        }
        pixels
    }
}

} // verus!
