use vstd::prelude::*;

use crate::arith::lemma_cell_in_grid;

verus! {

/// The length of the leading part of a buffer of `len` bytes that holds whole four-byte
/// pixels; bytes after it belong to no pixel.
pub open spec fn whole_pixel_bytes(len: int) -> int {
    len - len % 4
}

/// Byte `i` of `source` with the first and third channel of its pixel exchanged: the
/// conversion between RGBA and BGRA byte order.
pub open spec fn red_blue_swapped(source: Seq<u8>, i: int) -> u8 {
    if i % 4 == 0 {
        source[i + 2]
    } else if i % 4 == 2 {
        source[i - 2]
    } else {
        source[i]
    }
}

/// Byte `i` of an opaque RGBA copy of the BGRA bytes `source`.
pub open spec fn opaque_rgba_byte(source: Seq<u8>, i: int) -> u8 {
    if i % 4 == 3 {
        255u8
    } else {
        red_blue_swapped(source, i)
    }
}

/// Converts GDI's BGRA pixels to opaque RGBA in place; bytes after the last whole pixel
/// stay as they are.
pub fn bgra_to_rgba(pixels: &mut [u8])
    ensures
        final(pixels)@.len() == old(pixels)@.len(),
        forall|i: int|
            0 <= i < whole_pixel_bytes(old(pixels)@.len() as int) ==> #[trigger] final(pixels)@[i]
                == opaque_rgba_byte(old(pixels)@, i),
        forall|i: int|
            whole_pixel_bytes(old(pixels)@.len() as int) <= i < old(pixels)@.len() ==> #[trigger] final(pixels)@[i] == old(pixels)@[i],
{
    let len = pixels.len();
    let whole = len - len % 4;
    let mut i: usize = 0;
    while i < whole
        invariant
            len == old(pixels)@.len(),
            whole == whole_pixel_bytes(len as int),
            whole % 4 == 0,
            pixels@.len() == len,
            i % 4 == 0,
            i <= whole,
            forall|j: int| 0 <= j < i ==> #[trigger] pixels@[j] == opaque_rgba_byte(old(pixels)@, j),
            forall|j: int| i <= j < len ==> #[trigger] pixels@[j] == old(pixels)@[j],
        decreases whole - i,
    {
        let ghost before = pixels@;
        let blue = pixels[i];
        let red = pixels[i + 2];
        pixels[i] = red;
        pixels[i + 2] = blue;
        pixels[i + 3] = 255;
        proof {
            assert((i + 1) % 4 == 1 && (i + 2) % 4 == 2 && (i + 3) % 4 == 3);
            assert forall|j: int| 0 <= j < i + 4 implies #[trigger] pixels@[j] == opaque_rgba_byte(
                old(pixels)@,
                j,
            ) by {
                if j >= i {
                    assert(before[j] == old(pixels)@[j]);
                }
            }
        }
        i = i + 4;
    }
}

/// Writes the RGBA pixels of `source` into `destination` in the BGRA order of a DIB;
/// bytes after the last whole pixel of `destination` stay as they are.
pub fn write_bgra(destination: &mut [u8], source: &[u8])
    requires
        old(destination)@.len() == source@.len(),
    ensures
        final(destination)@.len() == source@.len(),
        forall|i: int|
            0 <= i < whole_pixel_bytes(source@.len() as int) ==> #[trigger] final(destination)@[i]
                == red_blue_swapped(source@, i),
        forall|i: int|
            whole_pixel_bytes(source@.len() as int) <= i < source@.len() ==> #[trigger] final(destination)@[i] == old(destination)@[i],
{
    let len = source.len();
    let whole = len - len % 4;
    let mut i: usize = 0;
    while i < whole
        invariant
            len == source@.len(),
            len == old(destination)@.len(),
            whole == whole_pixel_bytes(len as int),
            whole % 4 == 0,
            destination@.len() == len,
            i % 4 == 0,
            i <= whole,
            forall|j: int| 0 <= j < i ==> #[trigger] destination@[j] == red_blue_swapped(source@, j),
            forall|j: int| i <= j < len ==> #[trigger] destination@[j] == old(destination)@[j],
        decreases whole - i,
    {
        destination[i] = source[i + 2];
        destination[i + 1] = source[i + 1];
        destination[i + 2] = source[i];
        destination[i + 3] = source[i + 3];
        proof {
            assert((i + 1) % 4 == 1 && (i + 2) % 4 == 2 && (i + 3) % 4 == 3);
        }
        i = i + 4;
    }
}

/// Byte `i` of `source` after its first `height` rows of `row_bytes` bytes were put in
/// reverse order; bytes after those rows keep their place.
pub open spec fn flipped_byte(source: Seq<u8>, row_bytes: int, height: int, i: int) -> u8 {
    if i < height * row_bytes {
        source[(height - 1 - i / row_bytes) * row_bytes + i % row_bytes]
    } else {
        source[i]
    }
}

/// What the first rows of `source` hold in the middle of a flip: rows above `top` and
/// below `height - 1 - top` are exchanged, and so are the first `column` bytes of the two
/// rows `top` and `height - 1 - top`.
spec fn partly_flipped_byte(
    source: Seq<u8>,
    row_bytes: int,
    height: int,
    top: int,
    column: int,
    i: int,
) -> u8 {
    let row = i / row_bytes;
    let done = row < top || row > height - 1 - top || ((row == top || row == height - 1 - top)
        && i % row_bytes < column);
    if i < height * row_bytes && done {
        source[(height - 1 - row) * row_bytes + i % row_bytes]
    } else {
        source[i]
    }
}

proof fn lemma_cell_div_mod(row: int, column: int, row_bytes: int)
    requires
        0 <= column < row_bytes,
    ensures
        (row * row_bytes + column) / row_bytes == row,
        (row * row_bytes + column) % row_bytes == column,
{
    vstd::arithmetic::div_mod::lemma_fundamental_div_mod_converse_div(
        row * row_bytes + column,
        row_bytes,
        row,
        column,
    );
    vstd::arithmetic::div_mod::lemma_fundamental_div_mod_converse_mod(
        row * row_bytes + column,
        row_bytes,
        row,
        column,
    );
}

proof fn lemma_index_split(i: int, row_bytes: int)
    requires
        0 <= i,
        0 < row_bytes,
    ensures
        i == (i / row_bytes) * row_bytes + i % row_bytes,
        0 <= i % row_bytes < row_bytes,
        0 <= i / row_bytes,
{
    vstd::arithmetic::div_mod::lemma_fundamental_div_mod(i, row_bytes);
    vstd::arithmetic::mul::lemma_mul_is_commutative(row_bytes, i / row_bytes);
    vstd::arithmetic::div_mod::lemma_mod_pos_bound(i, row_bytes);
    vstd::arithmetic::div_mod::lemma_div_pos_is_pos(i, row_bytes);
}

/// Flipping the rows twice gives every byte back.
pub proof fn lemma_flip_is_an_involution(source: Seq<u8>, row_bytes: int, height: int, i: int)
    requires
        row_bytes > 0,
        height >= 0,
        height * row_bytes <= source.len(),
        0 <= i < source.len(),
    ensures
        flipped_byte(
            Seq::new(source.len(), |j: int| flipped_byte(source, row_bytes, height, j)),
            row_bytes,
            height,
            i,
        ) == source[i],
{
    let once = Seq::new(source.len(), |j: int| flipped_byte(source, row_bytes, height, j));
    if i < height * row_bytes {
        lemma_index_split(i, row_bytes);
        let row = i / row_bytes;
        let column = i % row_bytes;
        if row >= height {
            vstd::arithmetic::mul::lemma_mul_inequality(height, row, row_bytes);
        }
        let mirrored = (height - 1 - row) * row_bytes + column;
        lemma_cell_in_grid(height - 1 - row, column, row_bytes, height);
        lemma_cell_div_mod(height - 1 - row, column, row_bytes);
        assert(once[mirrored] == source[(height - 1 - (height - 1 - row)) * row_bytes + column]);
    }
}

/// Puts the first `height` rows of `row_bytes` bytes each in reverse order, leaving the
/// bytes inside each row as they are: an OpenGL read-back comes bottom row first.
pub fn flip_rows_in_place(pixels: &mut [u8], row_bytes: usize, height: usize)
    requires
        height < 2 || height * row_bytes <= old(pixels)@.len(),
    ensures
        final(pixels)@.len() == old(pixels)@.len(),
        forall|i: int|
            0 <= i < old(pixels)@.len() ==> #[trigger] final(pixels)@[i] == flipped_byte(
                old(pixels)@,
                row_bytes as int,
                height as int,
                i,
            ),
{
    let ghost source = pixels@;
    let ghost rb = row_bytes as int;
    let ghost h = height as int;
    let len = pixels.len();
    if row_bytes == 0 || height < 2 {
        proof {
            assert forall|i: int| 0 <= i < source.len() implies #[trigger] pixels@[i]
                == flipped_byte(source, rb, h, i) by {
                if i < h * rb {
                    assert(h == 1) by (nonlinear_arith)
                        requires
                            h < 2,
                            i < h * rb,
                            0 <= i,
                            0 <= h,
                    ;
                    lemma_cell_div_mod(0, i, rb);
                }
            }
        }
        return;
    }
    proof {
        assert forall|i: int| 0 <= i < source.len() implies #[trigger] pixels@[i]
            == partly_flipped_byte(source, rb, h, 0, 0, i) by {
            lemma_index_split(i, rb);
            if i < h * rb && i / rb >= h {
                vstd::arithmetic::mul::lemma_mul_inequality(h, i / rb, rb);
            }
        }
    }
    let half = height / 2;
    let mut top: usize = 0;
    while top < half
        invariant
            source == old(pixels)@,
            rb == row_bytes,
            h == height,
            rb > 0,
            h >= 2,
            len == source.len(),
            h * rb <= source.len(),
            half == h / 2,
            top <= half,
            pixels@.len() == source.len(),
            forall|i: int|
                0 <= i < source.len() ==> #[trigger] pixels@[i] == partly_flipped_byte(
                    source,
                    rb,
                    h,
                    top as int,
                    0,
                    i,
                ),
        decreases half - top,
    {
        let bottom = height - 1 - top;
        let mut column: usize = 0;
        while column < row_bytes
            invariant
                source == old(pixels)@,
                rb == row_bytes,
                h == height,
                rb > 0,
                h >= 2,
                len == source.len(),
                h * rb <= source.len(),
                half == h / 2,
                top < half,
                bottom == h - 1 - top,
                column <= row_bytes,
                pixels@.len() == source.len(),
                forall|i: int|
                    0 <= i < source.len() ==> #[trigger] pixels@[i] == partly_flipped_byte(
                        source,
                        rb,
                        h,
                        top as int,
                        column as int,
                        i,
                    ),
            decreases row_bytes - column,
        {
            proof {
                lemma_cell_in_grid(top as int, column as int, rb, h);
                lemma_cell_in_grid(bottom as int, column as int, rb, h);
                lemma_cell_div_mod(top as int, column as int, rb);
                lemma_cell_div_mod(bottom as int, column as int, rb);
            }
            let upper = top * row_bytes + column;
            let lower = bottom * row_bytes + column;
            let ghost before = pixels@;
            let moved = pixels[upper];
            pixels[upper] = pixels[lower];
            pixels[lower] = moved;
            proof {
                assert forall|i: int| 0 <= i < source.len() implies #[trigger] pixels@[i]
                    == partly_flipped_byte(source, rb, h, top as int, column + 1, i) by {
                    lemma_index_split(i, rb);
                    if i != upper && i != lower {
                        assert(before[i] == pixels@[i]);
                        if i / rb == top as int && i % rb == column as int {
                            assert(i == upper);
                        }
                        if i / rb == bottom as int && i % rb == column as int {
                            assert(i == lower);
                        }
                        if i < h * rb {
                        } else {
                            lemma_cell_in_grid(i / rb, i % rb, rb, i / rb + 1);
                            if i / rb < h {
                                lemma_cell_in_grid(i / rb, i % rb, rb, h);
                            }
                        }
                    }
                }
            }
            column = column + 1;
        }
        proof {
            assert forall|i: int| 0 <= i < source.len() implies #[trigger] pixels@[i]
                == partly_flipped_byte(source, rb, h, top + 1, 0, i) by {
                lemma_index_split(i, rb);
            }
        }
        top = top + 1;
    }
    proof {
        assert forall|i: int| 0 <= i < source.len() implies #[trigger] pixels@[i] == flipped_byte(
            source,
            rb,
            h,
            i,
        ) by {
            lemma_index_split(i, rb);
            if i < h * rb {
                let row = i / rb;
                if row >= h {
                    vstd::arithmetic::mul::lemma_mul_inequality(h, row, rb);
                }
            }
        }
    }
}


/// Byte `i` of the tint mask of the RGBA pixels `source`: white, with each pixel's alpha.
pub open spec fn white_mask_byte(source: Seq<u8>, i: int) -> u8 {
    if i % 4 == 3 {
        source[i]
    } else {
        255u8
    }
}

/// A white mask with the coverage of a rasterized icon: every whole pixel becomes white with
/// the pixel's alpha, so that one texture can be tinted to any colour; bytes after the last
/// whole pixel are dropped.
pub fn white_alpha_mask(pixels: &[u8]) -> (mask: Vec<u8>)
    ensures
        mask@.len() == whole_pixel_bytes(pixels@.len() as int),
        forall|i: int| 0 <= i < mask@.len() ==> #[trigger] mask@[i] == white_mask_byte(pixels@, i),
{
    let len = pixels.len();
    let whole = len - len % 4;
    let mut mask: Vec<u8> = Vec::with_capacity(whole);
    let mut i: usize = 0;
    while i < whole
        invariant
            len == pixels@.len(),
            whole == whole_pixel_bytes(len as int),
            whole % 4 == 0,
            i % 4 == 0,
            i <= whole,
            mask@.len() == i,
            forall|j: int| 0 <= j < i ==> #[trigger] mask@[j] == white_mask_byte(pixels@, j),
        decreases whole - i,
    {
        mask.push(255);
        mask.push(255);
        mask.push(255);
        mask.push(pixels[i + 3]);
        proof {
            assert((i + 1) % 4 == 1 && (i + 2) % 4 == 2 && (i + 3) % 4 == 3);
        }
        i = i + 4;
    }
    mask
}

/// Whether a rasterized bitmap of `width` by `height` pixels with `len` bytes is a whole,
/// non-empty RGBA image that can be uploaded as it is.
pub fn is_whole_rgba_bitmap(width: u32, height: u32, len: usize) -> (whole: bool)
    ensures
        whole == (width > 0 && height > 0 && len == width * height * 4),
{
    if width == 0 || height == 0 {
        return false;
    }
    let w = width as u64;
    let h = height as u64;
    proof {
        assert(w * h <= 0xffff_ffff * 0xffff_ffffu64) by (nonlinear_arith)
            requires
                w <= 0xffff_ffff,
                h <= 0xffff_ffff,
        ;
    }
    let pixels = w * h;
    match pixels.checked_mul(4) {
        Some(bytes) => bytes == len as u64,
        None => false,
    }
}

} // verus!
