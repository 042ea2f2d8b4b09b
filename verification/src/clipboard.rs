use vstd::prelude::*;

use crate::export::RgbaFrame;
use crate::pixels::red_blue_swapped;

verus! {

/// Why an image cannot be put on the clipboard as a DIB.
#[derive(Debug, Clone, Copy, PartialEq, Eq, Structural)]
pub enum ClipboardError {
    WidthTooLarge,
    HeightTooLarge,
    ImageTooLarge,
    AllocationOverflow,
}

impl ClipboardError {
    /// A sentence that describes the error for a log or a dialog.
    pub fn message(&self) -> (text: &'static str)
        ensures
            match *self {
                ClipboardError::WidthTooLarge => text@ == "clipboard image width exceeds i32"@,
                ClipboardError::HeightTooLarge => text@ == "clipboard image height exceeds i32"@,
                ClipboardError::ImageTooLarge => text@
                    == "clipboard image byte length exceeds DIBV5"@,
                ClipboardError::AllocationOverflow => text@
                    == "clipboard image allocation overflow"@,
            },
    {
        match *self {
            ClipboardError::WidthTooLarge => "clipboard image width exceeds i32",
            ClipboardError::HeightTooLarge => "clipboard image height exceeds i32",
            ClipboardError::ImageTooLarge => "clipboard image byte length exceeds DIBV5",
            ClipboardError::AllocationOverflow => "clipboard image allocation overflow",
        }
    }
}

/// The byte size of a version-5 bitmap header.
pub const DIB_V5_HEADER_BYTES: usize = 124;

// Header values of a 32-bit top-down sRGB DIB with explicit channel masks.
pub const BI_BITFIELDS: u32 = 3;
pub const LCS_SRGB: u32 = 0x7352_4742;
pub const LCS_GM_IMAGES: u32 = 4;
pub const RED_MASK: u32 = 0x00ff_0000;
pub const GREEN_MASK: u32 = 0x0000_ff00;
pub const BLUE_MASK: u32 = 0x0000_00ff;
pub const ALPHA_MASK: u32 = 0xff00_0000;

/// The little-endian bytes of `x`.
pub open spec fn le32(x: u32) -> Seq<u8> {
    seq![
        (x & 0xff) as u8,
        ((x >> 8u32) & 0xff) as u8,
        ((x >> 16u32) & 0xff) as u8,
        ((x >> 24u32) & 0xff) as u8,
    ]
}

/// The little-endian bytes of `x`.
pub open spec fn le16(x: u16) -> Seq<u8> {
    seq![(x & 0xff) as u8, ((x >> 8u16) & 0xff) as u8]
}

/// `count` zero bytes.
pub open spec fn zeros(count: nat) -> Seq<u8> {
    Seq::new(count, |i: int| 0u8)
}

/// The two's-complement bit pattern of `-height`: a negative DIB height marks rows that run
/// top to bottom.
pub open spec fn negated(height: u32) -> u32
    recommends
        height > 0,
{
    (u32::MAX - height + 1) as u32
}

/// The version-5 bitmap header of a top-down 32-bit image of `width` by `height` pixels and
/// `image_size` bytes: size, width, negative height, one plane, 32 bits per pixel, bitfield
/// compression, image size, no resolution or palette, the BGRA channel masks, the sRGB colour
/// space with no endpoints or gamma, the image rendering intent, and no profile.
pub open spec fn dib_v5_header(width: u32, height: u32, image_size: u32) -> Seq<u8> {
    le32(DIB_V5_HEADER_BYTES as u32) + le32(width) + le32(negated(height)) + le16(1) + le16(32)
        + le32(BI_BITFIELDS) + le32(image_size) + zeros(16) + le32(RED_MASK) + le32(GREEN_MASK)
        + le32(BLUE_MASK) + le32(ALPHA_MASK) + le32(LCS_SRGB) + zeros(48) + le32(LCS_GM_IMAGES)
        + zeros(12)
}

/// The RGBA bytes `pixels` in the BGRA order of a DIB.
pub open spec fn bgra_bytes(pixels: Seq<u8>) -> Seq<u8> {
    Seq::new(pixels.len(), |i: int| red_blue_swapped(pixels, i))
}

/// The error that stops an image of `width` by `height` pixels and `len` bytes from becoming a
/// clipboard DIB, checked in this order.
pub open spec fn dib_error(width: u32, height: u32, len: nat) -> Option<ClipboardError> {
    if width > i32::MAX {
        Some(ClipboardError::WidthTooLarge)
    } else if height > i32::MAX {
        Some(ClipboardError::HeightTooLarge)
    } else if len > u32::MAX {
        Some(ClipboardError::ImageTooLarge)
    } else if DIB_V5_HEADER_BYTES + len > usize::MAX {
        Some(ClipboardError::AllocationOverflow)
    } else {
        None
    }
}

fn push_le32(out: &mut Vec<u8>, x: u32)
    ensures
        final(out)@ == old(out)@ + le32(x),
{
    out.push((x & 0xff) as u8);
    out.push(((x >> 8u32) & 0xff) as u8);
    out.push(((x >> 16u32) & 0xff) as u8);
    out.push(((x >> 24u32) & 0xff) as u8);
}

fn push_le16(out: &mut Vec<u8>, x: u16)
    ensures
        final(out)@ == old(out)@ + le16(x),
{
    out.push((x & 0xff) as u8);
    out.push(((x >> 8u16) & 0xff) as u8);
}

fn push_zeros(out: &mut Vec<u8>, count: usize)
    ensures
        final(out)@ == old(out)@ + zeros(count as nat),
{
    let ghost start = out@;
    let mut i: usize = 0;
    while i < count
        invariant
            i <= count,
            out@ == start + zeros(i as nat),
        decreases count - i,
    {
        out.push(0u8);
        i = i + 1;
        assert(out@ =~= start + zeros(i as nat));
    }
}

/// The clipboard's DIB of an image: a version-5 header that describes a top-down 32-bit
/// image, followed by the pixels in BGRA order. Fails when the width or height does not fit in
/// an `i32`, the byte length does not fit in a `u32`, or header and pixels together do not fit
/// in memory.
pub fn dib_v5_payload(image: &RgbaFrame) -> (r: Result<Vec<u8>, ClipboardError>)
    ensures
        match dib_error(image.spec_bounds().width, image.spec_bounds().height, image@.len()) {
            Some(error) => r == Err::<Vec<u8>, ClipboardError>(error),
            None => match r {
                Ok(bytes) => bytes@ == dib_v5_header(
                    image.spec_bounds().width,
                    image.spec_bounds().height,
                    image@.len() as u32,
                ) + bgra_bytes(image@),
                Err(_) => false,
            },
        },
{
    let width = image.width();
    let height = image.height();
    let pixels = image.pixels();
    let len = pixels.len();
    if width > 0x7fff_ffff {
        return Err(ClipboardError::WidthTooLarge);
    }
    if height > 0x7fff_ffff {
        return Err(ClipboardError::HeightTooLarge);
    }
    if len > 0xffff_ffff {
        return Err(ClipboardError::ImageTooLarge);
    }
    let total = match DIB_V5_HEADER_BYTES.checked_add(len) {
        Some(total) => total,
        None => {
            return Err(ClipboardError::AllocationOverflow);
        },
    };
    let image_size = len as u32;
    let mut out: Vec<u8> = Vec::with_capacity(total);
    push_le32(&mut out, DIB_V5_HEADER_BYTES as u32);
    push_le32(&mut out, width);
    push_le32(&mut out, u32::MAX - height + 1);
    push_le16(&mut out, 1);
    push_le16(&mut out, 32);
    push_le32(&mut out, BI_BITFIELDS);
    push_le32(&mut out, image_size);
    push_zeros(&mut out, 16);
    push_le32(&mut out, RED_MASK);
    push_le32(&mut out, GREEN_MASK);
    push_le32(&mut out, BLUE_MASK);
    push_le32(&mut out, ALPHA_MASK);
    push_le32(&mut out, LCS_SRGB);
    push_zeros(&mut out, 48);
    push_le32(&mut out, LCS_GM_IMAGES);
    push_zeros(&mut out, 12);
    let ghost header = out@;
    assert(header == dib_v5_header(width, height, image_size));
    proof {
        lemma_whole_pixels(width as int, height as int);
    }
    let mut i: usize = 0;
    while i < len
        invariant
            len == pixels@.len(),
            len % 4 == 0,
            i % 4 == 0,
            i <= len,
            out@ == header + Seq::new(i as nat, |j: int| red_blue_swapped(pixels@, j)),
        decreases len - i,
    {
        let ghost before = out@;
        out.push(pixels[i + 2]);
        out.push(pixels[i + 1]);
        out.push(pixels[i]);
        out.push(pixels[i + 3]);
        proof {
            assert((i + 1) % 4 == 1 && (i + 2) % 4 == 2 && (i + 3) % 4 == 3);
            assert(out@ =~= header + Seq::new((i + 4) as nat, |j: int| red_blue_swapped(pixels@, j)));
        }
        i = i + 4;
    }
    assert(out@ =~= header + bgra_bytes(pixels@));
    Ok(out)
}

proof fn lemma_whole_pixels(width: int, height: int)
    requires
        width >= 0,
        height >= 0,
    ensures
        (width * height * 4) % 4 == 0,
{
    assert((width * height * 4) % 4 == 0) by (nonlinear_arith)
        requires
            width >= 0,
            height >= 0,
    ;
}

/// Swapping red and blue twice gives every byte back: the pixels of a clipboard DIB read back
/// in RGBA order are the image's own.
pub proof fn lemma_bgra_round_trip(pixels: Seq<u8>, i: int)
    requires
        pixels.len() % 4 == 0,
        0 <= i < pixels.len(),
    ensures
        red_blue_swapped(bgra_bytes(pixels), i) == pixels[i],
{
}

} // verus!
