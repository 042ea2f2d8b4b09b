use vstd::prelude::*;

use crate::export::RgbaFrame;
use crate::platform::ImageFileFormat;

verus! {

#[verifier::external_type_specification]
#[verifier::external_body]
pub struct ExPngEncodingError(png::EncodingError);

#[verifier::external_type_specification]
#[verifier::external_body]
pub struct ExJpegEncodingError(jpeg_encoder::EncodingError);

/// The JPEG quality that saved captures use.
pub const JPEG_QUALITY: u8 = 92;

/// The bytes that the `png` crate writes for an 8-bit RGBA image of `width` × `height`
/// with its default options.
pub uninterp spec fn png_rgba8_stream(width: u32, height: u32, pixels: Seq<u8>) -> Seq<u8>;

/// The bytes that the `jpeg-encoder` crate writes for an RGBA image of `width` × `height`
/// at `quality` with its default options.
pub uninterp spec fn jpeg_rgba_stream(width: u16, height: u16, quality: u8, pixels: Seq<u8>) -> Seq<
    u8,
>;

/// The eight bytes that open every PNG stream.
pub open spec fn png_signature() -> Seq<u8> {
    seq![137u8, 80u8, 78u8, 71u8, 13u8, 10u8, 26u8, 10u8]
}

/// The empty `IEND` chunk that closes every PNG stream: length, type, CRC.
pub open spec fn png_iend_chunk() -> Seq<u8> {
    seq![0u8, 0u8, 0u8, 0u8, 73u8, 69u8, 78u8, 68u8, 0xAEu8, 0x42u8, 0x60u8, 0x82u8]
}

/// A complete PNG stream: the signature first, the `IEND` chunk last.
pub open spec fn is_complete_png(bytes: Seq<u8>) -> bool {
    &&& bytes.len() >= 20
    &&& bytes.take(8) == png_signature()
    &&& bytes.skip(bytes.len() - 12) == png_iend_chunk()
}

/// A complete JPEG stream: the start-of-image marker first, the end-of-image marker last.
pub open spec fn is_complete_jpeg(bytes: Seq<u8>) -> bool {
    &&& bytes.len() >= 4
    &&& bytes[0] == 0xFFu8
    &&& bytes[1] == 0xD8u8
    &&& bytes[bytes.len() - 2] == 0xFFu8
    &&& bytes[bytes.len() - 1] == 0xD9u8
}

/// Encodes an 8-bit RGBA image as PNG into memory with `png::Encoder` (`new`, `set_color`,
/// `set_depth`, `write_header`, `write_image_data`, `finish`). Trusted: the result is the
/// crate's stream for these arguments; the encoder refuses exactly an empty image and a pixel
/// buffer of the wrong length (its only checks on this path: zero width, zero height, buffer
/// size; compression and chunk writing go into in-memory vectors and cannot fail), writes the
/// signature before anything else and the `IEND` chunk after everything else.
#[verifier::external_body]
fn png_encode_rgba8(width: u32, height: u32, pixels: &[u8]) -> (r: Result<
    Vec<u8>,
    png::EncodingError,
>)
    requires
        width * height * 4 <= usize::MAX,
    ensures
        (width == 0 || height == 0 || pixels@.len() != width * height * 4) <==> r is Err,
        r matches Ok(bytes) ==> bytes@ == png_rgba8_stream(width, height, pixels@)
            && is_complete_png(bytes@),
{
    let mut encoded: Vec<u8> = Vec::new();
    {
        let mut encoder = png::Encoder::new(&mut encoded, width, height);
        encoder.set_color(png::ColorType::Rgba);
        encoder.set_depth(png::BitDepth::Eight);
        let mut writer = encoder.write_header()?;
        writer.write_image_data(pixels)?;
        writer.finish()?;
    }
    Ok(encoded)
}

/// Encodes an RGBA image as JPEG into memory with `jpeg_encoder::Encoder::new(..).encode`.
/// Trusted: the result is the crate's stream for these arguments; the encoder refuses exactly
/// an empty image and a pixel buffer shorter than four bytes per pixel (its only checks on this
/// path; every write goes into an in-memory vector and cannot fail), writes the start-of-image
/// marker before anything else and the end-of-image marker after everything else. The length
/// it requires is computed in `usize`, so that product must fit.
#[verifier::external_body]
fn jpeg_encode_rgba(width: u16, height: u16, quality: u8, pixels: &[u8]) -> (r: Result<
    Vec<u8>,
    jpeg_encoder::EncodingError,
>)
    requires
        width * height * 4 <= usize::MAX,
    ensures
        (width == 0 || height == 0 || pixels@.len() < width * height * 4) <==> r is Err,
        r matches Ok(bytes) ==> bytes@ == jpeg_rgba_stream(width, height, quality, pixels@)
            && is_complete_jpeg(bytes@),
{
    let mut encoded: Vec<u8> = Vec::new();
    jpeg_encoder::Encoder::new(&mut encoded, quality).encode(
        pixels,
        width,
        height,
        jpeg_encoder::ColorType::Rgba,
    )?;
    Ok(encoded)
}

/// Why an image could not be encoded.
#[derive(Debug, Clone, Copy, PartialEq, Eq, Structural)]
pub enum OutputError {
    /// The PNG encoder failed.
    PngEncoding,
    /// The JPEG encoder failed.
    JpegEncoding,
    /// JPEG images are at most 65535 pixels wide.
    JpegWidthTooLarge(u32),
    /// JPEG images are at most 65535 pixels tall.
    JpegHeightTooLarge(u32),
}

/// The image as a PNG file's bytes.
pub fn encode_png(image: &RgbaFrame) -> (r: Result<Vec<u8>, OutputError>)
    ensures
        r is Ok,
        match r {
            Ok(bytes) => bytes@ == png_rgba8_stream(
                image.spec_bounds().width,
                image.spec_bounds().height,
                image@,
            ) && is_complete_png(bytes@),
            Err(e) => e == OutputError::PngEncoding,
        },
{
    let width = image.width();
    let height = image.height();
    match png_encode_rgba8(width, height, image.pixels()) {
        Ok(bytes) => Ok(bytes),
        Err(_) => Err(OutputError::PngEncoding),
    }
}

/// The image as a JPEG file's bytes at the capture quality; an image wider or taller than
/// 65535 pixels is refused first.
pub fn encode_jpeg(image: &RgbaFrame) -> (r: Result<Vec<u8>, OutputError>)
    ensures
        image.spec_bounds().width > u16::MAX ==> r == Err::<Vec<u8>, OutputError>(
            OutputError::JpegWidthTooLarge(image.spec_bounds().width),
        ),
        image.spec_bounds().width <= u16::MAX && image.spec_bounds().height > u16::MAX ==> r
            == Err::<Vec<u8>, OutputError>(
            OutputError::JpegHeightTooLarge(image.spec_bounds().height),
        ),
        image.spec_bounds().width <= u16::MAX && image.spec_bounds().height <= u16::MAX ==> r is Ok,
        image.spec_bounds().width <= u16::MAX && image.spec_bounds().height <= u16::MAX ==> match r {
            Ok(bytes) => bytes@ == jpeg_rgba_stream(
                image.spec_bounds().width as u16,
                image.spec_bounds().height as u16,
                JPEG_QUALITY,
                image@,
            ) && is_complete_jpeg(bytes@),
            Err(e) => e == OutputError::JpegEncoding,
        },
{
    let width = image.width();
    let height = image.height();
    if width > u16::MAX as u32 {
        return Err(OutputError::JpegWidthTooLarge(width));
    }
    if height > u16::MAX as u32 {
        return Err(OutputError::JpegHeightTooLarge(height));
    }
    match jpeg_encode_rgba(width as u16, height as u16, JPEG_QUALITY, image.pixels()) {
        Ok(bytes) => Ok(bytes),
        Err(_) => Err(OutputError::JpegEncoding),
    }
}

/// The image as the bytes of a file in `format`.
pub fn encode_image(image: &RgbaFrame, format: ImageFileFormat) -> (r: Result<
    Vec<u8>,
    OutputError,
>)
    ensures
        format == ImageFileFormat::Png ==> r is Ok,
        format == ImageFileFormat::Jpeg ==> (r is Ok <==> (image.spec_bounds().width <= u16::MAX
            && image.spec_bounds().height <= u16::MAX)),
        format == ImageFileFormat::Png ==> match r {
            Ok(bytes) => bytes@ == png_rgba8_stream(
                image.spec_bounds().width,
                image.spec_bounds().height,
                image@,
            ) && is_complete_png(bytes@),
            Err(e) => e == OutputError::PngEncoding,
        },
        format == ImageFileFormat::Jpeg ==> match r {
            Ok(bytes) => image.spec_bounds().width <= u16::MAX && image.spec_bounds().height
                <= u16::MAX && bytes@ == jpeg_rgba_stream(
                image.spec_bounds().width as u16,
                image.spec_bounds().height as u16,
                JPEG_QUALITY,
                image@,
            ) && is_complete_jpeg(bytes@),
            Err(e) => if image.spec_bounds().width > u16::MAX {
                e == OutputError::JpegWidthTooLarge(image.spec_bounds().width)
            } else if image.spec_bounds().height > u16::MAX {
                e == OutputError::JpegHeightTooLarge(image.spec_bounds().height)
            } else {
                e == OutputError::JpegEncoding
            },
        },
{
    match format {
        ImageFileFormat::Png => encode_png(image),
        ImageFileFormat::Jpeg => encode_jpeg(image),
    }
}

} // verus!
