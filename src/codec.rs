//! The image codec: format sniffing, dimension probing and decoding, by the
//! `image` crate.

use std::io::Cursor;
use image::ImageFormat as Codec;
use vstd::prelude::*;
use crate::shared::ImageEncodingFormat as F;

verus! {

#[verifier::external_type_specification]
#[verifier::external_body]
pub struct ExImageError(image::error::ImageError);

#[verifier::external_type_specification]
#[verifier::external_body]
pub struct ExImageFormat(image::ImageFormat);

/// What the leading bytes of an encoded image announce: nothing the codec
/// recognises (`None`), a format outside this library's set (`Some(None)`), or
/// one of its formats.
pub uninterp spec fn sniffed_format(bytes: Seq<u8>) -> Option<Option<F>>;

/// The width and height that the header of an encoded image gives, if the
/// header can be read.
pub uninterp spec fn probed_dimensions(format: F, bytes: Seq<u8>) -> Option<(u32, u32)>;

/// What decoding the bytes as an image of the format gives, if it succeeds:
/// whether the source was 8-bit grayscale, the width, the height, and the
/// samples (8-bit grayscale as decoded, or else converted to 8-bit RGBA).
pub uninterp spec fn decoded_parts(format: F, bytes: Seq<u8>) -> Option<(bool, u32, u32, Seq<u8>)>;

/// RGBA samples with red and blue swapped in each pixel; alpha stays.
pub open spec fn bgra_swapped(rgba: Seq<u8>) -> Seq<u8> {
    Seq::new(rgba.len(), |i: int| if i % 4 == 3 { rgba[i] } else { rgba[i - i % 4 + (2 - i % 4)] })
}

/// Relies on no outside function: names the codec's own value for a format.
#[verifier::external_body]
fn codec_format(format: F) -> (r: Codec) {
    match format {
        F::PNG => Codec::Png,
        F::JPEG => Codec::Jpeg,
        F::GIF => Codec::Gif,
        F::WEBP => Codec::WebP,
        F::PNM => Codec::Pnm,
        F::TIFF => Codec::Tiff,
        F::TGA => Codec::Tga,
        F::BMP => Codec::Bmp,
        F::ICO => Codec::Ico,
        F::HDR => Codec::Hdr,
    }
}

/// Relies on image's `guess_format`: the format follows from the magic bytes at
/// the start of the buffer alone; bytes it does not recognise give its error.
#[verifier::external_body]
pub(crate) fn guess_format(bytes: &[u8]) -> (r: Result<Option<F>, image::error::ImageError>)
    ensures
        r is Err <==> sniffed_format(bytes@) is None,
        r is Ok ==> sniffed_format(bytes@) == Some(r->Ok_0),
{
    match image::guess_format(bytes) {
        Ok(Codec::Png) => Ok(Some(F::PNG)),
        Ok(Codec::Jpeg) => Ok(Some(F::JPEG)),
        Ok(Codec::Gif) => Ok(Some(F::GIF)),
        Ok(Codec::WebP) => Ok(Some(F::WEBP)),
        Ok(Codec::Pnm) => Ok(Some(F::PNM)),
        Ok(Codec::Tiff) => Ok(Some(F::TIFF)),
        Ok(Codec::Tga) => Ok(Some(F::TGA)),
        Ok(Codec::Bmp) => Ok(Some(F::BMP)),
        Ok(Codec::Ico) => Ok(Some(F::ICO)),
        Ok(Codec::Hdr) => Ok(Some(F::HDR)),
        Ok(_) => Ok(None),
        Err(e) => Err(e),
    }
}

/// Relies on image's `ImageReader::with_format` and `into_dimensions`: the
/// dimensions come from the header of the given format, read from the bytes alone.
#[verifier::external_body]
pub(crate) fn read_dimensions(format: F, bytes: &[u8]) -> (r: Result<(u32, u32), image::error::ImageError>)
    ensures
        r is Ok <==> probed_dimensions(format, bytes@) is Some,
        r is Ok ==> r->Ok_0 == probed_dimensions(format, bytes@)->0,
{
    image::ImageReader::with_format(Cursor::new(bytes), codec_format(format)).into_dimensions()
}

/// Relies on image's `load_from_memory_with_format`, then `DynamicImage::as_luma8`
/// or `DynamicImage::into_rgba8`: the result depends on the format and the bytes
/// alone. The decoder that decodes is the one whose `dimensions` the header probe
/// reads, and the image buffer holds one sample per channel of each pixel.
#[verifier::external_body]
pub(crate) fn decode_parts(format: F, bytes: &[u8]) -> (r: Result<(bool, u32, u32, Vec<u8>), image::error::ImageError>)
    ensures
        r is Ok <==> decoded_parts(format, bytes@) is Some,
        r matches Ok(p) ==> decoded_parts(format, bytes@) == Some((p.0, p.1, p.2, p.3@)),
        r matches Ok(p) ==> p.3@.len() == (if p.0 { 1int } else { 4int }) * p.1 * p.2,
        r matches Ok(p) ==> probed_dimensions(format, bytes@) == Some((p.1, p.2)),
{
    let image = image::load_from_memory_with_format(bytes, codec_format(format))?;
    Ok(match image.as_luma8() {
        Some(gray) => (true, gray.width(), gray.height(), gray.as_raw().clone()),
        None => {
            let rgba = image.into_rgba8();
            (false, rgba.width(), rgba.height(), rgba.into_raw())
        },
    })
}

/// Relies on image's `ImageBuffer::from_raw` and `into_raw_bgra`: a buffer of
/// exactly width × height RGBA pixels is taken as is, and each pixel's first
/// three channels are reversed.
#[verifier::external_body]
pub(crate) fn into_bgra(width: u32, height: u32, rgba: Vec<u8>) -> (r: Vec<u8>)
    requires
        rgba@.len() == 4 * width * height,
    ensures
        r@ == bgra_swapped(rgba@),
{
    match image::RgbaImage::from_raw(width, height, rgba) {
        Some(image) => image.into_raw_bgra(),
        None => Vec::new(),
    }
}

} // verus!
