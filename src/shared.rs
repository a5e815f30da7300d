//! Plain descriptions of resources, handed between the caches and the key allocators.

use vstd::prelude::*;

verus! {

/// Container formats of encoded images.
#[derive(Debug, Copy, Clone, PartialEq, Eq, Structural, Hash)]
pub enum ImageEncodingFormat {
    PNG,
    JPEG,
    GIF,
    WEBP,
    PNM,
    TIFF,
    TGA,
    BMP,
    ICO,
    HDR,
}

/// The lower-case name of a format, as it stands in a MIME type.
pub open spec fn format_name(f: ImageEncodingFormat) -> Seq<char> {
    match f {
        ImageEncodingFormat::PNG => "png"@,
        ImageEncodingFormat::JPEG => "jpeg"@,
        ImageEncodingFormat::GIF => "gif"@,
        ImageEncodingFormat::WEBP => "webp"@,
        ImageEncodingFormat::PNM => "pnm"@,
        ImageEncodingFormat::TIFF => "tiff"@,
        ImageEncodingFormat::TGA => "tga"@,
        ImageEncodingFormat::BMP => "bmp"@,
        ImageEncodingFormat::ICO => "ico"@,
        ImageEncodingFormat::HDR => "hdr"@,
    }
}

impl ImageEncodingFormat {
    pub fn as_str(&self) -> (r: &'static str)
        ensures
            r@ == format_name(*self),
    {
        match self {
            ImageEncodingFormat::PNG => "png",
            ImageEncodingFormat::JPEG => "jpeg",
            ImageEncodingFormat::GIF => "gif",
            ImageEncodingFormat::WEBP => "webp",
            ImageEncodingFormat::PNM => "pnm",
            ImageEncodingFormat::TIFF => "tiff",
            ImageEncodingFormat::TGA => "tga",
            ImageEncodingFormat::BMP => "bmp",
            ImageEncodingFormat::ICO => "ico",
            ImageEncodingFormat::HDR => "hdr",
        }
    }
}

/// Layout of decoded pixels, with the number of bits per channel.
#[derive(Debug, Copy, Clone, PartialEq, Eq, Structural, Hash)]
pub enum ImagePixelFormat {
    Gray(u8),
    RGBA(u8),
    BGRA(u8),
}

/// Channel order of decoded color images: RGBA as decoded, or with red and
/// blue swapped for consumers that upload BGRA.
#[derive(Debug, Copy, Clone, PartialEq, Eq, Structural)]
pub enum ChannelOrder {
    Rgba,
    Bgra,
}

/// What a key allocator is told of an encoded image: its bytes, or the data URI
/// it was given as.
pub enum ImageEncodedData<'a> {
    Bytes { format: ImageEncodingFormat, bytes: &'a [u8] },
    DataUri { data_uri: &'a str },
}

/// What a key allocator is told of a decoded image.
pub struct ImageResourceData<'a> {
    pub format: ImagePixelFormat,
    pub size: (u32, u32),
    pub pixels: &'a [u8],
}

/// What a key allocator is told of an encoded font: its bytes, or the data URI
/// it was given as.
pub enum FontEncodedData<'a> {
    Bytes { bytes: &'a [u8] },
    DataUri { data_uri: &'a str },
}

/// What a key allocator is told of a loaded font.
pub struct FontResourceData<'a> {
    pub bytes: &'a [u8],
    pub face_index: usize,
}

/// What a key allocator is told of a font instance.
#[derive(Debug, Copy, Clone, PartialEq, Eq, Structural)]
pub struct FontInstanceResourceData {
    pub size: u32,
    pub dpi: u32,
}

impl FontInstanceResourceData {
    pub fn new(size: u32, dpi: u32) -> (r: FontInstanceResourceData)
        ensures
            r == (FontInstanceResourceData { size, dpi }),
    {
        FontInstanceResourceData { size, dpi }
    }
}

} // verus!
