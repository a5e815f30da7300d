//! The image cache: encoded images are decoded once, given an external key,
//! and kept by identity.

use std::collections::HashMap;
use vstd::prelude::*;
use vstd::string::*;
use vstd::utf8::encode_utf8;
use crate::codec::{
    bgra_swapped, decode_parts, decoded_parts, into_bgra, guess_format, probed_dimensions, read_dimensions, sniffed_format,
};
use crate::data_uri::{base64_decoded, data_uri_payload, from_data_uri, image_data_uri};
use crate::ids::{name_identity, ImageId};
use crate::shared::{format_name, ChannelOrder, ImageEncodedData, ImageEncodingFormat, ImagePixelFormat, ImageResourceData};
use crate::updates::{
    image_uri_of, is_add_image, DefaultImageKey, DefaultImageKeysAPI, DefaultResourceUpdates,
};

verus! {

broadcast use vstd::std_specs::hash::group_hash_axioms;

#[derive(Debug)]
pub enum ImageCacheError {
    /// The codec refused the bytes.
    LibError(image::error::ImageError),
    /// The leading bytes announce no supported format.
    UnsupportedFormat,
    DataUriDecodeError,
    ImageAlreadyAdded,
}

/// Width and height from the header of an encoded image.
pub fn get_dimensions(format: ImageEncodingFormat, bytes: &[u8]) -> (r: Result<(u32, u32), ImageCacheError>)
    ensures
        r is Ok <==> probed_dimensions(format, bytes@) is Some,
        r is Ok ==> r->Ok_0 == probed_dimensions(format, bytes@)->0,
        r is Err ==> r->Err_0 is LibError,
{
    match read_dimensions(format, bytes) {
        Ok(size) => Ok(size),
        Err(e) => Err(ImageCacheError::LibError(e)),
    }
}

/// An encoded image: its bytes and format, and the data URI it came from if any.
#[derive(Debug)]
pub enum EncodedImage {
    Bytes { format: ImageEncodingFormat, bytes: Vec<u8>, size_info: Option<(u32, u32)> },
    BytesAndDataUri {
        format: ImageEncodingFormat,
        bytes: Vec<u8>,
        data_uri: String,
        size_info: Option<(u32, u32)>,
    },
}

impl EncodedImage {
    pub open spec fn spec_format(&self) -> ImageEncodingFormat {
        match self {
            EncodedImage::Bytes { format, .. } => *format,
            EncodedImage::BytesAndDataUri { format, .. } => *format,
        }
    }

    pub open spec fn spec_bytes(&self) -> Seq<u8> {
        match self {
            EncodedImage::Bytes { bytes, .. } => bytes@,
            EncodedImage::BytesAndDataUri { bytes, .. } => bytes@,
        }
    }

    /// The data URI that stands for this image in the update log.
    pub open spec fn uri(&self) -> Seq<char> {
        match self {
            EncodedImage::Bytes { format, bytes, .. } => image_data_uri(format_name(*format), bytes@),
            EncodedImage::BytesAndDataUri { data_uri, .. } => data_uri@,
        }
    }

    /// The format that the leading bytes announce. Bytes the codec does not
    /// recognise give its error; a format it knows but this library does not
    /// handle gives `UnsupportedFormat`.
    pub fn guess_format(bytes: &[u8]) -> (r: Result<ImageEncodingFormat, ImageCacheError>)
        ensures
            sniffed_format(bytes@) matches Some(Some(f)) ==> r == Ok::<ImageEncodingFormat, ImageCacheError>(f),
            sniffed_format(bytes@) == Some(None::<ImageEncodingFormat>) ==> r is Err && r->Err_0 is UnsupportedFormat,
            sniffed_format(bytes@) is None ==> r is Err && r->Err_0 is LibError,
    {
        match guess_format(bytes) {
            Ok(Some(format)) => Ok(format),
            Ok(None) => Err(ImageCacheError::UnsupportedFormat),
            Err(e) => Err(ImageCacheError::LibError(e)),
        }
    }

    pub fn get_dimensions(format: ImageEncodingFormat, bytes: &[u8]) -> (r: Result<(u32, u32), ImageCacheError>)
        ensures
            r is Ok <==> probed_dimensions(format, bytes@) is Some,
            r is Ok ==> r->Ok_0 == probed_dimensions(format, bytes@)->0,
    {
        get_dimensions(format, bytes)
    }

    /// Wraps raw bytes, with the format sniffed from their leading bytes.
    pub fn from_bytes(bytes: Vec<u8>) -> (r: Result<EncodedImage, ImageCacheError>)
        ensures
            sniffed_format(bytes@) matches Some(Some(f)) ==> r is Ok && r->Ok_0 == (EncodedImage::Bytes {
                format: f,
                bytes,
                size_info: None,
            }),
            sniffed_format(bytes@) == Some(None::<ImageEncodingFormat>) ==> r is Err && r->Err_0 is UnsupportedFormat,
            sniffed_format(bytes@) is None ==> r is Err && r->Err_0 is LibError,
    {
        let format = match EncodedImage::guess_format(bytes.as_slice()) {
            Ok(format) => format,
            Err(e) => return Err(e),
        };
        Ok(EncodedImage::Bytes { format, bytes, size_info: None })
    }

    /// Decodes the base64 payload of a data URI and wraps the bytes, keeping
    /// the URI beside them.
    pub fn from_data_uri(data_uri: String) -> (r: Result<EncodedImage, ImageCacheError>)
        ensures
            ({
                let decoded = base64_decoded(data_uri_payload(encode_utf8(data_uri@)));
                &&& decoded is None ==> r is Err && r->Err_0 is DataUriDecodeError
                &&& decoded is Some && sniffed_format(decoded->0) is None ==> r is Err
                    && r->Err_0 is LibError
                &&& decoded is Some && sniffed_format(decoded->0) == Some(None::<ImageEncodingFormat>)
                    ==> r is Err && r->Err_0 is UnsupportedFormat
                &&& (decoded is Some && sniffed_format(decoded->0) is Some && sniffed_format(decoded->0)->0 is Some)
                    ==> r is Ok && (
                r->Ok_0 matches EncodedImage::BytesAndDataUri { format, bytes, data_uri: u, size_info }
                    && format == sniffed_format(decoded->0)->0->0 && bytes@ == decoded->0 && u == data_uri
                    && size_info is None)
            }),
    {
        let bytes = match from_data_uri(data_uri.as_str()) {
            Ok(bytes) => bytes,
            Err(_) => return Err(ImageCacheError::DataUriDecodeError),
        };
        let format = match EncodedImage::guess_format(bytes.as_slice()) {
            Ok(format) => format,
            Err(e) => return Err(e),
        };
        Ok(EncodedImage::BytesAndDataUri { format, bytes, data_uri, size_info: None })
    }

    pub fn format(&self) -> (r: Option<ImageEncodingFormat>)
        ensures
            r == Some(self.spec_format()),
    {
        match self {
            EncodedImage::Bytes { format, .. } => Some(*format),
            EncodedImage::BytesAndDataUri { format, .. } => Some(*format),
        }
    }

    pub fn bytes(&self) -> (r: Option<&Vec<u8>>)
        ensures
            r is Some && r->0@ == self.spec_bytes(),
    {
        match self {
            EncodedImage::Bytes { bytes, .. } => Some(bytes),
            EncodedImage::BytesAndDataUri { bytes, .. } => Some(bytes),
        }
    }

    pub fn data_uri(&self) -> (r: Option<&String>)
        ensures
            match self {
                EncodedImage::Bytes { .. } => r is None,
                EncodedImage::BytesAndDataUri { data_uri, .. } => r == Some(data_uri),
            },
    {
        match self {
            EncodedImage::Bytes { .. } => None,
            EncodedImage::BytesAndDataUri { data_uri, .. } => Some(data_uri),
        }
    }

    pub fn size_info(&self) -> (r: Option<(u32, u32)>)
        ensures
            match self {
                EncodedImage::Bytes { size_info, .. } => r == *size_info,
                EncodedImage::BytesAndDataUri { size_info, .. } => r == *size_info,
            },
    {
        match self {
            EncodedImage::Bytes { size_info, .. } => *size_info,
            EncodedImage::BytesAndDataUri { size_info, .. } => *size_info,
        }
    }

    /// What the key allocator is told: the bytes, or the data URI when there is one.
    pub fn info(&self) -> (r: ImageEncodedData<'_>)
        ensures
            image_uri_of(r) == self.uri(),
    {
        match self {
            EncodedImage::Bytes { format, bytes, .. } => ImageEncodedData::Bytes {
                format: *format,
                bytes: bytes.as_slice(),
            },
            EncodedImage::BytesAndDataUri { data_uri, .. } => ImageEncodedData::DataUri {
                data_uri: data_uri.as_str(),
            },
        }
    }
}

/// A decoded image: pixel layout, width and height, and the pixel samples.
#[derive(Debug)]
pub struct DecodedImage {
    pub format: ImagePixelFormat,
    pub size: (u32, u32),
    pub pixels: Vec<u8>,
}

/// The layout that decoding produces: 8-bit grayscale for a grayscale source,
/// 8-bit color in the chosen channel order for the rest.
pub open spec fn decoded_layout(gray: bool, order: ChannelOrder) -> ImagePixelFormat {
    if gray {
        ImagePixelFormat::Gray(8)
    } else if order == ChannelOrder::Bgra {
        ImagePixelFormat::BGRA(8)
    } else {
        ImagePixelFormat::RGBA(8)
    }
}

/// Samples per pixel of a layout.
pub open spec fn channels(format: ImagePixelFormat) -> int {
    match format {
        ImagePixelFormat::Gray(_) => 1,
        _ => 4,
    }
}

/// `(format, size, pixels)` is what decoding the bytes as `encoding` gives in
/// the channel order `order`: the layout follows the source, the size is the
/// decoded size (the one the header gives too), and the pixels are the decoded
/// samples, one per channel of each pixel, with red and blue swapped for BGRA.
pub open spec fn is_decoding_of(
    format: ImagePixelFormat,
    size: (u32, u32),
    pixels: Seq<u8>,
    encoding: ImageEncodingFormat,
    bytes: Seq<u8>,
    order: ChannelOrder,
) -> bool {
    let p = decoded_parts(encoding, bytes)->0;
    &&& decoded_parts(encoding, bytes) is Some
    &&& format == decoded_layout(p.0, order)
    &&& size == (p.1, p.2)
    &&& pixels == if !p.0 && order == ChannelOrder::Bgra {
        bgra_swapped(p.3)
    } else {
        p.3
    }
    &&& pixels.len() == channels(format) * size.0 * size.1
    &&& probed_dimensions(encoding, bytes) == Some(size)
}

impl DecodedImage {
    pub fn from_raw_parts(format: ImagePixelFormat, size: (u32, u32), pixels: Vec<u8>) -> (r: Result<DecodedImage, ImageCacheError>)
        ensures
            r is Ok && r->Ok_0 == (DecodedImage { format, size, pixels }),
    {
        Ok(DecodedImage { format, size, pixels })
    }

    /// Decodes in the default channel order, RGBA.
    pub fn from_encoded_image(encoded: &EncodedImage) -> (r: Result<DecodedImage, ImageCacheError>)
        ensures
            r is Ok <==> decoded_parts(encoded.spec_format(), encoded.spec_bytes()) is Some,
            r matches Ok(d) ==> is_decoding_of(
                d.format,
                d.size,
                d.pixels@,
                encoded.spec_format(),
                encoded.spec_bytes(),
                ChannelOrder::Rgba,
            ),
            r is Err ==> r->Err_0 is LibError,
    {
        Self::from_encoded_image_in(encoded, ChannelOrder::Rgba)
    }

    pub fn from_encoded_image_in(encoded: &EncodedImage, order: ChannelOrder) -> (r: Result<DecodedImage, ImageCacheError>)
        ensures
            r is Ok <==> decoded_parts(encoded.spec_format(), encoded.spec_bytes()) is Some,
            r matches Ok(d) ==> is_decoding_of(
                d.format,
                d.size,
                d.pixels@,
                encoded.spec_format(),
                encoded.spec_bytes(),
                order,
            ),
            r is Err ==> r->Err_0 is LibError,
    {
        let bytes = match encoded {
            EncodedImage::Bytes { bytes, .. } => bytes,
            EncodedImage::BytesAndDataUri { bytes, .. } => bytes,
        };
        let format = match encoded {
            EncodedImage::Bytes { format, .. } => *format,
            EncodedImage::BytesAndDataUri { format, .. } => *format,
        };
        Self::load_from_memory(format, bytes.as_slice(), order)
    }

    /// Decodes bytes of the given format: a grayscale source keeps one 8-bit
    /// channel, any other source becomes 8-bit RGBA.
    fn load_from_memory(format: ImageEncodingFormat, bytes: &[u8], order: ChannelOrder) -> (r: Result<DecodedImage, ImageCacheError>)
        ensures
            r is Ok <==> decoded_parts(format, bytes@) is Some,
            r matches Ok(d) ==> is_decoding_of(d.format, d.size, d.pixels@, format, bytes@, order),
            r is Err ==> r->Err_0 is LibError,
    {
        let (gray, width, height, pixels) = match decode_parts(format, bytes) {
            Ok(parts) => parts,
            Err(e) => return Err(ImageCacheError::LibError(e)),
        };
        if gray {
            Ok(DecodedImage { format: ImagePixelFormat::Gray(8), size: (width, height), pixels })
        } else {
            match order {
                ChannelOrder::Rgba => Ok(DecodedImage {
                    format: ImagePixelFormat::RGBA(8),
                    size: (width, height),
                    pixels,
                }),
                ChannelOrder::Bgra => Ok(DecodedImage {
                    format: ImagePixelFormat::BGRA(8),
                    size: (width, height),
                    pixels: into_bgra(width, height, pixels),
                }),
            }
        }
    }

    pub fn info(&self) -> (r: ImageResourceData<'_>)
        ensures
            r.format == self.format,
            r.size == self.size,
            r.pixels@ == self.pixels@,
    {
        ImageResourceData { format: self.format, size: self.size, pixels: self.pixels.as_slice() }
    }
}

/// Width and height of an image with its external key.
#[derive(Debug, Copy, Clone, PartialEq, Eq, Structural)]
pub struct ImageDimensionsInfo {
    image_key: DefaultImageKey,
    width: u32,
    height: u32,
}

impl ImageDimensionsInfo {
    pub closed spec fn spec_key(&self) -> DefaultImageKey {
        self.image_key
    }

    pub closed spec fn spec_size(&self) -> (u32, u32) {
        (self.width, self.height)
    }

    pub fn resource_key(&self) -> (r: DefaultImageKey)
        ensures
            r == self.spec_key(),
    {
        self.image_key
    }

    pub fn width(&self) -> (r: u32)
        ensures
            r == self.spec_size().0,
    {
        self.width
    }

    pub fn height(&self) -> (r: u32)
        ensures
            r == self.spec_size().1,
    {
        self.height
    }
}

/// A resident image: pixel layout, dimensions, pixels and external key.
#[derive(Debug)]
pub struct Image {
    format: ImagePixelFormat,
    size: (u32, u32),
    pixels: Vec<u8>,
    external_key: DefaultImageKey,
}

impl Image {
    pub closed spec fn spec_format(&self) -> ImagePixelFormat {
        self.format
    }

    pub closed spec fn spec_size(&self) -> (u32, u32) {
        self.size
    }

    pub closed spec fn spec_pixels(&self) -> Seq<u8> {
        self.pixels@
    }

    pub closed spec fn spec_key(&self) -> DefaultImageKey {
        self.external_key
    }

    pub fn new(format: ImagePixelFormat, size: (u32, u32), pixels: Vec<u8>, external_key: DefaultImageKey) -> (r: Image)
        ensures
            r.spec_format() == format,
            r.spec_size() == size,
            r.spec_pixels() == pixels@,
            r.spec_key() == external_key,
    {
        Image { format, size, pixels, external_key }
    }

    pub fn format(&self) -> (r: ImagePixelFormat)
        ensures
            r == self.spec_format(),
    {
        self.format
    }

    pub fn width(&self) -> (r: u32)
        ensures
            r == self.spec_size().0,
    {
        self.size.0
    }

    pub fn height(&self) -> (r: u32)
        ensures
            r == self.spec_size().1,
    {
        self.size.1
    }

    pub fn pixels(&self) -> (r: &Vec<u8>)
        ensures
            r@ == self.spec_pixels(),
    {
        &self.pixels
    }

    pub fn external_key(&self) -> (r: DefaultImageKey)
        ensures
            r == self.spec_key(),
    {
        self.external_key
    }

    pub fn to_dimensions_info(&self) -> (r: ImageDimensionsInfo)
        ensures
            r.spec_key() == self.spec_key(),
            r.spec_size() == self.spec_size(),
    {
        ImageDimensionsInfo { image_key: self.external_key, width: self.size.0, height: self.size.1 }
    }
}

/// Decoded images by identity, with the allocator of their external keys.
#[derive(Debug)]
pub struct ImageCache {
    api: DefaultImageKeysAPI,
    images: HashMap<u64, Image>,
    channel_order: ChannelOrder,
}

impl ImageCache {
    /// The resident images, by the value of their identity.
    pub closed spec fn entries(&self) -> Map<u64, Image> {
        self.images@
    }

    pub closed spec fn api(&self) -> DefaultImageKeysAPI {
        self.api
    }

    /// The channel order that color images are stored in.
    pub closed spec fn channel_order(&self) -> ChannelOrder {
        self.channel_order
    }

    /// What `add_image(id, encoded)` does. A known identity is refused before
    /// anything is decoded; bytes that do not decode are refused; otherwise the
    /// image is stored under a freshly allocated key, and the allocation is logged
    /// with the image's data URI. A refusal changes nothing.
    pub open spec fn add_image_effect(
        before: ImageCache,
        after: ImageCache,
        id: ImageId,
        encoded: EncodedImage,
        r: Result<(), ImageCacheError>,
    ) -> bool {
        if before.entries().contains_key(id.0) {
            r is Err && r->Err_0 is ImageAlreadyAdded && after.entries() == before.entries()
                && after.api() == before.api()
        } else if decoded_parts(encoded.spec_format(), encoded.spec_bytes()) is None {
            r is Err && r->Err_0 is LibError && after.entries() == before.entries() && after.api()
                == before.api()
        } else {
            let image = after.entries()[id.0];
            let key = DefaultImageKey(before.api().next_key());
            &&& r is Ok
            &&& after.entries() == before.entries().insert(id.0, image)
            &&& image.spec_key() == key
            &&& is_decoding_of(
                image.spec_format(),
                image.spec_size(),
                image.spec_pixels(),
                encoded.spec_format(),
                encoded.spec_bytes(),
                before.channel_order(),
            )
            &&& after.channel_order() == before.channel_order()
            &&& after.api().next_key() == before.api().next_key() + 1
            &&& after.api().log().drop_last() == before.api().log()
            &&& after.api().log().len() == before.api().log().len() + 1
            &&& is_add_image(after.api().log().last(), key, encoded.uri())
        }
    }

    /// A cache that stores color images as RGBA.
    pub fn new(api: DefaultImageKeysAPI) -> (r: Result<ImageCache, ImageCacheError>)
        ensures
            r is Ok,
            r->Ok_0.api() == api,
            r->Ok_0.entries() == Map::<u64, Image>::empty(),
            r->Ok_0.channel_order() == ChannelOrder::Rgba,
    {
        Self::with_channel_order(api, ChannelOrder::Rgba)
    }

    /// A cache that stores color images in the given channel order.
    pub fn with_channel_order(api: DefaultImageKeysAPI, channel_order: ChannelOrder) -> (r: Result<ImageCache, ImageCacheError>)
        ensures
            r is Ok,
            r->Ok_0.api() == api,
            r->Ok_0.entries() == Map::<u64, Image>::empty(),
            r->Ok_0.channel_order() == channel_order,
    {
        Ok(ImageCache { api, images: HashMap::new(), channel_order })
    }

    pub fn has_image(&self, id: ImageId) -> (r: bool)
        ensures
            r == self.entries().contains_key(id.0),
    {
        self.images.contains_key(&id.0)
    }

    /// Whether the allocator can still hand out a key.
    pub fn has_key_left(&self) -> (r: bool)
        ensures
            r == (self.api().next_key() < u64::MAX),
    {
        self.api.has_key_left()
    }

    /// Adds an image from its raw bytes, with the format sniffed from them.
    pub fn add_raw(&mut self, image_id: ImageId, bytes: Vec<u8>) -> (r: Result<(), ImageCacheError>)
        requires
            old(self).api().next_key() < u64::MAX,
        ensures
            sniffed_format(bytes@) is None ==> r is Err && r->Err_0 is LibError
                && final(self).entries() == old(self).entries() && final(self).api() == old(self).api(),
            sniffed_format(bytes@) == Some(None::<ImageEncodingFormat>) ==> r is Err && r->Err_0 is UnsupportedFormat
                && final(self).entries() == old(self).entries() && final(self).api() == old(self).api(),
            sniffed_format(bytes@) matches Some(Some(f)) ==> Self::add_image_effect(
                *old(self),
                *final(self),
                image_id,
                EncodedImage::Bytes { format: f, bytes, size_info: None },
                r,
            ),
    {
        let encoded = match EncodedImage::from_bytes(bytes) {
            Ok(encoded) => encoded,
            Err(e) => return Err(e),
        };
        self.add_image(image_id, &encoded)
    }

    pub fn add_image(&mut self, image_id: ImageId, encoded: &EncodedImage) -> (r: Result<(), ImageCacheError>)
        requires
            old(self).api().next_key() < u64::MAX,
        ensures
            Self::add_image_effect(*old(self), *final(self), image_id, *encoded, r),
    {
        if self.images.contains_key(&image_id.0) {
            return Err(ImageCacheError::ImageAlreadyAdded);
        }
        let decoded = match DecodedImage::from_encoded_image_in(encoded, self.channel_order) {
            Ok(decoded) => decoded,
            Err(e) => return Err(e),
        };
        let external_key = self.api.add_image(encoded.info(), decoded.info());
        let image = Image::new(decoded.format, decoded.size, decoded.pixels, external_key);
        self.images.insert(image_id.0, image);
        Ok(())
    }

    /// The image added under the name's identity, if any.
    pub fn get_image(&self, src: &str) -> (r: Option<&Image>)
        ensures
            self.entries().contains_key(name_identity(src@)) ==> r == Some(
                &self.entries()[name_identity(src@)],
            ),
            !self.entries().contains_key(name_identity(src@)) ==> r is None,
    {
        self.images.get(&ImageId::new(src).0)
    }

    /// The dimensions and key of the image added under the name's identity, if any.
    pub fn measure_image(&self, src: &str) -> (r: Option<ImageDimensionsInfo>)
        ensures
            self.entries().contains_key(name_identity(src@)) ==> r is Some && r->0.spec_key()
                == self.entries()[name_identity(src@)].spec_key() && r->0.spec_size()
                == self.entries()[name_identity(src@)].spec_size(),
            !self.entries().contains_key(name_identity(src@)) ==> r is None,
    {
        match self.get_image(src) {
            Some(image) => Some(image.to_dimensions_info()),
            None => None,
        }
    }

    /// Drains the update log of the key allocator.
    pub fn take_resource_updates(&mut self) -> (r: DefaultResourceUpdates)
        ensures
            r.log() == old(self).api().log(),
            final(self).api().log().len() == 0,
            final(self).api().next_key() == old(self).api().next_key(),
            final(self).entries() == old(self).entries(),
    {
        self.api.take_resource_updates()
    }
}

/// Adding an image twice under one identity: the first add succeeds when the
/// bytes decode, the second is refused and changes nothing, and the image of
/// the first add stays.
pub proof fn lemma_image_add_once(
    c0: ImageCache,
    c1: ImageCache,
    c2: ImageCache,
    id: ImageId,
    encoded: EncodedImage,
    again: EncodedImage,
    r1: Result<(), ImageCacheError>,
    r2: Result<(), ImageCacheError>,
)
    requires
        !c0.entries().contains_key(id.0),
        decoded_parts(encoded.spec_format(), encoded.spec_bytes()) is Some,
        ImageCache::add_image_effect(c0, c1, id, encoded, r1),
        ImageCache::add_image_effect(c1, c2, id, again, r2),
    ensures
        r1 is Ok,
        r2 is Err && r2->Err_0 is ImageAlreadyAdded,
        c2.entries() == c1.entries(),
        c2.api() == c1.api(),
        c2.entries()[id.0] == c1.entries()[id.0],
        is_decoding_of(
            c2.entries()[id.0].spec_format(),
            c2.entries()[id.0].spec_size(),
            c2.entries()[id.0].spec_pixels(),
            encoded.spec_format(),
            encoded.spec_bytes(),
            c0.channel_order(),
        ),
        c2.entries()[id.0].spec_key() == DefaultImageKey(c0.api().next_key()),
{
    assert(c1.entries().contains_key(id.0));
}

/// The dimensions that `get_dimensions` reads from the header of an image's
/// bytes are the width and height of the image that adding those bytes stores.
pub proof fn lemma_header_matches_stored_size(
    c0: ImageCache,
    c1: ImageCache,
    id: ImageId,
    encoded: EncodedImage,
    r: Result<(), ImageCacheError>,
)
    requires
        ImageCache::add_image_effect(c0, c1, id, encoded, r),
        r is Ok,
    ensures
        c1.entries().contains_key(id.0),
        probed_dimensions(encoded.spec_format(), encoded.spec_bytes()) == Some(
            c1.entries()[id.0].spec_size(),
        ),
{
}

} // verus!
