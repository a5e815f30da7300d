//! The resource-update log and the default key allocators that write it.

use vstd::prelude::*;
use crate::data_uri::{font_data_uri, image_data_uri, to_font_data_uri, to_image_data_uri};
use crate::shared::{
    format_name, FontEncodedData, FontInstanceResourceData, FontResourceData, ImageEncodedData,
    ImageResourceData,
};

verus! {

#[derive(Debug, Copy, Clone, PartialEq, Eq, Structural, PartialOrd, Ord, Hash)]
pub struct DefaultImageKey(pub u64);

#[derive(Debug, Copy, Clone, PartialEq, Eq, Structural, PartialOrd, Ord, Hash)]
pub struct DefaultFontKey(pub u64);

#[derive(Debug, Copy, Clone, PartialEq, Eq, Structural, PartialOrd, Ord, Hash)]
pub struct DefaultFontInstanceKey(pub u64);

/// A glyph placed at a pen position, in 1/64 pixel.
#[derive(Debug, Copy, Clone, PartialEq, Eq, Structural)]
pub struct DefaultGlyphInstance {
    pub glyph_index: u32,
    pub x_64: i32,
    pub y_64: i32,
}

impl DefaultGlyphInstance {
    pub fn new(glyph_index: u32, x_64: i32, y_64: i32) -> (r: DefaultGlyphInstance)
        ensures
            r == (DefaultGlyphInstance { glyph_index, x_64, y_64 }),
    {
        DefaultGlyphInstance { glyph_index, x_64, y_64 }
    }
}

/// One event of the log: a key was allocated for a payload.
#[derive(Debug)]
#[allow(inconsistent_fields)]
pub enum Update<ImageKey, FontKey, FontInstanceKey> {
    AddImage { key: ImageKey, data_uri: String },
    AddFont { key: FontKey, data_uri: String },
    AddFontInstance { key: FontKey, instance_key: FontInstanceKey, size: u32 },
}

/// `u` records an image key allocated with this data URI.
pub open spec fn is_add_image<I, F, FI>(u: Update<I, F, FI>, key: I, uri: Seq<char>) -> bool {
    u matches Update::AddImage { key: k, data_uri } && k == key && data_uri@ == uri
}

/// `u` records a font key allocated with this data URI.
pub open spec fn is_add_font<I, F, FI>(u: Update<I, F, FI>, key: F, uri: Seq<char>) -> bool {
    u matches Update::AddFont { key: k, data_uri } && k == key && data_uri@ == uri
}

/// `u` records an instance key allocated for a font key at a size.
pub open spec fn is_add_font_instance<I, F, FI>(
    u: Update<I, F, FI>,
    instance_key: FI,
    key: F,
    size: u32,
) -> bool {
    u == Update::<I, F, FI>::AddFontInstance { key, instance_key, size }
}

/// An ordered log of updates, appended to and drained whole.
#[derive(Debug)]
pub struct ResourceUpdates<ImageKey, FontKey, FontInstanceKey> {
    pub updates: Vec<Update<ImageKey, FontKey, FontInstanceKey>>,
}

impl<ImageKey, FontKey, FontInstanceKey> ResourceUpdates<ImageKey, FontKey, FontInstanceKey> {
    pub open spec fn log(&self) -> Seq<Update<ImageKey, FontKey, FontInstanceKey>> {
        self.updates@
    }

    pub fn with_capacity(capacity: usize) -> (r: Self)
        ensures
            r.log() == Seq::<Update<ImageKey, FontKey, FontInstanceKey>>::empty(),
    {
        ResourceUpdates { updates: Vec::with_capacity(capacity) }
    }

    pub fn add_image(&mut self, key: ImageKey, data_uri: String)
        ensures
            final(self).log() == old(self).log().push(Update::AddImage { key, data_uri }),
    {
        self.updates.push(Update::AddImage { key, data_uri });
    }

    pub fn add_font(&mut self, key: FontKey, data_uri: String)
        ensures
            final(self).log() == old(self).log().push(Update::AddFont { key, data_uri }),
    {
        self.updates.push(Update::AddFont { key, data_uri });
    }

    pub fn add_font_instance(&mut self, instance_key: FontInstanceKey, key: FontKey, size: u32)
        ensures
            final(self).log() == old(self).log().push(
                Update::AddFontInstance { key, instance_key, size },
            ),
    {
        self.updates.push(Update::AddFontInstance { instance_key, key, size });
    }

    pub fn len(&self) -> (r: usize)
        ensures
            r == self.log().len(),
    {
        self.updates.len()
    }

    pub fn is_empty(&self) -> (r: bool)
        ensures
            r == (self.log().len() == 0),
    {
        self.len() == 0
    }

    /// Appends the events of `other` after those of `self`, in their order.
    pub fn merge(&mut self, other: Self)
        ensures
            final(self).log() == old(self).log() + other.log(),
    {
        let mut other = other;
        self.updates.append(&mut other.updates);
    }
}

/// The log that the default key allocators write.
pub type DefaultResourceUpdates = ResourceUpdates<
    DefaultImageKey,
    DefaultFontKey,
    DefaultFontInstanceKey,
>;

/// The data URI that stands for an encoded image in the log.
pub open spec fn image_uri_of(encoded: ImageEncodedData) -> Seq<char> {
    match encoded {
        ImageEncodedData::Bytes { format, bytes } => image_data_uri(format_name(format), bytes@),
        ImageEncodedData::DataUri { data_uri } => data_uri@,
    }
}

/// The data URI that stands for an encoded font in the log.
pub open spec fn font_uri_of(encoded: FontEncodedData) -> Seq<char> {
    match encoded {
        FontEncodedData::Bytes { bytes } => font_data_uri(bytes@),
        FontEncodedData::DataUri { data_uri } => data_uri@,
    }
}

/// Hands out image keys in sequence from zero, and logs each one with the
/// image's data URI.
#[derive(Debug)]
pub struct DefaultImageKeysAPI {
    up: DefaultResourceUpdates,
    next_image_key: u64,
}

impl DefaultImageKeysAPI {
    pub closed spec fn log(&self) -> Seq<Update<DefaultImageKey, DefaultFontKey, DefaultFontInstanceKey>> {
        self.up.log()
    }

    /// The key that the next allocation returns.
    pub closed spec fn next_key(&self) -> u64 {
        self.next_image_key
    }

    pub fn new() -> (r: Self)
        ensures
            r.log() == Seq::<Update<DefaultImageKey, DefaultFontKey, DefaultFontInstanceKey>>::empty(),
            r.next_key() == 0,
    {
        DefaultImageKeysAPI { up: ResourceUpdates::with_capacity(0), next_image_key: 0 }
    }

    /// Whether a key can still be allocated.
    pub fn has_key_left(&self) -> (r: bool)
        ensures
            r == (self.next_key() < u64::MAX),
    {
        self.next_image_key < u64::MAX
    }

    pub fn add_image(&mut self, encoded: ImageEncodedData, _resource: ImageResourceData) -> (r: DefaultImageKey)
        requires
            old(self).next_key() < u64::MAX,
        ensures
            r == DefaultImageKey(old(self).next_key()),
            final(self).next_key() == old(self).next_key() + 1,
            final(self).log().len() == old(self).log().len() + 1,
            final(self).log().drop_last() == old(self).log(),
            is_add_image(final(self).log().last(), r, image_uri_of(encoded)),
    {
        let image_key = DefaultImageKey(self.next_image_key);
        self.next_image_key = self.next_image_key + 1;
        let uri = match encoded {
            ImageEncodedData::Bytes { format, bytes } => to_image_data_uri(format.as_str(), bytes),
            ImageEncodedData::DataUri { data_uri } => data_uri.to_owned(),
        };
        self.up.add_image(image_key, uri);
        proof {
            assert(self.up.log().drop_last() =~= old(self).up.log());
        }
        image_key
    }

    /// Hands the log over and leaves an empty one in its place.
    pub fn take_resource_updates(&mut self) -> (r: DefaultResourceUpdates)
        ensures
            r.log() == old(self).log(),
            final(self).log() == Seq::<Update<DefaultImageKey, DefaultFontKey, DefaultFontInstanceKey>>::empty(),
            final(self).next_key() == old(self).next_key(),
    {
        let mut taken = ResourceUpdates::with_capacity(0);
        core::mem::swap(&mut taken, &mut self.up);
        taken
    }
}

/// Hands out font keys and font-instance keys, each in sequence from zero, and
/// logs each one.
#[derive(Debug)]
pub struct DefaultFontKeysAPI {
    up: DefaultResourceUpdates,
    next_font_key: u64,
    next_font_instance_key: u64,
}

impl DefaultFontKeysAPI {
    pub closed spec fn log(&self) -> Seq<Update<DefaultImageKey, DefaultFontKey, DefaultFontInstanceKey>> {
        self.up.log()
    }

    /// The font key that the next font allocation returns.
    pub closed spec fn next_key(&self) -> u64 {
        self.next_font_key
    }

    /// The instance key that the next instance allocation returns.
    pub closed spec fn next_instance_key(&self) -> u64 {
        self.next_font_instance_key
    }

    pub fn new() -> (r: Self)
        ensures
            r.log() == Seq::<Update<DefaultImageKey, DefaultFontKey, DefaultFontInstanceKey>>::empty(),
            r.next_key() == 0,
            r.next_instance_key() == 0,
    {
        DefaultFontKeysAPI {
            up: ResourceUpdates::with_capacity(0),
            next_font_key: 0,
            next_font_instance_key: 0,
        }
    }

    /// Whether a font key and an instance key can still be allocated.
    pub fn has_keys_left(&self) -> (r: bool)
        ensures
            r == (self.next_key() < u64::MAX && self.next_instance_key() < u64::MAX),
    {
        self.next_font_key < u64::MAX && self.next_font_instance_key < u64::MAX
    }

    /// Whether an instance key can still be allocated.
    pub fn has_instance_key_left(&self) -> (r: bool)
        ensures
            r == (self.next_instance_key() < u64::MAX),
    {
        self.next_font_instance_key < u64::MAX
    }

    pub fn add_font(&mut self, encoded: FontEncodedData, _resource: FontResourceData) -> (r: DefaultFontKey)
        requires
            old(self).next_key() < u64::MAX,
        ensures
            r == DefaultFontKey(old(self).next_key()),
            final(self).next_key() == old(self).next_key() + 1,
            final(self).next_instance_key() == old(self).next_instance_key(),
            final(self).log().len() == old(self).log().len() + 1,
            final(self).log().drop_last() == old(self).log(),
            is_add_font(final(self).log().last(), r, font_uri_of(encoded)),
    {
        let font_key = DefaultFontKey(self.next_font_key);
        self.next_font_key = self.next_font_key + 1;
        let uri = match encoded {
            FontEncodedData::Bytes { bytes } => to_font_data_uri(bytes),
            FontEncodedData::DataUri { data_uri } => data_uri.to_owned(),
        };
        self.up.add_font(font_key, uri);
        proof {
            assert(self.up.log().drop_last() =~= old(self).up.log());
        }
        font_key
    }

    pub fn add_font_instance(&mut self, font_key: DefaultFontKey, resource: FontInstanceResourceData) -> (r: DefaultFontInstanceKey)
        requires
            old(self).next_instance_key() < u64::MAX,
        ensures
            r == DefaultFontInstanceKey(old(self).next_instance_key()),
            final(self).next_instance_key() == old(self).next_instance_key() + 1,
            final(self).next_key() == old(self).next_key(),
            final(self).log() == old(self).log().push(
                Update::AddFontInstance { key: font_key, instance_key: r, size: resource.size },
            ),
    {
        let instance_key = DefaultFontInstanceKey(self.next_font_instance_key);
        self.next_font_instance_key = self.next_font_instance_key + 1;
        self.up.add_font_instance(instance_key, font_key, resource.size);
        instance_key
    }

    /// Hands the log over and leaves an empty one in its place.
    pub fn take_resource_updates(&mut self) -> (r: DefaultResourceUpdates)
        ensures
            r.log() == old(self).log(),
            final(self).log() == Seq::<Update<DefaultImageKey, DefaultFontKey, DefaultFontInstanceKey>>::empty(),
            final(self).next_key() == old(self).next_key(),
            final(self).next_instance_key() == old(self).next_instance_key(),
    {
        let mut taken = ResourceUpdates::with_capacity(0);
        core::mem::swap(&mut taken, &mut self.up);
        taken
    }
}

} // verus!
