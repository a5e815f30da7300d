//! Fonts: encoded and loaded fonts, the face registry, font instances with
//! their external keys, and text shaping with a per-instance cache.
//!
//! The font engine itself (loading faces, glyph indices, metrics) stays with the
//! caller: it hands in the family name of a face it loaded and the metrics of the
//! glyphs it measured, and this module keeps every decision over them.

use std::collections::HashMap;
use vstd::prelude::*;
use vstd::utf8::encode_utf8;
use crate::data_uri::{base64_decoded, data_uri_payload, font_data_uri, from_data_uri};
use crate::ids::FontId;
use crate::shared::{FontEncodedData, FontResourceData};
use crate::updates::font_uri_of;

verus! {

broadcast use vstd::std_specs::hash::group_hash_axioms;

#[derive(Debug, Copy, Clone, PartialEq, Eq, Structural)]
pub enum FontError {
    /// An error code of the font engine.
    FTError(i32),
    /// The engine reported a family name that is not UTF-8.
    Utf8Error,
    DataUriDecodeError,
    FaceAlreadyAdded,
    FontInstanceAlreadyAdded,
    FaceNotFound,
    FaceNotLoaded,
    FaceFamilyNameMissing,
    FaceSizeMissing,
    FaceGlyphMissing,
}

/// An encoded font: its bytes, and the data URI it came from if any.
#[derive(Debug)]
pub enum EncodedFont {
    Bytes { bytes: Vec<u8> },
    BytesAndDataUri { bytes: Vec<u8>, data_uri: String },
}

impl EncodedFont {
    pub open spec fn spec_bytes(&self) -> Seq<u8> {
        match self {
            EncodedFont::Bytes { bytes } => bytes@,
            EncodedFont::BytesAndDataUri { bytes, .. } => bytes@,
        }
    }

    /// The data URI that stands for this font in the update log.
    pub open spec fn uri(&self) -> Seq<char> {
        match self {
            EncodedFont::Bytes { bytes } => font_data_uri(bytes@),
            EncodedFont::BytesAndDataUri { data_uri, .. } => data_uri@,
        }
    }

    pub fn from_bytes(bytes: Vec<u8>) -> (r: Result<EncodedFont, FontError>)
        ensures
            r is Ok && r->Ok_0 == (EncodedFont::Bytes { bytes }),
    {
        Ok(EncodedFont::Bytes { bytes })
    }

    /// Decodes the base64 payload of a data URI, keeping the URI beside the bytes.
    pub fn from_data_uri(data_uri: String) -> (r: Result<EncodedFont, FontError>)
        ensures
            ({
                let decoded = base64_decoded(data_uri_payload(encode_utf8(data_uri@)));
                &&& decoded is None ==> r == Err::<EncodedFont, FontError>(FontError::DataUriDecodeError)
                &&& decoded is Some ==> r is Ok && (r->Ok_0 matches EncodedFont::BytesAndDataUri {
                    bytes,
                    data_uri: u,
                } && bytes@ == decoded->0 && u == data_uri)
            }),
    {
        let bytes = match from_data_uri(data_uri.as_str()) {
            Ok(bytes) => bytes,
            Err(_) => return Err(FontError::DataUriDecodeError),
        };
        Ok(EncodedFont::BytesAndDataUri { bytes, data_uri })
    }

    pub fn bytes(&self) -> (r: Option<&Vec<u8>>)
        ensures
            r is Some && r->0@ == self.spec_bytes(),
    {
        match self {
            EncodedFont::Bytes { bytes } => Some(bytes),
            EncodedFont::BytesAndDataUri { bytes, .. } => Some(bytes),
        }
    }

    pub fn data_uri(&self) -> (r: Option<&String>)
        ensures
            match self {
                EncodedFont::Bytes { .. } => r is None,
                EncodedFont::BytesAndDataUri { data_uri, .. } => r == Some(data_uri),
            },
    {
        match self {
            EncodedFont::Bytes { .. } => None,
            EncodedFont::BytesAndDataUri { data_uri, .. } => Some(data_uri),
        }
    }

    /// What the key allocator is told: the bytes, or the data URI when there is one.
    pub fn info(&self) -> (r: FontEncodedData<'_>)
        ensures
            font_uri_of(r) == self.uri(),
    {
        match self {
            EncodedFont::Bytes { bytes } => FontEncodedData::Bytes { bytes: bytes.as_slice() },
            EncodedFont::BytesAndDataUri { data_uri, .. } => FontEncodedData::DataUri {
                data_uri: data_uri.as_str(),
            },
        }
    }
}

/// The bytes of a font with the index of the face to load from them.
#[derive(Debug)]
pub struct DecodedFont {
    pub bytes: Vec<u8>,
    pub face_index: usize,
}

impl DecodedFont {
    pub fn from_raw_parts(bytes: Vec<u8>, face_index: usize) -> (r: DecodedFont)
        ensures
            r == (DecodedFont { bytes, face_index }),
    {
        DecodedFont { bytes, face_index }
    }

    pub fn from_encoded_font(encoded: &EncodedFont, face_index: usize) -> (r: DecodedFont)
        ensures
            r.bytes@ == encoded.spec_bytes(),
            r.face_index == face_index,
    {
        let bytes = match encoded {
            EncodedFont::Bytes { bytes } => bytes,
            EncodedFont::BytesAndDataUri { bytes, .. } => bytes,
        };
        let copy = vstd::slice::slice_to_vec(bytes.as_slice());
        Self::from_raw_parts(copy, face_index)
    }

    pub fn info(&self) -> (r: FontResourceData<'_>)
        ensures
            r.bytes@ == self.bytes@,
            r.face_index == self.face_index,
    {
        FontResourceData { bytes: self.bytes.as_slice(), face_index: self.face_index }
    }
}

/// A face that the engine loaded: the bytes it was loaded from, its index in
/// them, and the family name the engine read from it.
#[derive(Debug)]
pub struct FontFace {
    bytes: Vec<u8>,
    face_index: usize,
    family_name: String,
}

impl FontFace {
    pub closed spec fn spec_bytes(&self) -> Seq<u8> {
        self.bytes@
    }

    pub closed spec fn spec_face_index(&self) -> usize {
        self.face_index
    }

    pub closed spec fn spec_family_name(&self) -> Seq<char> {
        self.family_name@
    }

    pub fn new(bytes: Vec<u8>, face_index: usize, family_name: String) -> (r: FontFace)
        ensures
            r.spec_bytes() == bytes@,
            r.spec_face_index() == face_index,
            r.spec_family_name() == family_name@,
    {
        FontFace { bytes, face_index, family_name }
    }

    pub fn get_bytes(&self) -> (r: &Vec<u8>)
        ensures
            r@ == self.spec_bytes(),
    {
        &self.bytes
    }

    pub fn get_face_index(&self) -> (r: usize)
        ensures
            r == self.spec_face_index(),
    {
        self.face_index
    }

    pub fn get_family_name(&self) -> (r: &str)
        ensures
            r@ == self.spec_family_name(),
    {
        self.family_name.as_str()
    }
}

/// The faces that were loaded, by font identity.
#[derive(Debug)]
pub struct FontContext {
    faces: HashMap<u64, FontFace>,
}

impl FontContext {
    /// The loaded faces, by the value of their font identity.
    pub closed spec fn faces(&self) -> Map<u64, FontFace> {
        self.faces@
    }

    pub fn new() -> (r: Result<FontContext, FontError>)
        ensures
            r is Ok,
            r->Ok_0.faces() == Map::<u64, FontFace>::empty(),
    {
        Ok(FontContext { faces: HashMap::new() })
    }

    pub fn has_face(&self, font_id: FontId) -> (r: bool)
        ensures
            r == self.faces().contains_key(font_id.0),
    {
        self.faces.contains_key(&font_id.0)
    }

    /// Records a loaded face; a font identity holds one face at most.
    pub fn add_face(&mut self, font_id: FontId, bytes: Vec<u8>, face_index: usize, family_name: String) -> (r: Result<(), FontError>)
        ensures
            old(self).faces().contains_key(font_id.0) ==> r == Err::<(), FontError>(FontError::FaceAlreadyAdded)
                && final(self).faces() == old(self).faces(),
            !old(self).faces().contains_key(font_id.0) ==> r is Ok && final(self).faces()
                == old(self).faces().insert(font_id.0, final(self).faces()[font_id.0])
                && final(self).faces()[font_id.0].spec_bytes() == bytes@
                && final(self).faces()[font_id.0].spec_face_index() == face_index
                && final(self).faces()[font_id.0].spec_family_name() == family_name@,
    {
        if self.faces.contains_key(&font_id.0) {
            return Err(FontError::FaceAlreadyAdded);
        }
        self.faces.insert(font_id.0, FontFace::new(bytes, face_index, family_name));
        Ok(())
    }

    pub fn get_bytes(&self, font_id: FontId) -> (r: Result<&Vec<u8>, FontError>)
        ensures
            self.faces().contains_key(font_id.0) ==> r is Ok && r->Ok_0@ == self.faces()[font_id.0].spec_bytes(),
            !self.faces().contains_key(font_id.0) ==> r == Err::<&Vec<u8>, FontError>(FontError::FaceNotFound),
    {
        match self.faces.get(&font_id.0) {
            Some(face) => Ok(face.get_bytes()),
            None => Err(FontError::FaceNotFound),
        }
    }

    pub fn get_face_index(&self, font_id: FontId) -> (r: Result<usize, FontError>)
        ensures
            self.faces().contains_key(font_id.0) ==> r == Ok::<usize, FontError>(self.faces()[font_id.0].spec_face_index()),
            !self.faces().contains_key(font_id.0) ==> r == Err::<usize, FontError>(FontError::FaceNotFound),
    {
        match self.faces.get(&font_id.0) {
            Some(face) => Ok(face.get_face_index()),
            None => Err(FontError::FaceNotFound),
        }
    }

    pub fn get_family_name(&self, font_id: FontId) -> (r: Result<&str, FontError>)
        ensures
            self.faces().contains_key(font_id.0) ==> r is Ok && r->Ok_0@ == self.faces()[font_id.0].spec_family_name(),
            !self.faces().contains_key(font_id.0) ==> r == Err::<&str, FontError>(FontError::FaceNotFound),
    {
        match self.faces.get(&font_id.0) {
            Some(face) => Ok(face.get_family_name()),
            None => Err(FontError::FaceNotFound),
        }
    }
}

} // verus!
