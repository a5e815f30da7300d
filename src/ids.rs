//! Identities: 64-bit FNV hashes of a canonical input.

use std::hash::Hasher;
use vstd::prelude::*;
use vstd::string::*;
use vstd::utf8::encode_utf8;

verus! {

/// Nominal size, in pixels, of the instance that is registered when a font is added.
pub const DEFAULT_FONT_SIZE: u32 = 16;

/// Resolution, in dots per inch, of the instance that is registered when a font is added.
pub const DEFAULT_FONT_DPI: u32 = 72;

/// The 64-bit FNV-1a hash of a byte string.
pub uninterp spec fn fnv64(bytes: Seq<u8>) -> u64;

/// Relies on fnv's `FnvHasher` (`default`, `write`, `finish`): the hash that it
/// returns after one `write` depends on the bytes written alone.
#[verifier::external_body]
pub(crate) fn fnv_hash(bytes: &[u8]) -> (r: u64)
    ensures
        r == fnv64(bytes@),
{
    let mut hasher = fnv::FnvHasher::default();
    hasher.write(bytes);
    hasher.finish()
}

/// Relies on uuid's `Uuid::new_v4` and `Uuid::as_bytes`: a fresh random UUID,
/// which is sixteen bytes long.
#[verifier::external_body]
fn random_uuid_bytes() -> (r: Vec<u8>)
    ensures
        r@.len() == 16,
{
    uuid::Uuid::new_v4().as_bytes().to_vec()
}

/// The identity of a name: the hash of its UTF-8 bytes.
pub open spec fn name_identity(name: Seq<char>) -> u64 {
    fnv64(encode_utf8(name))
}

/// Hash of the UTF-8 bytes of `s`.
fn hash_str(s: &str) -> (r: u64)
    ensures
        r == name_identity(s@),
{
    fnv_hash(s.as_bytes())
}

/// Hash of sixteen fresh random bytes, for identities that stand for no name.
fn random_identity() -> (r: u64)
    ensures
        exists|b: Seq<u8>| b.len() == 16 && r == fnv64(b),
{
    let bytes = random_uuid_bytes();
    fnv_hash(bytes.as_slice())
}

/// Identity of a file: the hash of its canonical absolute path.
#[derive(Debug, Copy, Clone, PartialEq, Eq, Structural, PartialOrd, Ord, Hash)]
pub struct FileId(pub u64);

impl FileId {
    /// The identity of the file whose canonical absolute path has these bytes.
    pub fn new(canonical_path: &[u8]) -> (r: FileId)
        ensures
            r.0 == fnv64(canonical_path@),
    {
        FileId(fnv_hash(canonical_path))
    }
}

/// Identity of an image: the hash of its name.
#[derive(Debug, Copy, Clone, PartialEq, Eq, Structural, PartialOrd, Ord, Hash)]
pub struct ImageId(pub u64);

impl ImageId {
    pub fn new(src: &str) -> (r: ImageId)
        ensures
            r.0 == name_identity(src@),
    {
        ImageId(hash_str(src))
    }

    /// A synthetic identity drawn at random.
    pub fn uuid() -> (r: ImageId)
        ensures
            exists|b: Seq<u8>| b.len() == 16 && r.0 == fnv64(b),
    {
        ImageId(random_identity())
    }
}

/// Identity of a font: the hash of its name.
#[derive(Debug, Copy, Clone, PartialEq, Eq, Structural, PartialOrd, Ord, Hash)]
pub struct FontId(pub u64);

impl FontId {
    pub fn new(font_name: &str) -> (r: FontId)
        ensures
            r.0 == name_identity(font_name@),
    {
        FontId(hash_str(font_name))
    }

    /// A synthetic identity drawn at random.
    pub fn uuid() -> (r: FontId)
        ensures
            exists|b: Seq<u8>| b.len() == 16 && r.0 == fnv64(b),
    {
        FontId(random_identity())
    }
}

/// Identity of a font instance: a family (by the hash of its name), a nominal
/// pixel size and a resolution.
#[derive(Debug, Copy, Clone, PartialEq, Eq, Structural, PartialOrd, Ord, Hash)]
pub struct FontInstanceId {
    pub family_name: u64,
    pub size: u32,
    pub dpi: u32,
}

impl FontInstanceId {
    pub fn from_family_hash(family_name: u64, size: u32, dpi: u32) -> (r: FontInstanceId)
        ensures
            r == (FontInstanceId { family_name, size, dpi }),
    {
        FontInstanceId { family_name, size, dpi }
    }

    pub fn from_family_str(family_name: &str, size: u32, dpi: u32) -> (r: FontInstanceId)
        ensures
            r == (FontInstanceId { family_name: name_identity(family_name@), size, dpi }),
    {
        Self::from_family_hash(hash_str(family_name), size, dpi)
    }

    /// The same family and resolution at another size.
    pub fn resize(&self, size: u32) -> (r: FontInstanceId)
        ensures
            r == (FontInstanceId { family_name: self.family_name, size, dpi: self.dpi }),
    {
        Self::from_family_hash(self.family_name, size, self.dpi)
    }

    /// The same family at another size and resolution.
    pub fn resize_dpi(&self, size: u32, dpi: u32) -> (r: FontInstanceId)
        ensures
            r == (FontInstanceId { family_name: self.family_name, size, dpi }),
    {
        Self::from_family_hash(self.family_name, size, dpi)
    }
}

/// Identities are deterministic: equal canonical paths give equal file
/// identities, equal names give equal image and font identities, and so equal
/// font-instance identities at a size and resolution.
pub proof fn lemma_identity_deterministic(
    path: Seq<u8>,
    same_path: Seq<u8>,
    name: Seq<char>,
    same_name: Seq<char>,
    size: u32,
    dpi: u32,
)
    requires
        path == same_path,
        name == same_name,
    ensures
        FileId(fnv64(path)) == FileId(fnv64(same_path)),
        name_identity(name) == name_identity(same_name),
        (FontInstanceId { family_name: name_identity(name), size, dpi }) == (FontInstanceId {
            family_name: name_identity(same_name),
            size,
            dpi,
        }),
{
}

} // verus!
