//! The three caches of one content pass, held together.

use vstd::prelude::*;
use crate::files::FileCache;
use crate::font_cache::FontCache;
use crate::images::ImageCache;

verus! {

pub struct ResourceGroup {
    files: FileCache,
    images: ImageCache,
    fonts: FontCache,
}

impl ResourceGroup {
    pub closed spec fn spec_files(&self) -> FileCache {
        self.files
    }

    pub closed spec fn spec_images(&self) -> ImageCache {
        self.images
    }

    pub closed spec fn spec_fonts(&self) -> FontCache {
        self.fonts
    }

    pub fn new(files: FileCache, images: ImageCache, fonts: FontCache) -> (r: ResourceGroup)
        ensures
            r.spec_files() == files,
            r.spec_images() == images,
            r.spec_fonts() == fonts,
    {
        ResourceGroup { files, images, fonts }
    }

    pub fn files(&self) -> (r: &FileCache)
        ensures
            *r == self.spec_files(),
    {
        &self.files
    }

    pub fn images(&self) -> (r: &ImageCache)
        ensures
            *r == self.spec_images(),
    {
        &self.images
    }

    pub fn fonts(&self) -> (r: &FontCache)
        ensures
            *r == self.spec_fonts(),
    {
        &self.fonts
    }

    /// Takes the group apart, handing each cache back for exclusive use.
    pub fn into_parts(self) -> (r: (FileCache, ImageCache, FontCache))
        ensures
            r == (self.spec_files(), self.spec_images(), self.spec_fonts()),
    {
        (self.files, self.images, self.fonts)
    }
}

} // verus!
