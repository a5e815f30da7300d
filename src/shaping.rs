//! Glyph metrics, font instances, and the layout of shaped text.

use vstd::prelude::*;
use vstd::utf8::encode_utf8;
use crate::ids::{fnv64, fnv_hash, FontId};
use crate::updates::{DefaultFontInstanceKey, DefaultFontKey, DefaultGlyphInstance};

verus! {

/// Face-level metrics at a size: nominal width and height in whole pixels, the
/// rest in 1/64 pixel.
#[derive(Debug, Copy, Clone, PartialEq, Eq, Structural)]
pub struct FontSizeMetrics {
    pub nominal_width: u16,
    pub nominal_height: u16,
    pub ascender_64: i32,
    pub descender_64: i32,
    pub height_64: i32,
    pub max_advance_64: i32,
}

/// Metrics of one glyph at a size, in 1/64 pixel.
#[derive(Debug, Copy, Clone, PartialEq, Eq, Structural)]
pub struct GlyphDimensions {
    pub glyph_index: u32,
    pub width_64: i32,
    pub height_64: i32,
    pub hori_advance_64: i32,
    pub vert_advance_64: i32,
}

/// A font at a size and resolution, with its two external keys: the key of the
/// font, shared by all its instances, and the key of this instance.
#[derive(Debug, Copy, Clone)]
pub struct FontInstance {
    font_id: FontId,
    size: u32,
    dpi: u32,
    external_key: DefaultFontKey,
    external_instance_key: DefaultFontInstanceKey,
}

impl FontInstance {
    pub closed spec fn spec_font_id(&self) -> FontId {
        self.font_id
    }

    pub closed spec fn spec_size(&self) -> u32 {
        self.size
    }

    pub closed spec fn spec_dpi(&self) -> u32 {
        self.dpi
    }

    pub closed spec fn spec_key(&self) -> DefaultFontKey {
        self.external_key
    }

    pub closed spec fn spec_instance_key(&self) -> DefaultFontInstanceKey {
        self.external_instance_key
    }

    pub fn new(
        font_id: FontId,
        size: u32,
        dpi: u32,
        external_key: DefaultFontKey,
        external_instance_key: DefaultFontInstanceKey,
    ) -> (r: FontInstance)
        ensures
            r.spec_font_id() == font_id,
            r.spec_size() == size,
            r.spec_dpi() == dpi,
            r.spec_key() == external_key,
            r.spec_instance_key() == external_instance_key,
    {
        FontInstance { font_id, size, dpi, external_key, external_instance_key }
    }

    pub fn font_id(&self) -> (r: FontId)
        ensures
            r == self.spec_font_id(),
    {
        self.font_id
    }

    pub fn size(&self) -> (r: u32)
        ensures
            r == self.spec_size(),
    {
        self.size
    }

    pub fn dpi(&self) -> (r: u32)
        ensures
            r == self.spec_dpi(),
    {
        self.dpi
    }

    pub fn external_key(&self) -> (r: DefaultFontKey)
        ensures
            r == self.spec_key(),
    {
        self.external_key
    }

    pub fn external_instance_key(&self) -> (r: DefaultFontInstanceKey)
        ensures
            r == self.spec_instance_key(),
    {
        self.external_instance_key
    }
}

/// Two instances are the same resource when font, size and resolution agree.
impl PartialEq for FontInstance {
    fn eq(&self, other: &FontInstance) -> (r: bool) {
        self.font_id.0 == other.font_id.0 && self.size == other.size && self.dpi == other.dpi
    }
}

impl vstd::std_specs::cmp::PartialEqSpecImpl for FontInstance {
    open spec fn obeys_eq_spec() -> bool {
        true
    }

    open spec fn eq_spec(&self, other: &FontInstance) -> bool {
        self.spec_font_id() == other.spec_font_id() && self.spec_size() == other.spec_size()
            && self.spec_dpi() == other.spec_dpi()
    }
}

/// The glyphs of a shaped text, in order.
#[derive(Debug)]
pub struct GlyphsArray(pub Vec<DefaultGlyphInstance>);

/// The result of shaping one text for one instance in one direction.
#[derive(Debug)]
pub struct GlyphStore {
    font_key: DefaultFontKey,
    font_instance_key: DefaultFontInstanceKey,
    width_64: i32,
    height_64: i32,
    glyphs: GlyphsArray,
    generation_id: u64,
}

/// The content of a glyph store.
pub struct GlyphStoreView {
    pub font_key: DefaultFontKey,
    pub font_instance_key: DefaultFontInstanceKey,
    pub width_64: i32,
    pub height_64: i32,
    pub glyphs: Seq<DefaultGlyphInstance>,
    pub generation_id: u64,
}

impl View for GlyphStore {
    type V = GlyphStoreView;

    closed spec fn view(&self) -> GlyphStoreView {
        GlyphStoreView {
            font_key: self.font_key,
            font_instance_key: self.font_instance_key,
            width_64: self.width_64,
            height_64: self.height_64,
            glyphs: self.glyphs.0@,
            generation_id: self.generation_id,
        }
    }
}

impl Clone for GlyphStore {
    fn clone(&self) -> (r: GlyphStore)
        ensures
            r@ == self@,
    {
        let glyphs = self.glyphs.0.clone();
        proof {
            assert(glyphs@ =~= self.glyphs.0@);
        }
        GlyphStore {
            font_key: self.font_key,
            font_instance_key: self.font_instance_key,
            width_64: self.width_64,
            height_64: self.height_64,
            glyphs: GlyphsArray(glyphs),
            generation_id: self.generation_id,
        }
    }
}

/// Two stores are taken as equal when their generation ids agree; the id is a
/// hash of the text that the glyphs were shaped from.
impl PartialEq for GlyphStore {
    fn eq(&self, other: &GlyphStore) -> (r: bool) {
        self.generation_id == other.generation_id
    }
}

impl vstd::std_specs::cmp::PartialEqSpecImpl for GlyphStore {
    open spec fn obeys_eq_spec() -> bool {
        true
    }

    open spec fn eq_spec(&self, other: &GlyphStore) -> bool {
        self@.generation_id == other@.generation_id
    }
}

impl GlyphStore {
    pub fn font_key(&self) -> (r: DefaultFontKey)
        ensures
            r == self@.font_key,
    {
        self.font_key
    }

    pub fn font_instance_key(&self) -> (r: DefaultFontInstanceKey)
        ensures
            r == self@.font_instance_key,
    {
        self.font_instance_key
    }

    pub fn width_64(&self) -> (r: i32)
        ensures
            r == self@.width_64,
    {
        self.width_64
    }

    pub fn height_64(&self) -> (r: i32)
        ensures
            r == self@.height_64,
    {
        self.height_64
    }

    pub fn glyphs(&self) -> (r: &[DefaultGlyphInstance])
        ensures
            r@ == self@.glyphs,
    {
        self.glyphs.0.as_slice()
    }

    pub fn generation_id(&self) -> (r: u64)
        ensures
            r == self@.generation_id,
    {
        self.generation_id
    }
}

/// The generation id of a text: the hash of its UTF-8 bytes followed by 0xff.
pub open spec fn generation_id_of(text: Seq<char>) -> u64 {
    fnv64(encode_utf8(text).push(0xffu8))
}

pub fn generation_id(text: &str) -> (r: u64)
    ensures
        r == generation_id_of(text@),
{
    let mut bytes = vstd::slice::slice_to_vec(text.as_bytes());
    bytes.push(0xffu8);
    fnv_hash(bytes.as_slice())
}

/// Pen advance, in 1/64 pixel, after the first `n` glyphs of a horizontal line.
pub open spec fn pen_h(glyphs: Seq<GlyphDimensions>, n: int) -> int
    decreases n,
{
    if n <= 0 {
        0
    } else {
        pen_h(glyphs, n - 1) + glyphs[n - 1].hori_advance_64
    }
}

/// Pen advance, in 1/64 pixel, after the first `n` glyphs of a vertical line.
pub open spec fn pen_v(glyphs: Seq<GlyphDimensions>, n: int) -> int
    decreases n,
{
    if n <= 0 {
        0
    } else {
        pen_v(glyphs, n - 1) + glyphs[n - 1].vert_advance_64
    }
}

/// Every pen position of the horizontal line fits in an `i32`.
pub open spec fn fits_h(glyphs: Seq<GlyphDimensions>) -> bool {
    forall|n: int| 0 <= n <= glyphs.len() ==> i32::MIN <= #[trigger] pen_h(glyphs, n) <= i32::MAX
}

/// Every pen position of the vertical line fits in an `i32`.
pub open spec fn fits_v(glyphs: Seq<GlyphDimensions>) -> bool {
    forall|n: int| 0 <= n <= glyphs.len() ==> i32::MIN <= #[trigger] pen_v(glyphs, n) <= i32::MAX
}

/// Horizontal layout: each glyph at the pen, on the baseline at the ascender;
/// the store is as wide as the final pen position and as high as a line.
pub open spec fn layout_h(
    font: FontInstance,
    generation_id: u64,
    metrics: FontSizeMetrics,
    glyphs: Seq<GlyphDimensions>,
) -> GlyphStoreView {
    GlyphStoreView {
        font_key: font.spec_key(),
        font_instance_key: font.spec_instance_key(),
        width_64: pen_h(glyphs, glyphs.len() as int) as i32,
        height_64: metrics.height_64,
        glyphs: Seq::new(
            glyphs.len(),
            |i: int|
                DefaultGlyphInstance {
                    glyph_index: glyphs[i].glyph_index,
                    x_64: pen_h(glyphs, i) as i32,
                    y_64: metrics.ascender_64,
                },
        ),
        generation_id,
    }
}

/// Vertical layout: each glyph at the pen in a column at x = 0; the store is as
/// wide as the widest advance and as high as the final pen position.
pub open spec fn layout_v(
    font: FontInstance,
    generation_id: u64,
    metrics: FontSizeMetrics,
    glyphs: Seq<GlyphDimensions>,
) -> GlyphStoreView {
    GlyphStoreView {
        font_key: font.spec_key(),
        font_instance_key: font.spec_instance_key(),
        width_64: metrics.max_advance_64,
        height_64: pen_v(glyphs, glyphs.len() as int) as i32,
        glyphs: Seq::new(
            glyphs.len(),
            |i: int| DefaultGlyphInstance { glyph_index: glyphs[i].glyph_index, x_64: 0, y_64: pen_v(glyphs, i) as i32 },
        ),
        generation_id,
    }
}

/// Whether the horizontal pen positions of these glyphs fit in an `i32`.
pub fn advances_fit_h(glyphs: &Vec<GlyphDimensions>) -> (r: bool)
    ensures
        r == fits_h(glyphs@),
{
    let mut pen: i64 = 0;
    let mut i: usize = 0;
    while i < glyphs.len()
        invariant
            i <= glyphs@.len(),
            pen == pen_h(glyphs@, i as int),
            forall|n: int| 0 <= n <= i ==> i32::MIN <= #[trigger] pen_h(glyphs@, n) <= i32::MAX,
        decreases glyphs@.len() - i,
    {
        pen = pen + glyphs[i].hori_advance_64 as i64;
        if pen < i32::MIN as i64 || pen > i32::MAX as i64 {
            assert(!(i32::MIN <= pen_h(glyphs@, i + 1) <= i32::MAX));
            return false;
        }
        i = i + 1;
    }
    true
}

/// Whether the vertical pen positions of these glyphs fit in an `i32`.
pub fn advances_fit_v(glyphs: &Vec<GlyphDimensions>) -> (r: bool)
    ensures
        r == fits_v(glyphs@),
{
    let mut pen: i64 = 0;
    let mut i: usize = 0;
    while i < glyphs.len()
        invariant
            i <= glyphs@.len(),
            pen == pen_v(glyphs@, i as int),
            forall|n: int| 0 <= n <= i ==> i32::MIN <= #[trigger] pen_v(glyphs@, n) <= i32::MAX,
        decreases glyphs@.len() - i,
    {
        pen = pen + glyphs[i].vert_advance_64 as i64;
        if pen < i32::MIN as i64 || pen > i32::MAX as i64 {
            assert(!(i32::MIN <= pen_v(glyphs@, i + 1) <= i32::MAX));
            return false;
        }
        i = i + 1;
    }
    true
}

/// Lays glyphs out on a horizontal line.
pub fn lay_out_h(
    font: &FontInstance,
    generation_id: u64,
    metrics: &FontSizeMetrics,
    glyphs: &Vec<GlyphDimensions>,
) -> (r: GlyphStore)
    requires
        fits_h(glyphs@),
    ensures
        r@ == layout_h(*font, generation_id, *metrics, glyphs@),
{
    let mut placed: Vec<DefaultGlyphInstance> = Vec::with_capacity(glyphs.len());
    let mut pen: i32 = 0;
    let mut i: usize = 0;
    while i < glyphs.len()
        invariant
            fits_h(glyphs@),
            i <= glyphs@.len(),
            pen as int == pen_h(glyphs@, i as int),
            placed@ == layout_h(*font, generation_id, *metrics, glyphs@).glyphs.take(i as int),
        decreases glyphs@.len() - i,
    {
        let g = glyphs[i];
        placed.push(DefaultGlyphInstance::new(g.glyph_index, pen, metrics.ascender_64));
        assert(i32::MIN <= pen_h(glyphs@, i + 1) <= i32::MAX);
        pen = pen + g.hori_advance_64;
        i = i + 1;
        proof {
            assert(placed@ =~= layout_h(*font, generation_id, *metrics, glyphs@).glyphs.take(i as int));
        }
    }
    proof {
        assert(placed@ =~= layout_h(*font, generation_id, *metrics, glyphs@).glyphs);
    }
    GlyphStore {
        font_key: font.external_key,
        font_instance_key: font.external_instance_key,
        width_64: pen,
        height_64: metrics.height_64,
        glyphs: GlyphsArray(placed),
        generation_id,
    }
}

/// Lays glyphs out in a vertical column.
pub fn lay_out_v(
    font: &FontInstance,
    generation_id: u64,
    metrics: &FontSizeMetrics,
    glyphs: &Vec<GlyphDimensions>,
) -> (r: GlyphStore)
    requires
        fits_v(glyphs@),
    ensures
        r@ == layout_v(*font, generation_id, *metrics, glyphs@),
{
    let mut placed: Vec<DefaultGlyphInstance> = Vec::with_capacity(glyphs.len());
    let mut pen: i32 = 0;
    let mut i: usize = 0;
    while i < glyphs.len()
        invariant
            fits_v(glyphs@),
            i <= glyphs@.len(),
            pen as int == pen_v(glyphs@, i as int),
            placed@ == layout_v(*font, generation_id, *metrics, glyphs@).glyphs.take(i as int),
        decreases glyphs@.len() - i,
    {
        let g = glyphs[i];
        placed.push(DefaultGlyphInstance::new(g.glyph_index, 0, pen));
        assert(i32::MIN <= pen_v(glyphs@, i + 1) <= i32::MAX);
        pen = pen + g.vert_advance_64;
        i = i + 1;
        proof {
            assert(placed@ =~= layout_v(*font, generation_id, *metrics, glyphs@).glyphs.take(i as int));
        }
    }
    proof {
        assert(placed@ =~= layout_v(*font, generation_id, *metrics, glyphs@).glyphs);
    }
    GlyphStore {
        font_key: font.external_key,
        font_instance_key: font.external_instance_key,
        width_64: metrics.max_advance_64,
        height_64: pen,
        glyphs: GlyphsArray(placed),
        generation_id,
    }
}

} // verus!
