//! The font cache: loaded faces, font instances by identity with their external
//! keys, the default font, and the shaping caches of each instance.

use std::collections::HashMap;
use vstd::prelude::*;
use crate::fonts::{DecodedFont, EncodedFont, FontContext, FontError, FontFace};
use crate::ids::{name_identity, FontId, FontInstanceId, DEFAULT_FONT_DPI, DEFAULT_FONT_SIZE};
use crate::shaping::{
    fits_h, fits_v, generation_id, generation_id_of, lay_out_h, lay_out_v, layout_h, layout_v,
    FontInstance, FontSizeMetrics, GlyphDimensions, GlyphStore, GlyphStoreView,
};
use crate::shared::FontInstanceResourceData;
use crate::updates::{
    is_add_font, DefaultFontInstanceKey, DefaultFontKey, DefaultFontKeysAPI, DefaultImageKey, DefaultResourceUpdates,
    Update,
};

verus! {

broadcast use vstd::std_specs::hash::group_hash_axioms;

/// Shaped texts by instance key, then by generation id.
type ShapeCache = HashMap<u64, HashMap<u64, GlyphStore>>;

/// The store that a shaping cache holds for an instance key and generation id.
pub open spec fn lookup_shaped(m: Map<u64, HashMap<u64, GlyphStore>>, key: u64, gen: u64) -> Option<GlyphStoreView> {
    if m.contains_key(key) && m[key]@.contains_key(gen) {
        Some(m[key]@[gen]@)
    } else {
        None
    }
}

/// Every store of a shaping cache sits under its own instance key and generation id.
pub open spec fn shape_cache_wf(m: Map<u64, HashMap<u64, GlyphStore>>) -> bool {
    forall|k: u64, g: u64| #[trigger]
        lookup_shaped(m, k, g) matches Some(s) ==> s.generation_id == g && s.font_instance_key.0 == k
}

/// The identity of the instance that is registered when a font of this family is added.
pub open spec fn default_instance_id(family: Seq<char>) -> FontInstanceId {
    FontInstanceId { family_name: name_identity(family), size: DEFAULT_FONT_SIZE, dpi: DEFAULT_FONT_DPI }
}

/// The instance of the same family at the default size and resolution.
pub open spec fn base_of(id: FontInstanceId) -> FontInstanceId {
    FontInstanceId { family_name: id.family_name, size: DEFAULT_FONT_SIZE, dpi: DEFAULT_FONT_DPI }
}

fn lookup_store(cache: &ShapeCache, key: u64, gen: u64) -> (r: Option<GlyphStore>)
    ensures
        r matches Some(s) ==> lookup_shaped(cache@, key, gen) == Some(s@),
        r is None ==> lookup_shaped(cache@, key, gen) is None,
{
    match cache.get(&key) {
        Some(inner) => match inner.get(&gen) {
            Some(store) => Some(store.clone()),
            None => None,
        },
        None => None,
    }
}

fn insert_store(cache: &mut ShapeCache, key: u64, gen: u64, store: GlyphStore)
    ensures
        forall|k: u64, g: u64| #[trigger]
            lookup_shaped(final(cache)@, k, g) == if k == key && g == gen {
                Some(store@)
            } else {
                lookup_shaped(old(cache)@, k, g)
            },
{
    let ghost view = store@;
    let mut inner = match cache.remove(&key) {
        Some(inner) => inner,
        None => HashMap::new(),
    };
    inner.insert(gen, store);
    cache.insert(key, inner);
    assert forall|k: u64, g: u64| #[trigger]
        lookup_shaped(cache@, k, g) == if k == key && g == gen {
            Some(view)
        } else {
            lookup_shaped(old(cache)@, k, g)
        } by {}
}

/// Fonts with their faces, instances and keys.
pub struct FontCache {
    api: DefaultFontKeysAPI,
    context: FontContext,
    instances: Vec<(FontInstanceId, FontInstance)>,
    instance_map: Ghost<Map<FontInstanceId, FontInstance>>,
    default_font: Option<FontInstanceId>,
    shaped_text_h_cache: ShapeCache,
    shaped_text_v_cache: ShapeCache,
}

impl FontCache {
    pub closed spec fn api(&self) -> DefaultFontKeysAPI {
        self.api
    }

    /// The loaded faces, by the value of their font identity.
    pub closed spec fn faces(&self) -> Map<u64, FontFace> {
        self.context.faces()
    }

    /// The registered font instances.
    pub closed spec fn instances(&self) -> Map<FontInstanceId, FontInstance> {
        self.instance_map@
    }

    pub closed spec fn default_font(&self) -> Option<FontInstanceId> {
        self.default_font
    }

    /// The horizontally shaped text cached for an instance key and generation id.
    pub closed spec fn shaped_h(&self, key: u64, gen: u64) -> Option<GlyphStoreView> {
        lookup_shaped(self.shaped_text_h_cache@, key, gen)
    }

    /// The vertically shaped text cached for an instance key and generation id.
    pub closed spec fn shaped_v(&self, key: u64, gen: u64) -> Option<GlyphStoreView> {
        lookup_shaped(self.shaped_text_v_cache@, key, gen)
    }

    /// The ghost map holds exactly the registered instances.
    closed spec fn instances_wf(&self) -> bool {
        &&& forall|k: FontInstanceId|
            self.instance_map@.contains_key(k) ==> exists|i: int|
                0 <= i < self.instances@.len() && (#[trigger] self.instances@[i]).0 == k
        &&& forall|i: int|
            0 <= i < self.instances@.len() ==> self.instance_map@.contains_key(
                (#[trigger] self.instances@[i]).0,
            ) && self.instance_map@[self.instances@[i].0] == self.instances@[i].1
        &&& forall|k: FontInstanceId| #[trigger]
            self.instance_map@.contains_key(k) ==> Self::consistent(self.instance_map@, k)
    }

    /// A registered instance has its identity's size and resolution, and its
    /// family's instance at the default size and resolution is registered with
    /// the same font and font key.
    pub open spec fn consistent(m: Map<FontInstanceId, FontInstance>, k: FontInstanceId) -> bool {
        &&& m.contains_key(base_of(k))
        &&& m[k].spec_font_id() == m[base_of(k)].spec_font_id()
        &&& m[k].spec_key() == m[base_of(k)].spec_key()
        &&& m[k].spec_size() == k.size
        &&& m[k].spec_dpi() == k.dpi
    }

    /// Every key of a registered instance was handed out before: it is below
    /// the allocator's counter.
    closed spec fn keys_wf(&self) -> bool {
        forall|k: FontInstanceId| #[trigger]
            self.instance_map@.contains_key(k) ==> self.instance_map@[k].spec_instance_key().0
                < self.api.next_instance_key() && self.instance_map@[k].spec_key().0 < self.api.next_key()
    }

    pub closed spec fn wf(&self) -> bool {
        &&& self.instances_wf()
        &&& self.keys_wf()
        &&& shape_cache_wf(self.shaped_text_h_cache@)
        &&& shape_cache_wf(self.shaped_text_v_cache@)
    }

    proof fn lemma_instances_frame(a: FontCache, b: FontCache)
        requires
            a.instances_wf(),
            a.keys_wf(),
            b.instances == a.instances,
            b.instance_map == a.instance_map,
            b.api.next_key() >= a.api.next_key(),
            b.api.next_instance_key() >= a.api.next_instance_key(),
        ensures
            b.instances_wf(),
            b.keys_wf(),
    {
        assert forall|k: FontInstanceId| #[trigger] b.instance_map@.contains_key(k) implies
            b.instance_map@[k].spec_instance_key().0 < b.api.next_instance_key()
            && b.instance_map@[k].spec_key().0 < b.api.next_key() by {
            assert(a.instance_map@.contains_key(k));
        }
        assert forall|k: FontInstanceId| b.instance_map@.contains_key(k) implies exists|i: int|
            0 <= i < b.instances@.len() && (#[trigger] b.instances@[i]).0 == k by {
            assert(a.instance_map@.contains_key(k));
        }
    }

    /// Everything but the shaping caches is as in `other`.
    pub open spec fn same_fonts(&self, other: FontCache) -> bool {
        &&& self.api() == other.api()
        &&& self.faces() == other.faces()
        &&& self.instances() == other.instances()
        &&& self.default_font() == other.default_font()
    }

    /// Both shaping caches are as in `other`.
    pub open spec fn same_shapes(&self, other: FontCache) -> bool {
        &&& forall|k: u64, g: u64| #[trigger] self.shaped_h(k, g) == other.shaped_h(k, g)
        &&& forall|k: u64, g: u64| #[trigger] self.shaped_v(k, g) == other.shaped_v(k, g)
    }

    /// What `add_font(font_id, encoded, face_index, family)` does, `family` being
    /// the family name that the engine read from the face. A known font identity is
    /// refused, and so is a family whose default instance is already registered;
    /// a refusal changes nothing. Otherwise the face is recorded, the instance at
    /// the default size and resolution is registered under a new font key and a
    /// new instance key, both allocations are logged, and the instance becomes
    /// the default font if there was none.
    pub open spec fn add_font_effect(
        before: FontCache,
        after: FontCache,
        font_id: FontId,
        encoded: EncodedFont,
        face_index: usize,
        family: Seq<char>,
        r: Result<(), FontError>,
    ) -> bool {
        let id = default_instance_id(family);
        if before.faces().contains_key(font_id.0) {
            r == Err::<(), FontError>(FontError::FaceAlreadyAdded) && after == before
        } else if before.instances().contains_key(id) {
            r == Err::<(), FontError>(FontError::FontInstanceAlreadyAdded) && after == before
        } else {
            let key = DefaultFontKey(before.api().next_key());
            let instance_key = DefaultFontInstanceKey(before.api().next_instance_key());
            let face = after.faces()[font_id.0];
            let instance = after.instances()[id];
            let n = before.api().log().len() as int;
            &&& r is Ok
            &&& after.faces() == before.faces().insert(font_id.0, face)
            &&& face.spec_bytes() == encoded.spec_bytes()
            &&& face.spec_face_index() == face_index
            &&& face.spec_family_name() == family
            &&& after.instances() == before.instances().insert(id, instance)
            &&& instance.spec_font_id() == font_id
            &&& instance.spec_size() == DEFAULT_FONT_SIZE
            &&& instance.spec_dpi() == DEFAULT_FONT_DPI
            &&& instance.spec_key() == key
            &&& instance.spec_instance_key() == instance_key
            &&& forall|k: FontInstanceId| #[trigger]
                before.instances().contains_key(k) ==> before.instances()[k].spec_instance_key()
                    != instance_key && before.instances()[k].spec_key() != key
            &&& after.default_font() == if before.default_font() is None {
                Some(id)
            } else {
                before.default_font()
            }
            &&& after.api().next_key() == before.api().next_key() + 1
            &&& after.api().next_instance_key() == before.api().next_instance_key() + 1
            &&& after.api().log().len() == n + 2
            &&& after.api().log().take(n) == before.api().log()
            &&& is_add_font(after.api().log()[n], key, encoded.uri())
            &&& after.api().log()[n + 1] == Update::<DefaultImageKey, DefaultFontKey, DefaultFontInstanceKey>::AddFontInstance {
                key,
                instance_key,
                size: DEFAULT_FONT_SIZE,
            }
            &&& after.same_shapes(before)
        }
    }

    /// What `get_or_insert_font(id)` does. Nothing is found when the family has
    /// no instance at the default size and resolution, that is, when no font of
    /// the family was added. A registered instance is returned as it is.
    /// Otherwise an instance of the same font is registered at the requested
    /// size and resolution, with the font's key and a new instance key, whose
    /// allocation is logged.
    pub open spec fn get_or_insert_effect(
        before: FontCache,
        after: FontCache,
        id: FontInstanceId,
        r: Option<FontInstance>,
    ) -> bool {
        let base = base_of(id);
        if !before.instances().contains_key(base) {
            r is None && after == before
        } else if before.instances().contains_key(id) {
            let b = before.instances()[base];
            &&& r == Some(before.instances()[id])
            &&& after == before
            &&& r->0.spec_font_id() == b.spec_font_id()
            &&& r->0.spec_key() == b.spec_key()
            &&& r->0.spec_size() == id.size
            &&& r->0.spec_dpi() == id.dpi
        } else {
            let b = before.instances()[base];
            let instance = r->0;
            let instance_key = DefaultFontInstanceKey(before.api().next_instance_key());
            &&& r is Some
            &&& instance.spec_font_id() == b.spec_font_id()
            &&& instance.spec_size() == id.size
            &&& instance.spec_dpi() == id.dpi
            &&& instance.spec_key() == b.spec_key()
            &&& instance.spec_instance_key() == instance_key
            &&& forall|k: FontInstanceId| #[trigger]
                before.instances().contains_key(k) ==> before.instances()[k].spec_instance_key()
                    != instance_key
            &&& after.instances() == before.instances().insert(id, instance)
            &&& after.api().next_instance_key() == before.api().next_instance_key() + 1
            &&& after.api().next_key() == before.api().next_key()
            &&& after.api().log() == before.api().log().push(
                Update::AddFontInstance { key: b.spec_key(), instance_key, size: id.size },
            )
            &&& after.faces() == before.faces()
            &&& after.default_font() == before.default_font()
            &&& after.same_shapes(before)
        }
    }

    /// What `shape_text_h(font, text, metrics, glyphs)` does: a text already
    /// shaped for the instance is served from the cache and nothing changes;
    /// otherwise the glyphs are laid out on a line, and the store is cached
    /// under the instance key and the text's generation id.
    pub open spec fn shape_h_effect(
        before: FontCache,
        after: FontCache,
        font: FontInstance,
        text: Seq<char>,
        metrics: FontSizeMetrics,
        glyphs: Seq<GlyphDimensions>,
        r: GlyphStoreView,
    ) -> bool {
        let key = font.spec_instance_key().0;
        let gen = generation_id_of(text);
        match before.shaped_h(key, gen) {
            Some(s) => r == s && after == before,
            None => {
                &&& r == layout_h(font, gen, metrics, glyphs)
                &&& after.same_fonts(before)
                &&& forall|k: u64, g: u64| #[trigger]
                    after.shaped_h(k, g) == if k == key && g == gen {
                        Some(r)
                    } else {
                        before.shaped_h(k, g)
                    }
                &&& forall|k: u64, g: u64| #[trigger] after.shaped_v(k, g) == before.shaped_v(k, g)
            },
        }
    }

    /// What `shape_text_v(font, text, metrics, glyphs)` does: as for horizontal
    /// shaping, with the glyphs laid out in a column and the vertical cache.
    pub open spec fn shape_v_effect(
        before: FontCache,
        after: FontCache,
        font: FontInstance,
        text: Seq<char>,
        metrics: FontSizeMetrics,
        glyphs: Seq<GlyphDimensions>,
        r: GlyphStoreView,
    ) -> bool {
        let key = font.spec_instance_key().0;
        let gen = generation_id_of(text);
        match before.shaped_v(key, gen) {
            Some(s) => r == s && after == before,
            None => {
                &&& r == layout_v(font, gen, metrics, glyphs)
                &&& after.same_fonts(before)
                &&& forall|k: u64, g: u64| #[trigger]
                    after.shaped_v(k, g) == if k == key && g == gen {
                        Some(r)
                    } else {
                        before.shaped_v(k, g)
                    }
                &&& forall|k: u64, g: u64| #[trigger] after.shaped_h(k, g) == before.shaped_h(k, g)
            },
        }
    }

    pub fn new(api: DefaultFontKeysAPI) -> (r: Result<FontCache, FontError>)
        ensures
            r is Ok,
            r->Ok_0.wf(),
            r->Ok_0.api() == api,
            r->Ok_0.faces() == Map::<u64, FontFace>::empty(),
            r->Ok_0.instances() == Map::<FontInstanceId, FontInstance>::empty(),
            r->Ok_0.default_font() is None,
            forall|k: u64, g: u64| #[trigger] r->Ok_0.shaped_h(k, g) is None,
            forall|k: u64, g: u64| #[trigger] r->Ok_0.shaped_v(k, g) is None,
    {
        let context = match FontContext::new() {
            Ok(context) => context,
            Err(e) => return Err(e),
        };
        Ok(FontCache {
            api,
            context,
            instances: Vec::new(),
            instance_map: Ghost(Map::empty()),
            default_font: None,
            shaped_text_h_cache: HashMap::new(),
            shaped_text_v_cache: HashMap::new(),
        })
    }

    /// The registered instance with this identity, if any.
    fn find_instance(&self, id: FontInstanceId) -> (r: Option<FontInstance>)
        requires
            self.wf(),
        ensures
            self.instances().contains_key(id) ==> r == Some(self.instances()[id]),
            !self.instances().contains_key(id) ==> r is None,
    {
        let mut i: usize = 0;
        while i < self.instances.len()
            invariant
                self.wf(),
                i <= self.instances@.len(),
                forall|j: int| 0 <= j < i ==> (#[trigger] self.instances@[j]).0 != id,
            decreases self.instances@.len() - i,
        {
            let entry = self.instances[i];
            if entry.0 == id {
                return Some(entry.1);
            }
            i = i + 1;
        }
        None
    }

    /// Registers an instance under an identity that has none.
    fn register(&mut self, id: FontInstanceId, instance: FontInstance)
        requires
            old(self).wf(),
            !old(self).instances().contains_key(id),
            Self::consistent(old(self).instances().insert(id, instance), id),
            instance.spec_instance_key().0 < old(self).api().next_instance_key(),
            instance.spec_key().0 < old(self).api().next_key(),
        ensures
            final(self).wf(),
            final(self).instances() == old(self).instances().insert(id, instance),
            final(self).api() == old(self).api(),
            final(self).faces() == old(self).faces(),
            final(self).default_font() == old(self).default_font(),
            final(self).same_shapes(*old(self)),
    {
        self.instances.push((id, instance));
        self.instance_map = Ghost(self.instance_map@.insert(id, instance));
        assert forall|k: FontInstanceId|
            self.instance_map@.contains_key(k) implies exists|i: int|
                0 <= i < self.instances@.len() && (#[trigger] self.instances@[i]).0 == k by {
            if self.instance_map@.contains_key(k) && k != id {
                let i = choose|i: int| 0 <= i < old(self).instances@.len() && (#[trigger] old(self).instances@[i]).0 == k;
                assert(self.instances@[i] == old(self).instances@[i]);
            }
            if k == id {
                assert(self.instances@[self.instances@.len() - 1].0 == k);
            }
        }
        assert forall|i: int| 0 <= i < self.instances@.len() implies self.instance_map@.contains_key(
            (#[trigger] self.instances@[i]).0,
        ) && self.instance_map@[self.instances@[i].0] == self.instances@[i].1 by {
            if i < old(self).instances@.len() {
                assert(self.instances@[i] == old(self).instances@[i]);
            }
        }
        assert forall|k: FontInstanceId| #[trigger] self.instance_map@.contains_key(k) implies Self::consistent(
            self.instance_map@,
            k,
        ) by {
            if k != id {
                assert(old(self).instance_map@.contains_key(k));
                assert(Self::consistent(old(self).instance_map@, k));
                assert(base_of(k) != id);
            }
        }
        assert forall|k: FontInstanceId| #[trigger] self.instance_map@.contains_key(k) implies
            self.instance_map@[k].spec_instance_key().0 < self.api.next_instance_key()
            && self.instance_map@[k].spec_key().0 < self.api.next_key() by {
            if k != id {
                assert(old(self).instance_map@.contains_key(k));
            }
        }
    }

    pub fn has_face(&self, font_id: FontId) -> (r: bool)
        ensures
            r == self.faces().contains_key(font_id.0),
    {
        self.context.has_face(font_id)
    }

    /// Whether a font key and an instance key can still be allocated.
    pub fn has_keys_left(&self) -> (r: bool)
        ensures
            r == (self.api().next_key() < u64::MAX && self.api().next_instance_key() < u64::MAX),
    {
        self.api.has_keys_left()
    }

    /// Adds a font from its raw bytes; see `add_font`.
    pub fn add_raw(&mut self, font_id: FontId, bytes: Vec<u8>, face_index: usize, family_name: &str) -> (r: Result<(), FontError>)
        requires
            old(self).wf(),
            old(self).api().next_key() < u64::MAX,
            old(self).api().next_instance_key() < u64::MAX,
        ensures
            final(self).wf(),
            Self::add_font_effect(*old(self), *final(self), font_id, EncodedFont::Bytes { bytes }, face_index, family_name@, r),
    {
        let encoded = match EncodedFont::from_bytes(bytes) {
            Ok(encoded) => encoded,
            Err(e) => return Err(e),
        };
        self.add_font(font_id, &encoded, face_index, family_name)
    }

    /// Adds a font whose face the engine loaded from `encoded` at `face_index`
    /// and whose family name it read as `family_name`.
    pub fn add_font(&mut self, font_id: FontId, encoded: &EncodedFont, face_index: usize, family_name: &str) -> (r: Result<(), FontError>)
        requires
            old(self).wf(),
            old(self).api().next_key() < u64::MAX,
            old(self).api().next_instance_key() < u64::MAX,
        ensures
            final(self).wf(),
            Self::add_font_effect(*old(self), *final(self), font_id, *encoded, face_index, family_name@, r),
    {
        if self.context.has_face(font_id) {
            return Err(FontError::FaceAlreadyAdded);
        }
        let size = DEFAULT_FONT_SIZE;
        let dpi = DEFAULT_FONT_DPI;
        let font_instance_id = FontInstanceId::from_family_str(family_name, size, dpi);
        if self.find_instance(font_instance_id).is_some() {
            return Err(FontError::FontInstanceAlreadyAdded);
        }
        let ghost before = *self;
        let decoded = DecodedFont::from_encoded_font(encoded, face_index);
        let instance_data = FontInstanceResourceData::new(size, dpi);
        let external_key = self.api.add_font(encoded.info(), decoded.info());
        let external_instance_key = self.api.add_font_instance(external_key, instance_data);
        let added = self.context.add_face(font_id, decoded.bytes, face_index, family_name.to_owned());
        if self.default_font.is_none() {
            self.default_font = Some(font_instance_id);
        }
        let instance = FontInstance::new(font_id, size, dpi, external_key, external_instance_key);
        proof {
            Self::lemma_instances_frame(before, *self);
        }
        self.register(font_instance_id, instance);
        proof {
            let n = before.api().log().len();
            assert(self.api().log().take(n as int) =~= before.api().log());
            assert(self.api().log()[n as int] == self.api().log().drop_last()[n as int]);
        }
        Ok(())
    }

    pub fn get_family_name_for_id(&self, id: FontId) -> (r: Result<String, FontError>)
        ensures
            self.faces().contains_key(id.0) ==> r is Ok && r->Ok_0@ == self.faces()[id.0].spec_family_name(),
            !self.faces().contains_key(id.0) ==> r == Err::<String, FontError>(FontError::FaceNotFound),
    {
        match self.context.get_family_name(id) {
            Ok(name) => Ok(name.to_owned()),
            Err(e) => Err(e),
        }
    }

    /// Makes the instance of this family, size and resolution the default font.
    pub fn set_default_font(&mut self, family_name: &str, size: u32, dpi: u32)
        requires
            old(self).wf(),
        ensures
            final(self).wf(),
            final(self).default_font() == Some(
                FontInstanceId { family_name: name_identity(family_name@), size, dpi },
            ),
            final(self).api() == old(self).api(),
            final(self).faces() == old(self).faces(),
            final(self).instances() == old(self).instances(),
            final(self).same_shapes(*old(self)),
    {
        self.default_font = Some(FontInstanceId::from_family_str(family_name, size, dpi));
        proof {
            Self::lemma_instances_frame(*old(self), *self);
        }
    }

    /// The default font, if one is set and registered.
    pub fn get_default_font(&self) -> (r: Option<FontInstance>)
        requires
            self.wf(),
        ensures
            r == match self.default_font() {
                Some(id) => if self.instances().contains_key(id) {
                    Some(self.instances()[id])
                } else {
                    None
                },
                None => None,
            },
    {
        match self.default_font {
            Some(id) => self.find_instance(id),
            None => None,
        }
    }

    /// What `get_default_font_with_size(size)` does: nothing without a default
    /// font; otherwise `get_or_insert_font` on the default's family and
    /// resolution at the new size.
    pub open spec fn default_with_size_effect(
        before: FontCache,
        after: FontCache,
        size: u32,
        r: Option<FontInstance>,
    ) -> bool {
        match before.default_font() {
            None => r is None && after == before,
            Some(d) => Self::get_or_insert_effect(
                before,
                after,
                FontInstanceId { family_name: d.family_name, size, dpi: d.dpi },
                r,
            ),
        }
    }

    /// The default font's family at another size, registered on first request.
    pub fn get_default_font_with_size(&mut self, size: u32) -> (r: Option<FontInstance>)
        requires
            old(self).wf(),
            old(self).api().next_instance_key() < u64::MAX,
        ensures
            final(self).wf(),
            Self::default_with_size_effect(*old(self), *final(self), size, r),
    {
        match self.default_font {
            Some(id) => self.get_or_insert_font(id.resize(size)),
            None => None,
        }
    }

    /// The default font's family at another size and resolution, registered on
    /// first request.
    pub fn get_default_font_with_size_and_dpi(&mut self, size: u32, dpi: u32) -> (r: Option<FontInstance>)
        requires
            old(self).wf(),
            old(self).api().next_instance_key() < u64::MAX,
        ensures
            final(self).wf(),
            old(self).default_font() is None ==> r is None && *final(self) == *old(self),
            old(self).default_font() matches Some(d) ==> Self::get_or_insert_effect(
                *old(self),
                *final(self),
                FontInstanceId { family_name: d.family_name, size, dpi },
                r,
            ),
    {
        match self.default_font {
            Some(id) => self.get_or_insert_font(id.resize_dpi(size, dpi)),
            None => None,
        }
    }

    /// The instance with this identity, registered on first request as a
    /// variant of a font that was added.
    pub fn get_or_insert_font(&mut self, font_instance_id: FontInstanceId) -> (r: Option<FontInstance>)
        requires
            old(self).wf(),
            old(self).api().next_instance_key() < u64::MAX,
        ensures
            final(self).wf(),
            Self::get_or_insert_effect(*old(self), *final(self), font_instance_id, r),
    {
        let base_id = font_instance_id.resize_dpi(DEFAULT_FONT_SIZE, DEFAULT_FONT_DPI);
        let base = match self.find_instance(base_id) {
            Some(base) => base,
            None => return None,
        };
        match self.find_instance(font_instance_id) {
            Some(existing) => return Some(existing),
            None => {},
        }
        let size = font_instance_id.size;
        let dpi = font_instance_id.dpi;
        let instance_data = FontInstanceResourceData::new(size, dpi);
        let external_key = base.external_key();
        let external_instance_key = self.api.add_font_instance(external_key, instance_data);
        let instance = FontInstance::new(base.font_id(), size, dpi, external_key, external_instance_key);
        proof {
            Self::lemma_instances_frame(*old(self), *self);
        }
        self.register(font_instance_id, instance);
        Some(instance)
    }

    pub fn get_bytes(&self, font_id: FontId) -> (r: Result<&Vec<u8>, FontError>)
        ensures
            self.faces().contains_key(font_id.0) ==> r is Ok && r->Ok_0@ == self.faces()[font_id.0].spec_bytes(),
            !self.faces().contains_key(font_id.0) ==> r == Err::<&Vec<u8>, FontError>(FontError::FaceNotFound),
    {
        self.context.get_bytes(font_id)
    }

    pub fn get_face_index(&self, font_id: FontId) -> (r: Result<usize, FontError>)
        ensures
            self.faces().contains_key(font_id.0) ==> r == Ok::<usize, FontError>(self.faces()[font_id.0].spec_face_index()),
            !self.faces().contains_key(font_id.0) ==> r == Err::<usize, FontError>(FontError::FaceNotFound),
    {
        self.context.get_face_index(font_id)
    }

    pub fn get_family_name(&self, font_id: FontId) -> (r: Result<&str, FontError>)
        ensures
            self.faces().contains_key(font_id.0) ==> r is Ok && r->Ok_0@ == self.faces()[font_id.0].spec_family_name(),
            !self.faces().contains_key(font_id.0) ==> r == Err::<&str, FontError>(FontError::FaceNotFound),
    {
        self.context.get_family_name(font_id)
    }

    /// The store cached for this text on a line, if the instance shaped it before.
    pub fn shaped_text_h(&self, instance: &FontInstance, text: &str) -> (r: Option<GlyphStore>)
        ensures
            r matches Some(s) ==> self.shaped_h(instance.spec_instance_key().0, generation_id_of(text@)) == Some(s@),
            r is None ==> self.shaped_h(instance.spec_instance_key().0, generation_id_of(text@)) is None,
    {
        lookup_store(&self.shaped_text_h_cache, instance.external_instance_key().0, generation_id(text))
    }

    /// The store cached for this text in a column, if the instance shaped it before.
    pub fn shaped_text_v(&self, instance: &FontInstance, text: &str) -> (r: Option<GlyphStore>)
        ensures
            r matches Some(s) ==> self.shaped_v(instance.spec_instance_key().0, generation_id_of(text@)) == Some(s@),
            r is None ==> self.shaped_v(instance.spec_instance_key().0, generation_id_of(text@)) is None,
    {
        lookup_store(&self.shaped_text_v_cache, instance.external_instance_key().0, generation_id(text))
    }

    /// Shapes a text on a line. `metrics` are the instance's face metrics and
    /// `glyphs` the metrics of the text's characters, in order, as the engine
    /// gives them at the instance's size; they are read only when the text was
    /// not shaped for this instance before.
    pub fn shape_text_h(
        &mut self,
        instance: &FontInstance,
        text: &str,
        metrics: &FontSizeMetrics,
        glyphs: &Vec<GlyphDimensions>,
    ) -> (r: GlyphStore)
        requires
            old(self).wf(),
            glyphs@.len() == text@.len(),
            fits_h(glyphs@),
        ensures
            final(self).wf(),
            Self::shape_h_effect(*old(self), *final(self), *instance, text@, *metrics, glyphs@, r@),
    {
        let gen = generation_id(text);
        let key = instance.external_instance_key().0;
        match lookup_store(&self.shaped_text_h_cache, key, gen) {
            Some(store) => return store,
            None => {},
        }
        let store = lay_out_h(instance, gen, metrics, glyphs);
        insert_store(&mut self.shaped_text_h_cache, key, gen, store.clone());
        proof {
            Self::lemma_instances_frame(*old(self), *self);
        }
        assert(shape_cache_wf(self.shaped_text_h_cache@)) by {
            assert forall|k: u64, g: u64| #[trigger]
                lookup_shaped(self.shaped_text_h_cache@, k, g) is Some implies lookup_shaped(self.shaped_text_h_cache@, k, g)->0.generation_id == g
                    && lookup_shaped(self.shaped_text_h_cache@, k, g)->0.font_instance_key.0 == k by {
                if !(k == key && g == gen) {
                    assert(lookup_shaped(self.shaped_text_h_cache@, k, g) == lookup_shaped(old(self).shaped_text_h_cache@, k, g));
                }
            }
        }
        store
    }

    /// Shapes a text in a column; as `shape_text_h`, with vertical advances.
    pub fn shape_text_v(
        &mut self,
        instance: &FontInstance,
        text: &str,
        metrics: &FontSizeMetrics,
        glyphs: &Vec<GlyphDimensions>,
    ) -> (r: GlyphStore)
        requires
            old(self).wf(),
            glyphs@.len() == text@.len(),
            fits_v(glyphs@),
        ensures
            final(self).wf(),
            Self::shape_v_effect(*old(self), *final(self), *instance, text@, *metrics, glyphs@, r@),
    {
        let gen = generation_id(text);
        let key = instance.external_instance_key().0;
        match lookup_store(&self.shaped_text_v_cache, key, gen) {
            Some(store) => return store,
            None => {},
        }
        let store = lay_out_v(instance, gen, metrics, glyphs);
        insert_store(&mut self.shaped_text_v_cache, key, gen, store.clone());
        proof {
            Self::lemma_instances_frame(*old(self), *self);
        }
        assert(shape_cache_wf(self.shaped_text_v_cache@)) by {
            assert forall|k: u64, g: u64| #[trigger]
                lookup_shaped(self.shaped_text_v_cache@, k, g) is Some implies lookup_shaped(self.shaped_text_v_cache@, k, g)->0.generation_id == g
                    && lookup_shaped(self.shaped_text_v_cache@, k, g)->0.font_instance_key.0 == k by {
                if !(k == key && g == gen) {
                    assert(lookup_shaped(self.shaped_text_v_cache@, k, g) == lookup_shaped(old(self).shaped_text_v_cache@, k, g));
                }
            }
        }
        store
    }

    /// Drains the update log of the key allocator.
    pub fn take_resource_updates(&mut self) -> (r: DefaultResourceUpdates)
        requires
            old(self).wf(),
        ensures
            final(self).wf(),
            r.log() == old(self).api().log(),
            final(self).api().log().len() == 0,
            final(self).api().next_key() == old(self).api().next_key(),
            final(self).api().next_instance_key() == old(self).api().next_instance_key(),
            final(self).faces() == old(self).faces(),
            final(self).instances() == old(self).instances(),
            final(self).default_font() == old(self).default_font(),
    {
        let r = self.api.take_resource_updates();
        proof {
            Self::lemma_instances_frame(*old(self), *self);
        }
        r
    }
}

/// Adding a font twice under one identity: the first add succeeds when neither
/// the identity nor the family's default instance is known, the second is
/// refused and changes nothing (no instance, default or log entry), and the
/// face of the first add stays.
pub proof fn lemma_font_add_once(
    c0: FontCache,
    c1: FontCache,
    c2: FontCache,
    font_id: FontId,
    encoded: EncodedFont,
    again: EncodedFont,
    face_index: usize,
    family: Seq<char>,
    r1: Result<(), FontError>,
    r2: Result<(), FontError>,
)
    requires
        !c0.faces().contains_key(font_id.0),
        !c0.instances().contains_key(default_instance_id(family)),
        FontCache::add_font_effect(c0, c1, font_id, encoded, face_index, family, r1),
        FontCache::add_font_effect(c1, c2, font_id, again, face_index, family, r2),
    ensures
        r1 is Ok,
        r2 == Err::<(), FontError>(FontError::FaceAlreadyAdded),
        c2 == c1,
        c2.faces()[font_id.0] == c1.faces()[font_id.0],
        c2.faces()[font_id.0].spec_bytes() == encoded.spec_bytes(),
{
    assert(c1.faces().contains_key(font_id.0));
}

/// Once a font was added, asking twice for an instance of its family at any
/// size and resolution gives the same instance, with the font's key; only the
/// first request may allocate an instance key. For a family that has no
/// instance at the default size and resolution, as before any font of it was
/// added, nothing is returned and nothing changes.
pub proof fn lemma_font_instance_reuse(
    c0: FontCache,
    c1: FontCache,
    c2: FontCache,
    c3: FontCache,
    font_id: FontId,
    encoded: EncodedFont,
    face_index: usize,
    family: Seq<char>,
    size: u32,
    dpi: u32,
    r0: Result<(), FontError>,
    r1: Option<FontInstance>,
    r2: Option<FontInstance>,
)
    requires
        c0.wf(),
        FontCache::add_font_effect(c0, c1, font_id, encoded, face_index, family, r0),
        r0 is Ok,
        FontCache::get_or_insert_effect(
            c1,
            c2,
            FontInstanceId { family_name: name_identity(family), size, dpi },
            r1,
        ),
        FontCache::get_or_insert_effect(
            c2,
            c3,
            FontInstanceId { family_name: name_identity(family), size, dpi },
            r2,
        ),
    ensures
        r1 is Some,
        r2 == r1,
        r1->0.spec_font_id() == font_id,
        r1->0.spec_key() == DefaultFontKey(c0.api().next_key()),
        c3 == c2,
{
    let id = FontInstanceId { family_name: name_identity(family), size, dpi };
    assert(base_of(id) == default_instance_id(family));
    assert(c1.instances().contains_key(base_of(id)));
    if id != base_of(id) {
        assert(c0.instance_map@.contains_key(id) ==> c0.instance_map@.contains_key(base_of(id)));
    }
    assert(c2.instances().contains_key(id));
}

/// Asking for an instance of a family with no instance at the default size and
/// resolution gives nothing and changes nothing.
pub proof fn lemma_unknown_family(c0: FontCache, c1: FontCache, id: FontInstanceId, r: Option<FontInstance>)
    requires
        !c0.instances().contains_key(base_of(id)),
        FontCache::get_or_insert_effect(c0, c1, id, r),
    ensures
        r is None,
        c1 == c0,
{
}

/// Shaping a text twice on one instance on a line gives the same store, whose
/// generation id is that of the text. After the first call the store is in the
/// cache, so `shaped_text_h` finds it and the engine need not be asked for
/// metrics again; the second call changes nothing.
pub proof fn lemma_shaping_cache_hit_h(
    c0: FontCache,
    c1: FontCache,
    c2: FontCache,
    font: FontInstance,
    text: Seq<char>,
    metrics: FontSizeMetrics,
    glyphs: Seq<GlyphDimensions>,
    metrics_again: FontSizeMetrics,
    glyphs_again: Seq<GlyphDimensions>,
    r1: GlyphStoreView,
    r2: GlyphStoreView,
)
    requires
        c0.wf(),
        FontCache::shape_h_effect(c0, c1, font, text, metrics, glyphs, r1),
        FontCache::shape_h_effect(c1, c2, font, text, metrics_again, glyphs_again, r2),
    ensures
        c1.shaped_h(font.spec_instance_key().0, generation_id_of(text)) == Some(r1),
        r1.generation_id == generation_id_of(text),
        r2 == r1,
        c2 == c1,
{
    let key = font.spec_instance_key().0;
    let gen = generation_id_of(text);
    if c0.shaped_h(key, gen) is Some {
        assert(shape_cache_wf(c0.shaped_text_h_cache@));
        assert(lookup_shaped(c0.shaped_text_h_cache@, key, gen) is Some);
    } else {
        assert(c1.shaped_h(key, gen) == Some(r1));
    }
}

/// Shaping a text twice on one instance in a column gives the same store, whose
/// generation id is that of the text; the second call is served from the cache
/// and changes nothing.
pub proof fn lemma_shaping_cache_hit_v(
    c0: FontCache,
    c1: FontCache,
    c2: FontCache,
    font: FontInstance,
    text: Seq<char>,
    metrics: FontSizeMetrics,
    glyphs: Seq<GlyphDimensions>,
    metrics_again: FontSizeMetrics,
    glyphs_again: Seq<GlyphDimensions>,
    r1: GlyphStoreView,
    r2: GlyphStoreView,
)
    requires
        c0.wf(),
        FontCache::shape_v_effect(c0, c1, font, text, metrics, glyphs, r1),
        FontCache::shape_v_effect(c1, c2, font, text, metrics_again, glyphs_again, r2),
    ensures
        c1.shaped_v(font.spec_instance_key().0, generation_id_of(text)) == Some(r1),
        r1.generation_id == generation_id_of(text),
        r2 == r1,
        c2 == c1,
{
    let key = font.spec_instance_key().0;
    let gen = generation_id_of(text);
    if c0.shaped_v(key, gen) is Some {
        assert(shape_cache_wf(c0.shaped_text_v_cache@));
        assert(lookup_shaped(c0.shaped_text_v_cache@, key, gen) is Some);
    } else {
        assert(c1.shaped_v(key, gen) == Some(r1));
    }
}

/// The first font added becomes the default. Asking for the default font at
/// another size allocates exactly one instance key, logged once,
/// and returns the new instance; asking again returns the same instance and
/// allocates nothing.
pub proof fn lemma_default_font_resize(
    c0: FontCache,
    c1: FontCache,
    c2: FontCache,
    c3: FontCache,
    font_id: FontId,
    encoded: EncodedFont,
    face_index: usize,
    family: Seq<char>,
    size: u32,
    r0: Result<(), FontError>,
    r1: Option<FontInstance>,
    r2: Option<FontInstance>,
)
    requires
        c0.wf(),
        c0.default_font() is None,
        size != DEFAULT_FONT_SIZE,
        FontCache::add_font_effect(c0, c1, font_id, encoded, face_index, family, r0),
        r0 is Ok,
        FontCache::default_with_size_effect(c1, c2, size, r1),
        FontCache::default_with_size_effect(c2, c3, size, r2),
    ensures
        c1.default_font() == Some(default_instance_id(family)),
        r1 is Some,
        r1->0.spec_font_id() == font_id,
        r1->0.spec_size() == size,
        r1->0.spec_instance_key() == DefaultFontInstanceKey(c1.api().next_instance_key()),
        c2.api().next_instance_key() == c1.api().next_instance_key() + 1,
        c2.api().log().len() == c1.api().log().len() + 1,
        r2 == r1,
        c3 == c2,
{
    let id = FontInstanceId { family_name: name_identity(family), size, dpi: DEFAULT_FONT_DPI };
    assert(base_of(id) == default_instance_id(family));
    assert(c1.instances().contains_key(base_of(id)));
    assert(c0.instance_map@.contains_key(id) ==> c0.instance_map@.contains_key(base_of(id)));
    assert(!c1.instances().contains_key(id));
    assert(c2.instances().contains_key(id));
}

} // verus!
