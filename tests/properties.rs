use std::io::Cursor;

use rsx_resources::data_uri::{from_data_uri, to_font_data_uri, to_image_data_uri};
use rsx_resources::files::{FileCache, FileError};
use rsx_resources::font_cache::FontCache;
use rsx_resources::fonts::{EncodedFont, FontError};
use rsx_resources::ids::{FileId, FontId, FontInstanceId, ImageId, DEFAULT_FONT_DPI, DEFAULT_FONT_SIZE};
use rsx_resources::images::{get_dimensions, EncodedImage, ImageCache, ImageCacheError};
use rsx_resources::shaping::{advances_fit_h, generation_id, FontInstance, FontSizeMetrics, GlyphDimensions};
use rsx_resources::shared::{ChannelOrder, ImageEncodingFormat, ImagePixelFormat};
use rsx_resources::updates::{
    DefaultFontInstanceKey, DefaultFontKey, DefaultFontKeysAPI, DefaultImageKey, DefaultImageKeysAPI,
    ResourceUpdates, Update,
};

fn png(width: u32, height: u32) -> Vec<u8> {
    let image = image::RgbaImage::new(width, height);
    let mut bytes: Vec<u8> = Vec::new();
    image.write_to(&mut Cursor::new(&mut bytes), image::ImageFormat::Png).unwrap();
    bytes
}

fn gray_png(width: u32, height: u32) -> Vec<u8> {
    let image = image::GrayImage::new(width, height);
    let mut bytes: Vec<u8> = Vec::new();
    image.write_to(&mut Cursor::new(&mut bytes), image::ImageFormat::Png).unwrap();
    bytes
}

fn metrics() -> FontSizeMetrics {
    FontSizeMetrics {
        nominal_width: 16,
        nominal_height: 16,
        ascender_64: 1024,
        descender_64: -320,
        height_64: 1408,
        max_advance_64: 1536,
    }
}

fn glyphs(advances: &[i32]) -> Vec<GlyphDimensions> {
    advances
        .iter()
        .enumerate()
        .map(|(i, &a)| GlyphDimensions {
            glyph_index: i as u32 + 10,
            width_64: a,
            height_64: 700,
            hori_advance_64: a,
            vert_advance_64: 2 * a,
        })
        .collect()
}

#[test]
fn identity_is_fnv_of_the_name() {
    assert_eq!(ImageId::new("a").0, 12638187200555641996);
    assert_eq!(FontId::new("FreeSans").0, 16755564863194791892);
    assert_eq!(FileId::new(b"/tmp/x.png").0, 4131581141639837913);
}

#[test]
fn identity_is_deterministic() {
    assert_eq!(ImageId::new("Quantum"), ImageId::new("Quantum"));
    assert_eq!(ImageId::new("Quantum").0, 15560433036398624258);
    assert_ne!(ImageId::new("Quantum"), ImageId::new("Quantum2"));
    assert_eq!(
        FontInstanceId::from_family_str("FreeSans", 12, 96),
        FontInstanceId::from_family_str("FreeSans", 12, 96)
    );
}

#[test]
fn random_identities_differ() {
    assert_ne!(ImageId::uuid(), ImageId::uuid());
    assert_ne!(FontId::uuid(), FontId::uuid());
}

#[test]
fn resize_keeps_the_family() {
    let id = FontInstanceId::from_family_str("FreeSans", 12, 96);
    assert_eq!(id.resize(20), FontInstanceId::from_family_str("FreeSans", 20, 96));
    assert_eq!(id.resize_dpi(20, 72), FontInstanceId::from_family_str("FreeSans", 20, 72));
    assert_eq!(FontInstanceId::from_family_hash(5, 1, 2), FontInstanceId { family_name: 5, size: 1, dpi: 2 });
}

#[test]
fn image_data_uri_text() {
    let uri = to_image_data_uri("png", &[1, 2, 3, 250, 251]);
    assert_eq!(uri, "data:image/png;base64,AQID+vs=");
    assert_eq!(to_font_data_uri(&[1, 2, 3]), "data:application/x-font-woff;base64,AQID");
}

#[test]
fn data_uri_round_trip() {
    let bytes: Vec<u8> = (0..=255u8).collect();
    for format in ["png", "jpeg", "gif", "x-icon"] {
        let uri = to_image_data_uri(format, &bytes);
        assert_eq!(from_data_uri(&uri).unwrap(), bytes);
    }
    assert_eq!(from_data_uri(&to_font_data_uri(&bytes)).unwrap(), bytes);
    assert_eq!(from_data_uri(&to_image_data_uri("png", &[])).unwrap(), Vec::<u8>::new());
}

#[test]
fn data_uri_without_marker_is_decoded_whole() {
    assert_eq!(from_data_uri("AQID").unwrap(), vec![1, 2, 3]);
    assert!(from_data_uri("data:image/png;base64,%%%").is_err());
}

#[test]
fn file_add_once() {
    let mut files = FileCache::new().unwrap();
    let id = FileId::new(b"/a/b");
    assert!(files.get_file(id) == Err(FileError::FileNotFound));
    assert!(!files.has_file(id));
    assert!(files.add_file(id, vec![1, 2]).is_ok());
    assert!(files.add_file(id, vec![3]) == Err(FileError::FileAlreadyAdded));
    assert_eq!(files.get_file(id).unwrap(), &vec![1, 2]);
    assert!(files.has_file(id));
}

#[test]
fn image_add_once_and_log() {
    let mut images = ImageCache::new(DefaultImageKeysAPI::new()).unwrap();
    let bytes = png(3, 2);
    assert!(images.add_raw(ImageId::new("one"), bytes.clone()).is_ok());
    let second = images.add_raw(ImageId::new("one"), png(5, 5));
    assert!(matches!(second, Err(ImageCacheError::ImageAlreadyAdded)));
    assert!(images.add_raw(ImageId::new("two"), png(1, 1)).is_ok());

    let one = images.get_image("one").unwrap();
    assert_eq!((one.width(), one.height()), (3, 2));
    assert_eq!(one.pixels().len(), 3 * 2 * 4);
    assert_eq!(one.format(), ImagePixelFormat::RGBA(8));
    assert_eq!(get_dimensions(ImageEncodingFormat::PNG, &bytes).unwrap(), (one.width(), one.height()));
    assert_eq!(one.external_key(), DefaultImageKey(0));
    assert_eq!(images.get_image("two").unwrap().external_key(), DefaultImageKey(1));

    let dims = images.measure_image("one").unwrap();
    assert_eq!((dims.width(), dims.height(), dims.resource_key()), (3, 2, DefaultImageKey(0)));
    assert!(images.measure_image("three").is_none());

    let log = images.take_resource_updates();
    assert_eq!(log.len(), 2);
    match &log.updates[0] {
        Update::AddImage { key, data_uri } => {
            assert_eq!(*key, DefaultImageKey(0));
            assert_eq!(*data_uri, to_image_data_uri("png", &bytes));
        }
        _ => panic!("expected an image"),
    }
    assert!(images.take_resource_updates().is_empty());
}

#[test]
fn image_from_data_uri_logs_that_uri() {
    let mut images = ImageCache::new(DefaultImageKeysAPI::new()).unwrap();
    let uri = format!("data:image/png;base64,{}", "x");
    assert!(matches!(EncodedImage::from_data_uri(uri), Err(ImageCacheError::DataUriDecodeError)));
    let uri = to_image_data_uri("png", &png(2, 2));
    let encoded = EncodedImage::from_data_uri(uri.clone()).unwrap();
    assert_eq!(encoded.format(), Some(ImageEncodingFormat::PNG));
    assert_eq!(encoded.data_uri(), Some(&uri));
    assert!(images.add_image(ImageId::new("uri"), &encoded).is_ok());
    let log = images.take_resource_updates();
    match &log.updates[0] {
        Update::AddImage { data_uri, .. } => assert_eq!(*data_uri, uri),
        _ => panic!("expected an image"),
    }
}

#[test]
fn grayscale_decodes_to_gray8() {
    let mut images = ImageCache::new(DefaultImageKeysAPI::new()).unwrap();
    assert!(images.add_raw(ImageId::new("g"), gray_png(4, 3)).is_ok());
    let image = images.get_image("g").unwrap();
    assert_eq!(image.format(), ImagePixelFormat::Gray(8));
    assert_eq!(image.pixels().len(), 12);
}

#[test]
fn image_errors() {
    let mut images = ImageCache::new(DefaultImageKeysAPI::new()).unwrap();
    let unknown = images.add_raw(ImageId::new("x"), vec![1, 2, 3, 4, 5, 6, 7, 8, 9]);
    assert!(matches!(unknown, Err(ImageCacheError::LibError(_))));
    let dds = images.add_raw(ImageId::new("x"), b"DDS 0123456789".to_vec());
    assert!(matches!(dds, Err(ImageCacheError::UnsupportedFormat)));
    let mut broken = png(2, 2);
    broken.truncate(20);
    let bad = images.add_raw(ImageId::new("x"), broken);
    assert!(matches!(bad, Err(ImageCacheError::LibError(_))));
    assert!(images.get_image("x").is_none());
    assert!(images.take_resource_updates().is_empty());
}

#[test]
fn dimensions_from_header() {
    let bytes = png(7, 9);
    assert_eq!(EncodedImage::guess_format(&bytes).unwrap(), ImageEncodingFormat::PNG);
    assert_eq!(get_dimensions(ImageEncodingFormat::PNG, &bytes).unwrap(), (7, 9));
    assert_eq!(EncodedImage::get_dimensions(ImageEncodingFormat::PNG, &bytes).unwrap(), (7, 9));
    assert!(get_dimensions(ImageEncodingFormat::PNG, &[0, 1, 2]).is_err());
    assert_eq!(ImageEncodingFormat::JPEG.as_str(), "jpeg");
}

#[test]
fn update_log_operations() {
    let mut log: ResourceUpdates<u64, u64, u64> = ResourceUpdates::with_capacity(4);
    assert!(log.is_empty());
    log.add_image(1, "a".to_string());
    log.add_font(2, "b".to_string());
    let mut other: ResourceUpdates<u64, u64, u64> = ResourceUpdates::with_capacity(0);
    other.add_font_instance(3, 2, 16);
    log.merge(other);
    assert_eq!(log.len(), 3);
    assert!(matches!(log.updates[2], Update::AddFontInstance { key: 2, instance_key: 3, size: 16 }));
    assert!(matches!(log.updates[0], Update::AddImage { key: 1, .. }));
}

#[test]
fn font_add_once_and_log() {
    let mut fonts = FontCache::new(DefaultFontKeysAPI::new()).unwrap();
    let id = FontId::new("FreeSans");
    assert!(fonts.add_raw(id, vec![1, 2, 3], 0, "FreeSans").is_ok());
    assert!(fonts.add_raw(id, vec![9], 0, "FreeSans") == Err(FontError::FaceAlreadyAdded));
    assert!(fonts.add_raw(FontId::new("other"), vec![4], 0, "FreeSans") == Err(FontError::FontInstanceAlreadyAdded));
    assert!(!fonts.has_face(FontId::new("other")));
    assert_eq!(fonts.get_bytes(id).unwrap(), &vec![1, 2, 3]);
    assert_eq!(fonts.get_face_index(id).unwrap(), 0);
    assert_eq!(fonts.get_family_name(id).unwrap(), "FreeSans");
    assert_eq!(fonts.get_family_name_for_id(id).unwrap(), "FreeSans");
    assert!(fonts.get_family_name_for_id(FontId::new("none")) == Err(FontError::FaceNotFound));

    let log = fonts.take_resource_updates();
    assert_eq!(log.len(), 2);
    match &log.updates[0] {
        Update::AddFont { key, data_uri } => {
            assert_eq!(*key, DefaultFontKey(0));
            assert_eq!(*data_uri, to_font_data_uri(&[1, 2, 3]));
        }
        _ => panic!("expected a font"),
    }
    assert!(matches!(
        log.updates[1],
        Update::AddFontInstance { key: DefaultFontKey(0), instance_key: DefaultFontInstanceKey(0), size: DEFAULT_FONT_SIZE }
    ));
}

#[test]
fn font_from_data_uri() {
    let uri = to_font_data_uri(&[7, 8, 9]);
    let encoded = EncodedFont::from_data_uri(uri.clone()).unwrap();
    assert_eq!(encoded.bytes().unwrap(), &vec![7, 8, 9]);
    assert!(matches!(
        EncodedFont::from_data_uri("data:font;base64,!".to_string()),
        Err(FontError::DataUriDecodeError)
    ));
    let mut fonts = FontCache::new(DefaultFontKeysAPI::new()).unwrap();
    assert!(fonts.add_font(FontId::new("f"), &encoded, 0, "Family").is_ok());
    let log = fonts.take_resource_updates();
    match &log.updates[0] {
        Update::AddFont { data_uri, .. } => assert_eq!(*data_uri, uri),
        _ => panic!("expected a font"),
    }
}

#[test]
fn font_instance_reuse() {
    let mut fonts = FontCache::new(DefaultFontKeysAPI::new()).unwrap();
    assert!(fonts.get_or_insert_font(FontInstanceId::from_family_str("FreeSans", 30, 96)).is_none());
    assert!(fonts.add_raw(FontId::new("FreeSans"), vec![1], 0, "FreeSans").is_ok());
    let id = FontInstanceId::from_family_str("FreeSans", 30, 96);
    let first = fonts.get_or_insert_font(id).unwrap();
    let second = fonts.get_or_insert_font(id).unwrap();
    assert_eq!(first.external_instance_key(), DefaultFontInstanceKey(1));
    assert_eq!(second.external_instance_key(), first.external_instance_key());
    assert_eq!(first.external_key(), DefaultFontKey(0));
    assert_eq!((first.size(), first.dpi(), first.font_id()), (30, 96, FontId::new("FreeSans")));
    assert!(first == second);
    assert!(fonts.get_or_insert_font(FontInstanceId::from_family_str("Unknown", 30, 96)).is_none());
    assert_eq!(fonts.take_resource_updates().len(), 3);
}

#[test]
fn default_font_resize() {
    let mut fonts = FontCache::new(DefaultFontKeysAPI::new()).unwrap();
    assert!(fonts.get_default_font().is_none());
    assert!(fonts.get_default_font_with_size(20).is_none());
    assert!(fonts.add_raw(FontId::new("A"), vec![1], 0, "Alpha").is_ok());
    assert!(fonts.add_raw(FontId::new("B"), vec![2], 0, "Beta").is_ok());
    let default = fonts.get_default_font().unwrap();
    assert_eq!(default.font_id(), FontId::new("A"));
    assert_eq!((default.size(), default.dpi()), (DEFAULT_FONT_SIZE, DEFAULT_FONT_DPI));
    assert_eq!(fonts.take_resource_updates().len(), 4);

    let resized = fonts.get_default_font_with_size(20).unwrap();
    assert_eq!(resized.font_id(), FontId::new("A"));
    assert_eq!(resized.size(), 20);
    assert_eq!(resized.external_instance_key(), DefaultFontInstanceKey(2));
    assert_eq!(fonts.take_resource_updates().len(), 1);
    let again = fonts.get_default_font_with_size(20).unwrap();
    assert_eq!(again.external_instance_key(), DefaultFontInstanceKey(2));
    assert!(fonts.take_resource_updates().is_empty());

    let other = fonts.get_default_font_with_size_and_dpi(20, 144).unwrap();
    assert_eq!(other.external_instance_key(), DefaultFontInstanceKey(3));

    fonts.set_default_font("Beta", DEFAULT_FONT_SIZE, DEFAULT_FONT_DPI);
    assert_eq!(fonts.get_default_font().unwrap().font_id(), FontId::new("B"));
    fonts.set_default_font("Gamma", 12, 72);
    assert!(fonts.get_default_font().is_none());
}

#[test]
fn shaping_cache_hit() {
    let mut fonts = FontCache::new(DefaultFontKeysAPI::new()).unwrap();
    assert!(fonts.add_raw(FontId::new("A"), vec![1], 0, "Alpha").is_ok());
    let instance = fonts.get_default_font().unwrap();
    assert!(fonts.shaped_text_h(&instance, "abc").is_none());
    let first = fonts.shape_text_h(&instance, "abc", &metrics(), &glyphs(&[100, 200, 300]));
    assert_eq!(first.generation_id(), generation_id("abc"));
    let cached = fonts.shaped_text_h(&instance, "abc").unwrap();
    assert!(cached == first);
    assert_eq!(cached.width_64(), 600);
    let second = fonts.shape_text_h(&instance, "abc", &metrics(), &glyphs(&[1, 1, 1]));
    assert_eq!(second.generation_id(), first.generation_id());
    assert_eq!(second.width_64(), 600);
    assert!(fonts.shaped_text_v(&instance, "abc").is_none());
    let column = fonts.shape_text_v(&instance, "abc", &metrics(), &glyphs(&[100, 200, 300]));
    assert_eq!(column.height_64(), 1200);
    assert_eq!(column.width_64(), 1536);
}

#[test]
fn generation_id_is_fnv_of_text_and_terminator() {
    assert_eq!(generation_id("Hello world"), 11408128116885769000);
}

#[test]
fn shaped_width_is_sum_of_advances() {
    let mut fonts = FontCache::new(DefaultFontKeysAPI::new()).unwrap();
    let instance = FontInstance::new(FontId::new("FreeSans"), 16, 72, DefaultFontKey(4), DefaultFontInstanceKey(9));
    let advances = [739, 569, 227, 227, 569, 285, 739, 569, 341, 227, 569];
    let store = fonts.shape_text_h(&instance, "Hello world", &metrics(), &glyphs(&advances));
    assert_eq!(store.width_64(), advances.iter().sum::<i32>());
    assert_eq!(store.glyphs().len(), "Hello world".chars().count());
    assert_eq!(store.height_64(), 1408);
    assert_eq!(store.font_key(), DefaultFontKey(4));
    assert_eq!(store.font_instance_key(), DefaultFontInstanceKey(9));
    assert_eq!(store.glyphs()[3].x_64, 739 + 569 + 227);
    assert_eq!(store.glyphs()[3].y_64, 1024);
}

#[test]
fn advances_that_overflow_are_reported() {
    assert!(advances_fit_h(&glyphs(&[1, 2, 3])));
    assert!(!advances_fit_h(&glyphs(&[i32::MAX, 1])));
}

#[test]
fn bgra_policy_swaps_red_and_blue() {
    let mut source = image::RgbaImage::new(2, 1);
    source.put_pixel(0, 0, image::Rgba([10, 20, 30, 40]));
    source.put_pixel(1, 0, image::Rgba([1, 2, 3, 4]));
    let mut bytes: Vec<u8> = Vec::new();
    source.write_to(&mut Cursor::new(&mut bytes), image::ImageFormat::Png).unwrap();

    let mut bgra = ImageCache::with_channel_order(DefaultImageKeysAPI::new(), ChannelOrder::Bgra).unwrap();
    assert!(bgra.add_raw(ImageId::new("p"), bytes.clone()).is_ok());
    let image = bgra.get_image("p").unwrap();
    assert_eq!(image.format(), ImagePixelFormat::BGRA(8));
    assert_eq!(image.pixels(), &vec![30, 20, 10, 40, 3, 2, 1, 4]);

    let mut rgba = ImageCache::new(DefaultImageKeysAPI::new()).unwrap();
    assert!(rgba.add_raw(ImageId::new("p"), bytes).is_ok());
    assert_eq!(rgba.get_image("p").unwrap().pixels(), &vec![10, 20, 30, 40, 1, 2, 3, 4]);
}
