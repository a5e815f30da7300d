use std::io::Cursor;

use rsx_resources::data_uri::{from_data_uri, to_image_data_uri};
use rsx_resources::files::FileCache;
use rsx_resources::font_cache::FontCache;
use rsx_resources::ids::{FileId, FontId, FontInstanceId, ImageId};
use rsx_resources::images::{EncodedImage, ImageCache};
use rsx_resources::shared::{ImageEncodingFormat, ImagePixelFormat};
use rsx_resources::updates::{DefaultFontKeysAPI, DefaultImageKeysAPI};

/// A 512×529 RGBA image encoded as PNG.
fn quantum_png() -> Vec<u8> {
    let image = image::RgbaImage::new(512, 529);
    let mut bytes: Vec<u8> = Vec::new();
    image.write_to(&mut Cursor::new(&mut bytes), image::ImageFormat::Png).unwrap();
    bytes
}

/// Stand-in bytes for a font file; the font engine is not involved here.
fn font_bytes(seed: u8) -> Vec<u8> {
    (0..64u8).map(|i| i.wrapping_mul(seed)).collect()
}

#[test]
fn test_encode_decode() {
    let bytes = quantum_png();
    let format = EncodedImage::guess_format(&bytes).unwrap();

    assert_eq!(format, ImageEncodingFormat::PNG);

    let encoded = to_image_data_uri(format.as_str(), &bytes);
    let decoded = from_data_uri(&encoded).unwrap();

    assert_eq!(&decoded[..], &bytes[..]);
}

#[test]
fn test_image_cache_1() {
    let mut files_cache = FileCache::new().unwrap();

    let image_path = FileId::new(b"tests/fixtures/Quantum.png");
    assert!(files_cache.add_file(image_path, quantum_png()).is_ok());

    let image_keys = DefaultImageKeysAPI::new();
    let mut images_cache = ImageCache::new(image_keys).unwrap();

    let image_id = ImageId::new("Quantum");
    let image_bytes = files_cache.get_file(image_path).unwrap();

    assert!(images_cache.get_image("Quantum").is_none());

    assert!(images_cache.add_raw(image_id, image_bytes.clone()).is_ok());
    assert!(images_cache.add_raw(image_id, image_bytes.clone()).is_err());
    assert!(images_cache.add_raw(image_id, image_bytes.clone()).is_err());

    let image = images_cache.get_image("Quantum").unwrap();
    assert_eq!(image.width(), 512);
    assert_eq!(image.height(), 529);
    assert_eq!(image.format(), ImagePixelFormat::RGBA(8));
}

#[test]
fn test_fonts_cache_1() {
    let mut files_cache = FileCache::new().unwrap();

    let font_path = FileId::new(b"tests/fixtures/FreeSans.ttf");
    assert!(files_cache.add_file(font_path, font_bytes(3)).is_ok());

    let font_keys = DefaultFontKeysAPI::new();
    let mut fonts_cache = FontCache::new(font_keys).unwrap();

    let font_id = FontId::new("FreeSans");
    let font_bytes = files_cache.get_file(font_path).unwrap();

    assert!(fonts_cache
        .get_or_insert_font(FontInstanceId::from_family_str("FreeSans", 16, 72))
        .is_none());

    assert!(fonts_cache.add_raw(font_id, font_bytes.clone(), 0, "FreeSans").is_ok());
    assert!(fonts_cache.add_raw(font_id, font_bytes.clone(), 0, "FreeSans").is_err());
    assert!(fonts_cache.add_raw(font_id, font_bytes.clone(), 0, "FreeSans").is_err());

    assert!(fonts_cache
        .get_or_insert_font(FontInstanceId::from_family_str("FreeSans", 16, 72))
        .is_some());
}

#[test]
fn test_fonts_cache_2() {
    let mut files_cache = FileCache::new().unwrap();

    let font_path_1 = FileId::new(b"tests/fixtures/FreeSans.ttf");
    assert!(files_cache.add_file(font_path_1, font_bytes(3)).is_ok());

    let font_path_2 = FileId::new(b"tests/fixtures/FiraMono-Regular.ttf");
    assert!(files_cache.add_file(font_path_2, font_bytes(5)).is_ok());

    let font_keys = DefaultFontKeysAPI::new();
    let mut fonts_cache = FontCache::new(font_keys).unwrap();

    let font_id_1 = FontId::new("FreeSans");
    let font_id_2 = FontId::new("FiraMono");
    let font_bytes_1 = files_cache.get_file(font_path_1).unwrap();
    let font_bytes_2 = files_cache.get_file(font_path_2).unwrap();

    assert!(fonts_cache
        .get_or_insert_font(FontInstanceId::from_family_str("FreeSans", 16, 72))
        .is_none());
    assert!(fonts_cache
        .get_or_insert_font(FontInstanceId::from_family_str("Fira Mono", 16, 72))
        .is_none());

    assert!(fonts_cache.add_raw(font_id_1, font_bytes_1.clone(), 0, "FreeSans").is_ok());
    assert!(fonts_cache.add_raw(font_id_1, font_bytes_1.clone(), 0, "FreeSans").is_err());
    assert!(fonts_cache.add_raw(font_id_1, font_bytes_1.clone(), 0, "FreeSans").is_err());

    assert!(fonts_cache.add_raw(font_id_2, font_bytes_2.clone(), 0, "Fira Mono").is_ok());
    assert!(fonts_cache.add_raw(font_id_2, font_bytes_2.clone(), 0, "Fira Mono").is_err());
    assert!(fonts_cache.add_raw(font_id_2, font_bytes_2.clone(), 0, "Fira Mono").is_err());

    assert!(fonts_cache
        .get_or_insert_font(FontInstanceId::from_family_str("FreeSans", 16, 72))
        .is_some());
    assert!(fonts_cache
        .get_or_insert_font(FontInstanceId::from_family_str("Fira Mono", 16, 72))
        .is_some());
}
