use rsx_resources::font_cache::FontCache;
use rsx_resources::fonts::FontContext;
use rsx_resources::ids::FontId;
use rsx_resources::shaping::{FontInstance, FontSizeMetrics, GlyphDimensions};
use rsx_resources::updates::{
    DefaultFontInstanceKey as FontInstanceKey, DefaultFontKey as FontKey, DefaultFontKeysAPI,
    DefaultGlyphInstance as GlyphInstance,
};

fn free_sans_bytes() -> Vec<u8> {
    (0..128u8).map(|i| i.wrapping_mul(7)).collect()
}

fn fira_mono_bytes() -> Vec<u8> {
    (0..96u8).map(|i| i.wrapping_mul(11)).collect()
}

/// FreeSans at 16 px and 72 dpi, as the font engine measures it.
fn free_sans_16_metrics() -> FontSizeMetrics {
    FontSizeMetrics {
        nominal_width: 16,
        nominal_height: 16,
        ascender_64: 1024,
        descender_64: -320,
        height_64: 1408,
        max_advance_64: 1536,
    }
}

/// The glyphs of "Hello world" in FreeSans at 16 px and 72 dpi, as the font
/// engine measures them.
fn hello_world_16_glyphs() -> Vec<GlyphDimensions> {
    let glyphs: [(u32, i32); 11] = [
        (43, 739),
        (72, 569),
        (79, 227),
        (79, 227),
        (82, 569),
        (3, 285),
        (90, 739),
        (82, 569),
        (85, 341),
        (79, 227),
        (71, 569),
    ];
    glyphs
        .iter()
        .map(|&(glyph_index, hori_advance_64)| GlyphDimensions {
            glyph_index,
            width_64: 0,
            height_64: 0,
            hori_advance_64,
            vert_advance_64: 1024,
        })
        .collect()
}

#[test]
fn test_fonts_context_1() {
    let mut font_context = FontContext::new().unwrap();

    let font_id = FontId::new("FreeSans");
    let font_bytes = free_sans_bytes();
    assert!(font_context.add_face(font_id, font_bytes.clone(), 0, "FreeSans".to_string()).is_ok());
    assert!(font_context.add_face(font_id, font_bytes.clone(), 0, "FreeSans".to_string()).is_err());

    assert_eq!(font_context.get_bytes(font_id).unwrap(), &font_bytes);
    assert_eq!(font_context.get_face_index(font_id).unwrap(), 0);
}

#[test]
fn test_fonts_context_2() {
    let mut font_context = FontContext::new().unwrap();

    let font_bytes_1 = free_sans_bytes();
    let font_id_1 = FontId::new("FreeSans");
    assert!(font_context.add_face(font_id_1, font_bytes_1.clone(), 0, "FreeSans".to_string()).is_ok());
    assert!(font_context.add_face(font_id_1, font_bytes_1.clone(), 0, "FreeSans".to_string()).is_err());

    let font_bytes_2 = fira_mono_bytes();
    let font_id_2 = FontId::new("FiraMono");
    assert!(font_context.add_face(font_id_2, font_bytes_2.clone(), 0, "Fira Mono".to_string()).is_ok());
    assert!(font_context.add_face(font_id_2, font_bytes_2.clone(), 0, "Fira Mono".to_string()).is_err());

    assert_eq!(font_context.get_bytes(font_id_1).unwrap(), &font_bytes_1);
    assert_eq!(font_context.get_face_index(font_id_1).unwrap(), 0);

    assert_eq!(font_context.get_bytes(font_id_2).unwrap(), &font_bytes_2);
    assert_eq!(font_context.get_face_index(font_id_2).unwrap(), 0);
}

#[test]
fn test_fonts_simple_3a() {
    let mut fonts_cache = FontCache::new(DefaultFontKeysAPI::new()).unwrap();

    let font_id = FontId::new("FreeSans");
    let instance = FontInstance::new(font_id, 16, 72, FontKey(0), FontInstanceKey(0));

    let shaped_text = fonts_cache.shape_text_h(
        &instance,
        "Hello world",
        &free_sans_16_metrics(),
        &hello_world_16_glyphs(),
    );
    assert_eq!(shaped_text.width_64() as f32 / 64.0, 79.078125);
    assert_eq!(shaped_text.height_64() as f32 / 64.0, 22.0);
    assert_eq!(shaped_text.font_key(), instance.external_key());
    assert_eq!(shaped_text.font_instance_key(), instance.external_instance_key());
    let expected: Vec<(u32, i32)> = vec![
        (43, 0),
        (72, 739),
        (79, 1308),
        (79, 1535),
        (82, 1762),
        (3, 2331),
        (90, 2616),
        (82, 3355),
        (85, 3924),
        (79, 4265),
        (71, 4492),
    ];
    let expected: Vec<GlyphInstance> = expected
        .into_iter()
        .map(|(glyph_index, x_64)| GlyphInstance { glyph_index, x_64, y_64: 1024 })
        .collect();
    assert_eq!(shaped_text.glyphs(), &expected[..]);
}

#[test]
fn test_fonts_simple_3b() {
    let mut fonts_cache = FontCache::new(DefaultFontKeysAPI::new()).unwrap();

    let font_id = FontId::new("FreeSans");
    let instance = FontInstance::new(font_id, 16, 72, FontKey(0), FontInstanceKey(0));

    let shaped_text = fonts_cache.shape_text_v(
        &instance,
        "Hello world",
        &free_sans_16_metrics(),
        &hello_world_16_glyphs(),
    );
    assert_eq!(shaped_text.width_64() as f32 / 64.0, 24.0);
    assert_eq!(shaped_text.height_64() as f32 / 64.0, 176.0);
    assert_eq!(shaped_text.font_key(), instance.external_key());
    assert_eq!(shaped_text.font_instance_key(), instance.external_instance_key());
    let expected: Vec<u32> = vec![43, 72, 79, 79, 82, 3, 90, 82, 85, 79, 71];
    let expected: Vec<GlyphInstance> = expected
        .into_iter()
        .enumerate()
        .map(|(i, glyph_index)| GlyphInstance { glyph_index, x_64: 0, y_64: 1024 * i as i32 })
        .collect();
    assert_eq!(shaped_text.glyphs(), &expected[..]);
}
