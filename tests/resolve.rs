use browser_icons::error::IconError;
use browser_icons::fallback::create_fallback_icon;
use browser_icons::paths::{first_existing, IconKind};
use browser_icons::raster::decode_scaled;
use browser_icons::resolve::{
    browser_icon_candidates, choose_icon, icon_from_bytes, texture_key, theme_icon_candidates,
};

fn png_bytes(width: u32, height: u32) -> Vec<u8> {
    let img = image::RgbaImage::from_fn(width, height, |x, y| {
        image::Rgba([(x * 4) as u8, (y * 4) as u8, 200, 255])
    });
    let mut out = std::io::Cursor::new(Vec::new());
    img.write_to(&mut out, image::ImageFormat::Png).unwrap();
    out.into_inner()
}

#[test]
fn decodes_and_rescales_exactly() {
    let img = decode_scaled(&png_bytes(64, 64), 32, 32).unwrap();
    assert_eq!((img.width, img.height), (32, 32));
    assert_eq!(img.pixels.len(), 32 * 32 * 4);
    let wide = decode_scaled(&png_bytes(64, 16), 20, 20).unwrap();
    assert_eq!((wide.width, wide.height), (20, 20));
    assert_eq!(wide.pixels.len(), 20 * 20 * 4);
}

#[test]
fn garbage_is_a_decode_error() {
    assert_eq!(
        decode_scaled(b"not an image", 32, 32).unwrap_err(),
        IconError::DecodeError
    );
    assert_eq!(decode_scaled(&[], 32, 32).unwrap_err(), IconError::DecodeError);
}

#[test]
fn undecodable_file_gives_fallback() {
    let img = icon_from_bytes("Safari", Some(b"\x89PNG broken"), 32, 32);
    assert_eq!(img.pixels, create_fallback_icon("Safari", 32, 32).pixels);
}

#[test]
fn unknown_browser_still_gets_an_icon() {
    let c = browser_icon_candidates("Lynx", Some("/opt/picker"));
    assert!(c.is_empty());
    let found = first_existing(&c, &Vec::new());
    assert_eq!(found, None);
    let img = icon_from_bytes("Lynx", None, 32, 32);
    assert_eq!((img.width, img.height), (32, 32));
    assert_eq!(img.pixels.len(), 32 * 32 * 4);
    for px in img.pixels.chunks(4) {
        assert_eq!(px, &[135, 1, 48, 255]);
    }
}

#[test]
fn bundled_chrome_icon_is_decoded() {
    let c = browser_icon_candidates("Google Chrome", None);
    assert_eq!(c, vec!["src/assets/browser_icons/chrome.png".to_string()]);
    let found = first_existing(&c, &vec![true]);
    assert_eq!(found, Some(c[0].clone()));
    let bytes = png_bytes(64, 64);
    let img = icon_from_bytes("Google Chrome", Some(&bytes), 32, 32);
    assert_eq!((img.width, img.height), (32, 32));
    assert_eq!(img.pixels.len(), 32 * 32 * 4);
    assert_ne!(img.pixels, create_fallback_icon("Google Chrome", 32, 32).pixels);
}

#[test]
fn empty_assets_tree_gives_hashed_color() {
    let c = browser_icon_candidates("Brave", Some("/opt/picker"));
    assert_eq!(c.len(), 2);
    let found = first_existing(&c, &vec![false, false]);
    assert_eq!(found, None);
    let img = icon_from_bytes("Brave", None, 32, 32);
    assert_eq!((img.width, img.height), (32, 32));
    for px in img.pixels.chunks(4) {
        assert_eq!(px, &[211, 195, 161, 255]);
    }
}

#[test]
fn choose_prefers_decoded_image() {
    let decoded = decode_scaled(&png_bytes(8, 8), 8, 8).unwrap();
    let kept = choose_icon("Edge", Ok(decoded.clone()), 8, 8);
    assert_eq!(kept.pixels, decoded.pixels);
    let fell_back = choose_icon("Edge", Err(IconError::NotFound), 8, 8);
    assert_eq!(fell_back.pixels, create_fallback_icon("Edge", 8, 8).pixels);
}

#[test]
fn theme_candidates_use_the_theme_folder() {
    assert_eq!(
        theme_icon_candidates("settings", Some("/opt/picker")),
        vec![
            "src/assets/theme_icons/settings.png".to_string(),
            "/opt/picker/src/assets/theme_icons/settings.png".to_string(),
        ]
    );
}

#[test]
fn texture_keys() {
    assert_eq!(texture_key(IconKind::Browser, "Brave"), "browser_icon_Brave");
    assert_eq!(texture_key(IconKind::Theme, "gear"), "theme_icon_gear");
}
