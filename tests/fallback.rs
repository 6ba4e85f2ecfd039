use browser_icons::fallback::{color_seed, create_fallback_icon, name_hash};

#[test]
fn hash_matches_known_values() {
    assert_eq!(name_hash(""), 0xcbf29ce484222325);
    assert_eq!(name_hash("a"), 0xaf63dc4c8601ec8c);
    assert_eq!(name_hash("Brave"), 0x742912846fd3c3a1);
}

#[test]
fn color_comes_from_low_hash_bits() {
    assert_eq!(color_seed("Brave"), (211, 195, 161));
    assert_eq!(color_seed("Firefox"), (152, 234, 218));
    assert_eq!(color_seed(""), (34, 35, 37));
}

#[test]
fn fallback_is_deterministic() {
    let a = create_fallback_icon("Firefox", 32, 32);
    let b = create_fallback_icon("Firefox", 32, 32);
    assert_eq!(a.pixels, b.pixels);
    assert_eq!((a.width, a.height), (32, 32));
}

#[test]
fn fallback_buffer_shape() {
    let img = create_fallback_icon("Opera", 7, 3);
    assert_eq!(img.pixels.len(), 7 * 3 * 4);
    for px in img.pixels.chunks(4) {
        assert_eq!(px[3], 255);
    }
}

#[test]
fn fallback_is_solid() {
    let img = create_fallback_icon("Firefox", 4, 5);
    for px in img.pixels.chunks(4) {
        assert_eq!(px, &[152, 234, 218, 255]);
    }
}

#[test]
fn fallback_of_empty_size() {
    let img = create_fallback_icon("Safari", 0, 16);
    assert!(img.pixels.is_empty());
    assert_eq!((img.width, img.height), (0, 16));
}
