use browser_icons::keys::{icon_key, icon_key_of_lowered, IconKey};
use browser_icons::paths::get_browser_icon_path;

#[test]
fn chrome_matches_in_any_case_and_context() {
    for name in ["Google Chrome", "CHROME", "chrome", "ChRoMe Beta", "my-chrome-canary"] {
        assert_eq!(icon_key(name), Some(IconKey::Chrome), "{}", name);
    }
}

#[test]
fn every_pattern_is_case_insensitive() {
    assert_eq!(icon_key("Mozilla Firefox"), Some(IconKey::Firefox));
    assert_eq!(icon_key("FIREFOX"), Some(IconKey::Firefox));
    assert_eq!(icon_key("MOZILLA"), Some(IconKey::Firefox));
    assert_eq!(icon_key("Microsoft EDGE"), Some(IconKey::Edge));
    assert_eq!(icon_key("Opera GX"), Some(IconKey::Opera));
    assert_eq!(icon_key("Safari"), Some(IconKey::Safari));
    assert_eq!(icon_key("Brave Browser"), Some(IconKey::Brave));
    assert_eq!(icon_key("Internet Explorer"), Some(IconKey::InternetExplorer));
    assert_eq!(icon_key("IEXPLORE.EXE"), Some(IconKey::InternetExplorer));
}

#[test]
fn table_order_breaks_ties() {
    assert_eq!(icon_key("Chrome or Edge"), Some(IconKey::Chrome));
    assert_eq!(icon_key("Edge on Firefox"), Some(IconKey::Firefox));
    assert_eq!(icon_key("brave opera"), Some(IconKey::Opera));
}

#[test]
fn unknown_names_have_no_key() {
    assert_eq!(icon_key("Lynx"), None);
    assert_eq!(icon_key(""), None);
    assert_eq!(icon_key("internet"), None);
    assert_eq!(icon_key_of_lowered("w3m"), None);
}

#[test]
fn lowered_lookup_is_exact_on_case() {
    assert_eq!(icon_key_of_lowered("chrome"), Some(IconKey::Chrome));
    assert_eq!(icon_key_of_lowered("CHROME"), None);
}

#[test]
fn browser_icon_paths() {
    assert_eq!(
        get_browser_icon_path("Google Chrome"),
        Some("src/assets/browser_icons/chrome.png".to_string())
    );
    assert_eq!(
        get_browser_icon_path("Internet Explorer 11"),
        Some("src/assets/browser_icons/ie.png".to_string())
    );
    assert_eq!(get_browser_icon_path("Lynx"), None);
}

#[test]
fn key_file_names() {
    assert_eq!(IconKey::Firefox.file_name(), "firefox.png");
    assert_eq!(IconKey::InternetExplorer.file_name(), "ie.png");
}
