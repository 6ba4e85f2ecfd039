//! The fallback chain: bundled asset first, placeholder icon whenever any
//! step fails.
use vstd::prelude::*;
use vstd::string::{StringExecFns, StringSliceAdditionalSpecFns};
use crate::error::IconError;
use crate::fallback::{create_fallback_icon, fallback_pixels};
use crate::keys::{icon_key, key_file_name, key_of_lowered, lower_of};
use crate::paths::{IconKind, candidate_paths, candidates, opt_view};
use crate::raster::{RgbaImage, decode_scaled, decodes, rgba_len};

verus! {

/// The key under which the texture registry stores an icon.
pub open spec fn texture_key_of(kind: IconKind, subject: Seq<char>) -> Seq<char> {
    match kind {
        IconKind::Browser => "browser_icon_"@ + subject,
        IconKind::Theme => "theme_icon_"@ + subject,
    }
}

/// The file name of a theme icon.
pub open spec fn theme_file_name(key: Seq<char>) -> Seq<char> {
    key + ".png"@
}

/// The locations to search for the bundled icon of a browser name: none when
/// the name matches no known browser.
pub open spec fn browser_candidates(name: Seq<char>, exe_dir: Option<Seq<char>>) -> Seq<
    Seq<char>,
> {
    match key_of_lowered(lower_of(name)) {
        Some(k) => candidates(IconKind::Browser, key_file_name(k), exe_dir),
        None => Seq::empty(),
    }
}

/// The key under which the texture registry stores the icon of `subject`.
pub fn texture_key(kind: IconKind, subject: &str) -> (r: String)
    ensures
        r@ == texture_key_of(kind, subject@),
{
    let mut k = match kind {
        IconKind::Browser => String::from_str("browser_icon_"),
        IconKind::Theme => String::from_str("theme_icon_"),
    };
    k.append(subject);
    k
}

/// The locations to search, in order, for the bundled icon of a browser
/// name. `exe_dir` is the directory of the running executable, when known.
pub fn browser_icon_candidates(browser_name: &str, exe_dir: Option<&str>) -> (r: Vec<String>)
    ensures
        r@.len() == browser_candidates(browser_name@, opt_view(exe_dir)).len(),
        forall|i: int|
            0 <= i < r@.len() ==> #[trigger] r@[i]@ == browser_candidates(
                browser_name@,
                opt_view(exe_dir),
            )[i],
{
    match icon_key(browser_name) {
        Some(k) => candidate_paths(IconKind::Browser, k.file_name(), exe_dir),
        None => Vec::new(),
    }
}

/// The locations to search, in order, for the theme icon named `icon_key`.
pub fn theme_icon_candidates(icon_key: &str, exe_dir: Option<&str>) -> (r: Vec<String>)
    ensures
        r@.len() == candidates(IconKind::Theme, theme_file_name(icon_key@), opt_view(exe_dir)).len(),
        forall|i: int|
            0 <= i < r@.len() ==> #[trigger] r@[i]@ == candidates(
                IconKind::Theme,
                theme_file_name(icon_key@),
                opt_view(exe_dir),
            )[i],
{
    let mut file = String::from_str(icon_key);
    file.append(".png");
    candidate_paths(IconKind::Theme, file.as_str(), exe_dir)
}

/// The decoded image when there is one, else the placeholder icon for `seed`.
pub fn choose_icon(seed: &str, decoded: Result<RgbaImage, IconError>, width: u32, height: u32) -> (r:
    RgbaImage)
    requires
        rgba_len(width, height) <= usize::MAX,
        decoded is Ok ==> decoded->Ok_0.has_size(width, height),
    ensures
        r.has_size(width, height),
        match decoded {
            Ok(img) => r == img,
            Err(_) => r.pixels@ == fallback_pixels(seed.spec_bytes(), width, height),
        },
{
    match decoded {
        Ok(img) => img,
        Err(_) => create_fallback_icon(seed, width, height),
    }
}

/// The icon drawn from the contents of the file that the search found, if it
/// found one: that file decoded and rescaled to `width` by `height`, or the
/// placeholder icon for `seed` when there was no file or it does not decode.
pub fn icon_from_bytes(seed: &str, found: Option<&[u8]>, width: u32, height: u32) -> (r: RgbaImage)
    requires
        rgba_len(width, height) <= usize::MAX,
    ensures
        r.has_size(width, height),
        match found {
            Some(bytes) => !decodes(bytes@) ==> r.pixels@ == fallback_pixels(
                seed.spec_bytes(),
                width,
                height,
            ),
            None => r.pixels@ == fallback_pixels(seed.spec_bytes(), width, height),
        },
{
    let decoded = match found {
        Some(bytes) => decode_scaled(bytes, width, height),
        None => Err(IconError::NotFound),
    };
    choose_icon(seed, decoded, width, height)
}

/// A name that matches no known browser has no bundled icon to look for, so
/// its resolution finds no file and draws the placeholder.
pub proof fn unmatched_name_has_no_candidates(name: Seq<char>, exe_dir: Option<Seq<char>>)
    requires
        key_of_lowered(lower_of(name)) is None,
    ensures
        browser_candidates(name, exe_dir).len() == 0,
{
}

} // verus!
