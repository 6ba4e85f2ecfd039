//! Canonical asset paths and the ordered search over the asset roots.
use vstd::prelude::*;
use vstd::string::StringExecFns;
use crate::keys::{icon_key, key_file_name, key_of_lowered, lower_of};

verus! {

/// The category of an icon, which decides the asset subfolder it lives in.
#[derive(Clone, Copy, Debug, PartialEq, Eq, Structural)]
pub enum IconKind {
    Browser,
    Theme,
}

/// The subfolder of the asset tree that holds icons of a category.
pub open spec fn category_dir(kind: IconKind) -> Seq<char> {
    match kind {
        IconKind::Browser => "browser_icons"@,
        IconKind::Theme => "theme_icons"@,
    }
}

/// The path of an icon file relative to an asset root.
pub open spec fn asset_path(kind: IconKind, file: Seq<char>) -> Seq<char> {
    "src/assets/"@ + category_dir(kind) + "/"@ + file
}

/// A relative path placed under a directory.
pub open spec fn joined(dir: Seq<char>, rel: Seq<char>) -> Seq<char> {
    dir + "/"@ + rel
}

/// The candidate locations of an icon file, in search order: first the
/// working root, then the directory of the executable when it is known.
pub open spec fn candidates(kind: IconKind, file: Seq<char>, exe_dir: Option<Seq<char>>) -> Seq<
    Seq<char>,
> {
    match exe_dir {
        None => seq![asset_path(kind, file)],
        Some(d) => seq![asset_path(kind, file), joined(d, asset_path(kind, file))],
    }
}

/// The characters of an optional string.
pub open spec fn opt_view(o: Option<&str>) -> Option<Seq<char>> {
    match o {
        Some(d) => Some(d@),
        None => None,
    }
}

/// `i` is the first position at which `exists` holds `true`.
pub open spec fn is_first_true(exists: Seq<bool>, i: int) -> bool {
    0 <= i < exists.len() && exists[i] && forall|k: int| 0 <= k < i ==> !#[trigger] exists[k]
}

/// The asset subfolder of a category.
pub fn category_dir_name(kind: IconKind) -> (r: &'static str)
    ensures
        r@ == category_dir(kind),
{
    match kind {
        IconKind::Browser => "browser_icons",
        IconKind::Theme => "theme_icons",
    }
}

/// The path of an icon file relative to an asset root.
pub fn asset_relative_path(kind: IconKind, file: &str) -> (r: String)
    ensures
        r@ == asset_path(kind, file@),
{
    let mut p = String::from_str("src/assets/");
    p.append(category_dir_name(kind));
    p.append("/");
    p.append(file);
    p
}

/// The canonical relative path of the bundled icon for a browser name, or
/// `None` when the name matches no known browser.
pub fn get_browser_icon_path(browser_name: &str) -> (r: Option<String>)
    ensures
        match key_of_lowered(lower_of(browser_name@)) {
            Some(k) => r is Some && r->0@ == asset_path(IconKind::Browser, key_file_name(k)),
            None => r is None,
        },
{
    match icon_key(browser_name) {
        Some(k) => Some(asset_relative_path(IconKind::Browser, k.file_name())),
        None => None,
    }
}

/// The candidate locations of an icon file, in search order. `exe_dir` is the
/// directory of the running executable, when it could be resolved.
pub fn candidate_paths(kind: IconKind, file: &str, exe_dir: Option<&str>) -> (r: Vec<String>)
    ensures
        r@.len() == candidates(kind, file@, opt_view(exe_dir)).len(),
        forall|i: int|
            0 <= i < r@.len() ==> #[trigger] r@[i]@ == candidates(
                kind,
                file@,
                opt_view(exe_dir),
            )[i],
{
    let rel = asset_relative_path(kind, file);
    let mut out: Vec<String> = Vec::new();
    match exe_dir {
        None => {
            out.push(rel);
        },
        Some(d) => {
            let mut under_exe = String::from_str(d);
            under_exe.append("/");
            under_exe.append(rel.as_str());
            out.push(rel);
            out.push(under_exe);
        },
    }
    out
}

/// The first candidate that exists. `exists[i]` tells whether
/// `candidates[i]` was found on disk.
pub fn first_existing(candidates: &Vec<String>, exists: &Vec<bool>) -> (r: Option<String>)
    requires
        exists@.len() == candidates@.len(),
    ensures
        match r {
            Some(p) => exists|i: int| is_first_true(exists@, i) && p@ == candidates@[i]@,
            None => forall|k: int| 0 <= k < exists@.len() ==> !#[trigger] exists@[k],
        },
{
    let mut i: usize = 0;
    while i < exists.len()
        invariant
            exists@.len() == candidates@.len(),
            i <= exists@.len(),
            forall|k: int| 0 <= k < i ==> !#[trigger] exists@[k],
        decreases exists@.len() - i,
    {
        if exists[i] {
            let p = candidates[i].clone();
            assert(is_first_true(exists@, i as int));
            return Some(p);
        }
        i = i + 1;
    }
    None
}

/// When the working-root candidate exists, it is the one selected, whether
/// or not the candidate under the executable's directory exists too.
pub proof fn working_root_wins(kind: IconKind, file: Seq<char>, exe_dir: Seq<char>, exists: Seq<
    bool,
>)
    requires
        exists.len() == 2,
        exists[0],
    ensures
        candidates(kind, file, Some(exe_dir))[0] == asset_path(kind, file),
        forall|i: int| is_first_true(exists, i) <==> i == 0,
{
}

} // verus!
