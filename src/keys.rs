//! Resolution of free-text browser names to canonical icon keys.
use vstd::prelude::*;
use vstd::string::StrSliceExecFns;

verus! {

/// The canonical icon keys, one per bundled browser icon.
#[derive(Clone, Copy, Debug, PartialEq, Eq, Structural)]
pub enum IconKey {
    Chrome,
    Firefox,
    Edge,
    Opera,
    Safari,
    Brave,
    InternetExplorer,
}

/// The file that holds the bundled icon of a key.
pub open spec fn key_file_name(k: IconKey) -> Seq<char> {
    match k {
        IconKey::Chrome => "chrome.png"@,
        IconKey::Firefox => "firefox.png"@,
        IconKey::Edge => "edge.png"@,
        IconKey::Opera => "opera.png"@,
        IconKey::Safari => "safari.png"@,
        IconKey::Brave => "brave.png"@,
        IconKey::InternetExplorer => "ie.png"@,
    }
}

impl IconKey {
    /// The file that holds the bundled icon of this key.
    pub fn file_name(&self) -> (r: &'static str)
        ensures
            r@ == key_file_name(*self),
    {
        match self {
            IconKey::Chrome => "chrome.png",
            IconKey::Firefox => "firefox.png",
            IconKey::Edge => "edge.png",
            IconKey::Opera => "opera.png",
            IconKey::Safari => "safari.png",
            IconKey::Brave => "brave.png",
            IconKey::InternetExplorer => "ie.png",
        }
    }
}

/// `s` holds `p` as a contiguous run of characters.
pub open spec fn has_substring(s: Seq<char>, p: Seq<char>) -> bool {
    exists|i: int| 0 <= i && i + p.len() <= s.len() && #[trigger] s.subrange(i, i + p.len()) == p
}

pub open spec fn pat_chrome() -> Seq<char> {
    seq!['c', 'h', 'r', 'o', 'm', 'e']
}

pub open spec fn pat_firefox() -> Seq<char> {
    seq!['f', 'i', 'r', 'e', 'f', 'o', 'x']
}

pub open spec fn pat_mozilla() -> Seq<char> {
    seq!['m', 'o', 'z', 'i', 'l', 'l', 'a']
}

pub open spec fn pat_edge() -> Seq<char> {
    seq!['e', 'd', 'g', 'e']
}

pub open spec fn pat_opera() -> Seq<char> {
    seq!['o', 'p', 'e', 'r', 'a']
}

pub open spec fn pat_safari() -> Seq<char> {
    seq!['s', 'a', 'f', 'a', 'r', 'i']
}

pub open spec fn pat_brave() -> Seq<char> {
    seq!['b', 'r', 'a', 'v', 'e']
}

pub open spec fn pat_internet_explorer() -> Seq<char> {
    seq!['i', 'n', 't', 'e', 'r', 'n', 'e', 't', ' ', 'e', 'x', 'p', 'l', 'o', 'r', 'e', 'r']
}

pub open spec fn pat_iexplore() -> Seq<char> {
    seq!['i', 'e', 'x', 'p', 'l', 'o', 'r', 'e']
}

/// The key of an already lower-cased name: the first pattern of the table
/// that occurs in it decides.
pub open spec fn key_of_lowered(s: Seq<char>) -> Option<IconKey> {
    if has_substring(s, pat_chrome()) {
        Some(IconKey::Chrome)
    } else if has_substring(s, pat_firefox()) || has_substring(s, pat_mozilla()) {
        Some(IconKey::Firefox)
    } else if has_substring(s, pat_edge()) {
        Some(IconKey::Edge)
    } else if has_substring(s, pat_opera()) {
        Some(IconKey::Opera)
    } else if has_substring(s, pat_safari()) {
        Some(IconKey::Safari)
    } else if has_substring(s, pat_brave()) {
        Some(IconKey::Brave)
    } else if has_substring(s, pat_internet_explorer()) || has_substring(s, pat_iexplore()) {
        Some(IconKey::InternetExplorer)
    } else {
        None
    }
}

/// What `str::to_lowercase` returns for a string.
pub uninterp spec fn lower_of(s: Seq<char>) -> Seq<char>;

/// Relies on `str::to_lowercase`: the Unicode lower-case mapping of `s`, which
/// depends on the characters of `s` alone.
#[verifier::external_body]
fn lowercase(s: &str) -> (r: String)
    ensures
        r@ == lower_of(s@),
{
    s.to_lowercase()
}

/// The characters of `s`, in order.
fn chars_of(s: &str) -> (r: Vec<char>)
    ensures
        r@ == s@,
{
    let n = s.unicode_len();
    let mut out: Vec<char> = Vec::new();
    let mut i: usize = 0;
    while i < n
        invariant
            n == s@.len(),
            i <= n,
            out@ == s@.subrange(0, i as int),
        decreases n - i,
    {
        out.push(s.get_char(i));
        i = i + 1;
        assert(out@ =~= s@.subrange(0, i as int));
    }
    assert(out@ =~= s@);
    out
}

/// Whether `hay` holds `pat` as a contiguous run of characters.
pub fn contains_chars(hay: &[char], pat: &[char]) -> (r: bool)
    ensures
        r == has_substring(hay@, pat@),
{
    if pat.len() == 0 {
        assert(hay@.subrange(0int, 0int + pat@.len()) =~= pat@);
        return true;
    }
    if pat.len() > hay.len() {
        return false;
    }
    let end = hay.len() - pat.len() + 1;
    let mut i: usize = 0;
    while i < end
        invariant
            end == hay@.len() - pat@.len() + 1,
            0 < pat@.len() <= hay@.len(),
            i <= end,
            forall|k: int| 0 <= k < i ==> #[trigger] hay@.subrange(k, k + pat@.len()) != pat@,
        decreases end - i,
    {
        let mut j: usize = 0;
        let mut same = true;
        while j < pat.len() && same
            invariant
                i < end,
                end == hay@.len() - pat@.len() + 1,
                0 < pat@.len() <= hay@.len(),
                j <= pat@.len(),
                same ==> forall|m: int| 0 <= m < j ==> hay@[i + m] == pat@[m],
                !same ==> hay@.subrange(i as int, i + pat@.len()) != pat@,
            decreases pat@.len() - j, (if same { 1int } else { 0int }),
        {
            assert(i + j < hay.len());
            if hay[i + j] != pat[j] {
                same = false;
                assert(hay@.subrange(i as int, i + pat@.len())[j as int] != pat@[j as int]);
            } else {
                j = j + 1;
            }
        }
        if same {
            assert(hay@.subrange(i as int, i + pat@.len()) =~= pat@);
            return true;
        }
        i = i + 1;
    }
    assert forall|k: int| 0 <= k && k + pat@.len() <= hay@.len() implies #[trigger] hay@.subrange(
        k,
        k + pat@.len(),
    ) != pat@ by {
        assert(k < end);
    }
    false
}

/// The icon key of a name that has already been lower-cased.
pub fn icon_key_of_lowered(lowered: &str) -> (r: Option<IconKey>)
    ensures
        r == key_of_lowered(lowered@),
{
    let s = chars_of(lowered);
    let h = s.as_slice();
    let chrome = ['c', 'h', 'r', 'o', 'm', 'e'];
    let firefox = ['f', 'i', 'r', 'e', 'f', 'o', 'x'];
    let mozilla = ['m', 'o', 'z', 'i', 'l', 'l', 'a'];
    let edge = ['e', 'd', 'g', 'e'];
    let opera = ['o', 'p', 'e', 'r', 'a'];
    let safari = ['s', 'a', 'f', 'a', 'r', 'i'];
    let brave = ['b', 'r', 'a', 'v', 'e'];
    let internet_explorer = [
        'i', 'n', 't', 'e', 'r', 'n', 'e', 't', ' ', 'e', 'x', 'p', 'l', 'o', 'r', 'e', 'r',
    ];
    let iexplore = ['i', 'e', 'x', 'p', 'l', 'o', 'r', 'e'];
    assert(chrome@ =~= pat_chrome());
    assert(firefox@ =~= pat_firefox());
    assert(mozilla@ =~= pat_mozilla());
    assert(edge@ =~= pat_edge());
    assert(opera@ =~= pat_opera());
    assert(safari@ =~= pat_safari());
    assert(brave@ =~= pat_brave());
    assert(internet_explorer@ =~= pat_internet_explorer());
    assert(iexplore@ =~= pat_iexplore());
    if contains_chars(h, &chrome) {
        Some(IconKey::Chrome)
    } else if contains_chars(h, &firefox) || contains_chars(h, &mozilla) {
        Some(IconKey::Firefox)
    } else if contains_chars(h, &edge) {
        Some(IconKey::Edge)
    } else if contains_chars(h, &opera) {
        Some(IconKey::Opera)
    } else if contains_chars(h, &safari) {
        Some(IconKey::Safari)
    } else if contains_chars(h, &brave) {
        Some(IconKey::Brave)
    } else if contains_chars(h, &internet_explorer) || contains_chars(h, &iexplore) {
        Some(IconKey::InternetExplorer)
    } else {
        None
    }
}

/// The icon key of a free-text browser name, matched without regard to case.
pub fn icon_key(name: &str) -> (r: Option<IconKey>)
    ensures
        r == key_of_lowered(lower_of(name@)),
{
    let lowered = lowercase(name);
    icon_key_of_lowered(lowered.as_str())
}

/// Any name whose lower-case form contains "chrome", whatever surrounds it,
/// resolves to the Chrome key.
pub proof fn chrome_names_resolve_to_chrome(name: Seq<char>)
    requires
        has_substring(lower_of(name), pat_chrome()),
    ensures
        key_of_lowered(lower_of(name)) == Some(IconKey::Chrome),
{
}

/// Each pattern, found in the lower-case form of a name in which no pattern
/// earlier in the table occurs, decides the name's key.
pub proof fn first_matching_pattern_decides(name: Seq<char>)
    ensures
        ({
            let l = lower_of(name);
            let c = has_substring(l, pat_chrome());
            let f = has_substring(l, pat_firefox()) || has_substring(l, pat_mozilla());
            let e = has_substring(l, pat_edge());
            let o = has_substring(l, pat_opera());
            let s = has_substring(l, pat_safari());
            let b = has_substring(l, pat_brave());
            let i = has_substring(l, pat_internet_explorer()) || has_substring(l, pat_iexplore());
            &&& c ==> key_of_lowered(l) == Some(IconKey::Chrome)
            &&& !c && f ==> key_of_lowered(l) == Some(IconKey::Firefox)
            &&& !c && !f && e ==> key_of_lowered(l) == Some(IconKey::Edge)
            &&& !c && !f && !e && o ==> key_of_lowered(l) == Some(IconKey::Opera)
            &&& !c && !f && !e && !o && s ==> key_of_lowered(l) == Some(IconKey::Safari)
            &&& !c && !f && !e && !o && !s && b ==> key_of_lowered(l) == Some(IconKey::Brave)
            &&& !c && !f && !e && !o && !s && !b && i ==> key_of_lowered(l) == Some(
                IconKey::InternetExplorer,
            )
            &&& !c && !f && !e && !o && !s && !b && !i ==> key_of_lowered(l) is None
        }),
{
}

} // verus!
