//! Which files the editor opens, how RAW files are recognised, and where
//! thumbnails are cached.

use vstd::prelude::*;
use crate::paths::{extension, extension_of_path, file_name, file_name_of, join_path, joined};
use crate::text::{ascii_lower, chars_of, to_ascii_lower};

verus! {

/// Longest edge of a cached thumbnail.
pub const THUMB_SIZE: u32 = 300;

/// Where a preview came from.
#[derive(Clone, Copy, Debug, PartialEq, Eq, Structural)]
pub enum PreviewSource {
    /// A preview or thumbnail embedded in a RAW file.
    Embedded,
    /// A full decode (and develop, for RAW files).
    FullDevelop,
}

/// RAW file extensions, lower case.
pub open spec fn raw_exts() -> Seq<Seq<char>> {
    seq![
        seq!['r', 'a', 'f'],
        seq!['d', 'n', 'g'],
        seq!['n', 'e', 'f'],
        seq!['c', 'r', '2'],
        seq!['a', 'r', 'w'],
    ]
}

/// Extensions of the files the editor opens, lower case.
pub open spec fn supported_exts() -> Seq<Seq<char>> {
    seq![
        seq!['j', 'p', 'g'],
        seq!['j', 'p', 'e', 'g'],
        seq!['p', 'n', 'g'],
        seq!['t', 'i', 'f', 'f'],
        seq!['t', 'i', 'f'],
        seq!['w', 'e', 'b', 'p'],
        seq!['b', 'm', 'p'],
        seq!['r', 'a', 'f'],
        seq!['d', 'n', 'g'],
        seq!['n', 'e', 'f'],
        seq!['c', 'r', '2'],
        seq!['a', 'r', 'w'],
        seq!['h', 'e', 'i', 'c'],
        seq!['a', 'v', 'i', 'f'],
    ]
}

/// Whether `path` has an extension equal, ignoring ASCII case, to one of `exts`.
pub open spec fn has_ext_in(path: Seq<char>, exts: Seq<Seq<char>>) -> bool {
    match extension_of_path(path) {
        Some(e) => exts.contains(ascii_lower(e)),
        None => false,
    }
}

fn ext_matches(lower: &Vec<char>, exts: &Vec<Vec<char>>) -> (r: bool)
    ensures
        r == Seq::new(exts@.len(), |i: int| exts@[i]@).contains(lower@),
{
    let ghost all = Seq::new(exts@.len(), |i: int| exts@[i]@);
    let mut i: usize = 0;
    while i < exts.len()
        invariant
            i <= exts@.len(),
            all == Seq::new(exts@.len(), |i: int| exts@[i]@),
            forall|j: int| 0 <= j < i ==> exts@[j]@ != lower@,
        decreases exts@.len() - i,
    {
        if crate::text::chars_equal(lower, exts[i].as_slice()) {
            proof {
                assert(all[i as int] == lower@);
            }
            return true;
        }
        i = i + 1;
    }
    proof {
        if all.contains(lower@) {
            let j = all.index_of(lower@);
            assert(exts@[j]@ == lower@);
        }
    }
    false
}

fn word(w: &[char]) -> (r: Vec<char>)
    ensures
        r@ == w@,
{
    let mut v: Vec<char> = Vec::new();
    crate::text::push_chars(&mut v, w);
    proof {
        assert(v@ =~= w@);
    }
    v
}

fn raw_ext_list() -> (r: Vec<Vec<char>>)
    ensures
        Seq::new(r@.len(), |i: int| r@[i]@) == raw_exts(),
{
    let mut v: Vec<Vec<char>> = Vec::new();
    v.push(word(&['r', 'a', 'f']));
    v.push(word(&['d', 'n', 'g']));
    v.push(word(&['n', 'e', 'f']));
    v.push(word(&['c', 'r', '2']));
    v.push(word(&['a', 'r', 'w']));
    proof {
        assert(['r', 'a', 'f']@ =~= seq!['r', 'a', 'f']);
        assert(['d', 'n', 'g']@ =~= seq!['d', 'n', 'g']);
        assert(['n', 'e', 'f']@ =~= seq!['n', 'e', 'f']);
        assert(['c', 'r', '2']@ =~= seq!['c', 'r', '2']);
        assert(['a', 'r', 'w']@ =~= seq!['a', 'r', 'w']);
        assert(Seq::new(v@.len(), |i: int| v@[i]@) =~= raw_exts());
    }
    v
}

fn supported_ext_list() -> (r: Vec<Vec<char>>)
    ensures
        Seq::new(r@.len(), |i: int| r@[i]@) == supported_exts(),
{
    let mut v: Vec<Vec<char>> = Vec::new();
    v.push(word(&['j', 'p', 'g']));
    v.push(word(&['j', 'p', 'e', 'g']));
    v.push(word(&['p', 'n', 'g']));
    v.push(word(&['t', 'i', 'f', 'f']));
    v.push(word(&['t', 'i', 'f']));
    v.push(word(&['w', 'e', 'b', 'p']));
    v.push(word(&['b', 'm', 'p']));
    v.push(word(&['r', 'a', 'f']));
    v.push(word(&['d', 'n', 'g']));
    v.push(word(&['n', 'e', 'f']));
    v.push(word(&['c', 'r', '2']));
    v.push(word(&['a', 'r', 'w']));
    v.push(word(&['h', 'e', 'i', 'c']));
    v.push(word(&['a', 'v', 'i', 'f']));
    proof {
        assert(['j', 'p', 'g']@ =~= seq!['j', 'p', 'g']);
        assert(['j', 'p', 'e', 'g']@ =~= seq!['j', 'p', 'e', 'g']);
        assert(['p', 'n', 'g']@ =~= seq!['p', 'n', 'g']);
        assert(['t', 'i', 'f', 'f']@ =~= seq!['t', 'i', 'f', 'f']);
        assert(['t', 'i', 'f']@ =~= seq!['t', 'i', 'f']);
        assert(['w', 'e', 'b', 'p']@ =~= seq!['w', 'e', 'b', 'p']);
        assert(['b', 'm', 'p']@ =~= seq!['b', 'm', 'p']);
        assert(['r', 'a', 'f']@ =~= seq!['r', 'a', 'f']);
        assert(['d', 'n', 'g']@ =~= seq!['d', 'n', 'g']);
        assert(['n', 'e', 'f']@ =~= seq!['n', 'e', 'f']);
        assert(['c', 'r', '2']@ =~= seq!['c', 'r', '2']);
        assert(['a', 'r', 'w']@ =~= seq!['a', 'r', 'w']);
        assert(['h', 'e', 'i', 'c']@ =~= seq!['h', 'e', 'i', 'c']);
        assert(['a', 'v', 'i', 'f']@ =~= seq!['a', 'v', 'i', 'f']);
        assert(Seq::new(v@.len(), |i: int| v@[i]@) =~= supported_exts());
    }
    v
}

/// Whether `path` has one of the lower-case extensions `exts`, ignoring
/// ASCII case.
pub fn has_extension(path: &str, exts: &Vec<Vec<char>>) -> (r: bool)
    ensures
        r == has_ext_in(path@, Seq::new(exts@.len(), |i: int| exts@[i]@)),
{
    match extension(path) {
        Some(e) => {
            let lower = to_ascii_lower(&chars_of(e.as_str()));
            ext_matches(&lower, exts)
        },
        None => false,
    }
}

/// Whether a file extension (without the dot) is a RAW one, ignoring ASCII case.
pub fn is_raw_extension(ext: &str) -> (r: bool)
    ensures
        r == raw_exts().contains(ascii_lower(ext@)),
{
    ext_matches(&to_ascii_lower(&chars_of(ext)), &raw_ext_list())
}

/// Whether a file extension (without the dot) is one the editor opens,
/// ignoring ASCII case.
pub fn is_supported_extension(ext: &str) -> (r: bool)
    ensures
        r == supported_exts().contains(ascii_lower(ext@)),
{
    ext_matches(&to_ascii_lower(&chars_of(ext)), &supported_ext_list())
}

/// Whether `path` names a RAW file (raf, dng, nef, cr2, arw in any case).
pub fn is_raw_image(path: &str) -> (r: bool)
    ensures
        r == has_ext_in(path@, raw_exts()),
{
    match extension(path) {
        Some(e) => is_raw_extension(e.as_str()),
        None => false,
    }
}

/// Whether `path` names a file the editor opens.
pub fn is_supported_image(path: &str) -> (r: bool)
    ensures
        r == has_ext_in(path@, supported_exts()),
{
    match extension(path) {
        Some(e) => is_supported_extension(e.as_str()),
        None => false,
    }
}

/// Whether the file browser lists `path`.
pub fn is_image(path: &str) -> (r: bool)
    ensures
        r == has_ext_in(path@, supported_exts()),
{
    is_supported_image(path)
}

/// The file name of a path; empty when it has none.
pub open spec fn file_name_or_empty(path: Seq<char>) -> Seq<char> {
    match file_name_of(path) {
        Some(n) => n,
        None => Seq::empty(),
    }
}

/// The cached thumbnail of `source`: `<cache_dir>/<file name>.webp`.
pub fn cache_path(source: &str, cache_dir: &str) -> (r: String)
    ensures
        r@ == joined(cache_dir@, file_name_or_empty(source@) + ".webp"@),
{
    let mut name: Vec<char> = match file_name(source) {
        Some(n) => chars_of(n.as_str()),
        None => Vec::new(),
    };
    let ext = chars_of(".webp");
    crate::text::push_vec(&mut name, &ext);
    let s = crate::text::string_of(&name);
    join_path(cache_dir, s.as_str())
}

/// Opens a preview through two decoders: for a RAW file the embedded
/// preview is tried first and used when it is found; otherwise, or when that
/// probe finds nothing or fails, the full decoder's result is returned.
pub fn open_image_for_preview_with_hooks<T, E, FE, FF>(path: &str, open_embedded: FE, open_full: FF) -> (r: Result<(T, PreviewSource), E>)
    where
        FE: Fn(&str) -> Result<Option<T>, E>,
        FF: Fn(&str) -> Result<(T, PreviewSource), E>,
    requires
        open_embedded.requires((path,)),
        open_full.requires((path,)),
    ensures
        !has_ext_in(path@, raw_exts()) ==> open_full.ensures((path,), r),
        has_ext_in(path@, raw_exts()) ==> exists|e: Result<Option<T>, E>|
            #[trigger] open_embedded.ensures((path,), e) && (match e {
                Ok(Some(img)) => r == Ok::<(T, PreviewSource), E>((img, PreviewSource::Embedded)),
                _ => open_full.ensures((path,), r),
            }),
{
    if is_raw_image(path) {
        let probe = open_embedded(path);
        match probe {
            Ok(Some(img)) => {
                let ghost e = Ok::<Option<T>, E>(Some(img));
                let r = Ok((img, PreviewSource::Embedded));
                proof {
                    assert(open_embedded.ensures((path,), e));
                }
                return r;
            },
            _ => {},
        }
        let ghost e = probe;
        let r = open_full(path);
        proof {
            assert(open_embedded.ensures((path,), e));
        }
        return r;
    }
    open_full(path)
}

} // verus!
