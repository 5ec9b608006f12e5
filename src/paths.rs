//! Path operations of `std::path`, over strings. Their results depend on the
//! path text alone and are named here rather than restated.

use vstd::prelude::*;

verus! {

/// What `Path::join` gives for `dir` and `name`, as text.
pub uninterp spec fn joined(dir: Seq<char>, name: Seq<char>) -> Seq<char>;

/// What `Path::file_stem` gives for `path`, when it is valid Unicode.
pub uninterp spec fn file_stem_of(path: Seq<char>) -> Option<Seq<char>>;

/// What `Path::file_name` gives for `path`, when it is valid Unicode.
pub uninterp spec fn file_name_of(path: Seq<char>) -> Option<Seq<char>>;

/// What `Path::parent` gives for `path`.
pub uninterp spec fn parent_of(path: Seq<char>) -> Option<Seq<char>>;

/// What `Path::extension` gives for `path`, when it is valid Unicode.
pub uninterp spec fn extension_of_path(path: Seq<char>) -> Option<Seq<char>>;

/// Whether a text holds no `/`, the separator of path components.
pub open spec fn no_separator(s: Seq<char>) -> bool {
    forall|i: int| 0 <= i < s.len() ==> s[i] != '/'
}

/// The path of a one-component relative `name` inside `dir`, as `Path::join`
/// builds it with the `/` separator: `name` alone when `dir` is empty, else
/// `dir` and `name` with one `/` between them.
pub open spec fn path_in(dir: Seq<char>, name: Seq<char>) -> Seq<char> {
    if dir.len() == 0 {
        name
    } else if dir.last() == '/' {
        dir + name
    } else {
        dir + seq!['/'] + name
    }
}

/// `dir` joined with `name`.
///
/// Relies on `Path::join` (through `PathBuf::push`) on Unix-like targets: a
/// relative path is appended, with a `/` added unless `dir` is empty or
/// already ends in one; a name without `/` is relative.
#[verifier::external_body]
pub(crate) fn join_path(dir: &str, name: &str) -> (r: String)
    ensures
        r@ == joined(dir@, name@),
        name@.len() > 0 && no_separator(name@) ==> r@ == path_in(dir@, name@),
{
    std::path::Path::new(dir).join(name).to_string_lossy().into_owned()
}

/// The file name of `path` without its extension.
///
/// Relies on `Path::file_stem` and `OsStr::to_str`: the stem is part of the
/// final component, which holds no separator.
#[verifier::external_body]
pub(crate) fn file_stem(path: &str) -> (r: Option<String>)
    ensures
        r is Some <==> file_stem_of(path@) is Some,
        r matches Some(s) ==> s@ == file_stem_of(path@)->0 && no_separator(s@),
{
    match std::path::Path::new(path).file_stem() {
        Some(s) => match s.to_str() {
            Some(t) => Some(t.to_string()),
            None => None,
        },
        None => None,
    }
}

/// The last component of `path`.
///
/// Relies on `Path::file_name` and `OsStr::to_str`.
#[verifier::external_body]
pub(crate) fn file_name(path: &str) -> (r: Option<String>)
    ensures
        r is Some <==> file_name_of(path@) is Some,
        r matches Some(s) ==> s@ == file_name_of(path@)->0,
{
    match std::path::Path::new(path).file_name() {
        Some(s) => match s.to_str() {
            Some(t) => Some(t.to_string()),
            None => None,
        },
        None => None,
    }
}

/// The directory that holds `path`.
///
/// Relies on `Path::parent`.
#[verifier::external_body]
pub(crate) fn parent(path: &str) -> (r: Option<String>)
    ensures
        r is Some <==> parent_of(path@) is Some,
        r matches Some(s) ==> s@ == parent_of(path@)->0,
{
    match std::path::Path::new(path).parent() {
        Some(p) => Some(p.to_string_lossy().into_owned()),
        None => None,
    }
}

/// The extension of `path`, without the dot.
///
/// Relies on `Path::extension` and `OsStr::to_str`.
#[verifier::external_body]
pub(crate) fn extension(path: &str) -> (r: Option<String>)
    ensures
        r is Some <==> extension_of_path(path@) is Some,
        r matches Some(s) ==> s@ == extension_of_path(path@)->0,
{
    match std::path::Path::new(path).extension() {
        Some(s) => match s.to_str() {
            Some(t) => Some(t.to_string()),
            None => None,
        },
        None => None,
    }
}

} // verus!
