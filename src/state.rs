//! Where an image's edits are kept on disk.

use vstd::prelude::*;
use crate::paths::{file_name, file_name_of, join_path, joined, parent, parent_of};
use crate::text::{chars_of, string_of};

verus! {

/// The sidecar of an image: `<dir>/.edits/<file name>.json`, where `<dir>`
/// is the image's directory, or `.` when it has none.
pub open spec fn sidecar_of(image_path: Seq<char>) -> Seq<char> {
    let dir = match parent_of(image_path) {
        Some(d) => d,
        None => "."@,
    };
    joined(joined(dir, ".edits"@), file_name_of(image_path)->0 + ".json"@)
}

/// The path of the edit sidecar of `image_path`, which must name a file.
pub fn sidecar_path(image_path: &str) -> (r: String)
    requires
        file_name_of(image_path@) is Some,
    ensures
        r@ == sidecar_of(image_path@),
{
    let dir: String = match parent(image_path) {
        Some(d) => d,
        None => {
            let mut v: Vec<char> = Vec::new();
            crate::text::push_vec(&mut v, &chars_of("."));
            string_of(&v)
        },
    };
    let edits = join_path(dir.as_str(), ".edits");
    let name = match file_name(image_path) {
        Some(n) => n,
        None => String::new(),
    };
    let mut v = chars_of(name.as_str());
    crate::text::push_vec(&mut v, &chars_of(".json"));
    let leaf = string_of(&v);
    join_path(edits.as_str(), leaf.as_str())
}

/// The sidecar path of `image_path`, or `None` when the path names no file
/// (it ends in `..` or is a root).
pub fn try_sidecar_path(image_path: &str) -> (r: Option<String>)
    ensures
        r is Some <==> file_name_of(image_path@) is Some,
        r matches Some(p) ==> p@ == sidecar_of(image_path@),
{
    match file_name(image_path) {
        Some(_) => Some(sidecar_path(image_path)),
        None => None,
    }
}

} // verus!
