//! Path components of `/`-separated paths held as plain strings, read
//! through std's own `Path` parsing.

use crate::text::eq_str;
use vstd::prelude::*;

verus! {

/// The position of the last `.` in `name`, or -1 when it has none.
pub open spec fn last_dot(name: Seq<char>) -> int
    decreases name.len(),
{
    if name.len() == 0 {
        -1
    } else if name.last() == '.' {
        name.len() - 1
    } else {
        last_dot(name.drop_last())
    }
}

/// The extension of a file name as `Path::extension` documents it: none
/// without an embedded `.`, none for a leading `.` with no other `.`,
/// otherwise the text after the final `.`.
pub open spec fn name_extension(name: Seq<char>) -> Option<Seq<char>> {
    let k = last_dot(name);
    if k <= 0 {
        None
    } else {
        Some(name.subrange(k + 1, name.len() as int))
    }
}

/// What `Path::extension` returns for a path: none without a file name,
/// else the extension of the file name.
pub open spec fn path_extension(p: Seq<char>) -> Option<Seq<char>> {
    match path_file_name(p) {
        Some(name) => name_extension(name),
        None => None,
    }
}

/// What `Path::parent` returns for a path: the path without its final
/// component, when there is one.
pub uninterp spec fn path_parent(p: Seq<char>) -> Option<Seq<char>>;

/// What `Path::file_name` returns for a path: its final component, when
/// that is a normal name.
pub uninterp spec fn path_file_name(p: Seq<char>) -> Option<Seq<char>>;

/// The extension of `path`, read by `Path::extension`: none without a
/// file name or an embedded `.`, none for a leading `.` with no other `.`,
/// otherwise the part of the file name after the final `.`.
#[verifier::external_body]
pub(crate) fn extension(path: &str) -> (r: Option<String>)
    ensures
        match r {
            Some(e) => path_extension(path@) == Some(e@),
            None => path_extension(path@) is None,
        },
{
    match std::path::Path::new(path).extension() {
        Some(ext) => Some(ext.to_string_lossy().into_owned()),
        None => None,
    }
}

/// The parent of `path`, read by `Path::parent`.
#[verifier::external_body]
pub(crate) fn parent(path: &str) -> (r: Option<String>)
    ensures
        match r {
            Some(e) => path_parent(path@) == Some(e@),
            None => path_parent(path@) is None,
        },
{
    match std::path::Path::new(path).parent() {
        Some(dir) => Some(dir.to_string_lossy().into_owned()),
        None => None,
    }
}

/// The final component of `path`, read by `Path::file_name`.
#[verifier::external_body]
pub(crate) fn file_name(path: &str) -> (r: Option<String>)
    ensures
        match r {
            Some(e) => path_file_name(path@) == Some(e@),
            None => path_file_name(path@) is None,
        },
{
    match std::path::Path::new(path).file_name() {
        Some(name) => Some(name.to_string_lossy().into_owned()),
        None => None,
    }
}

/// What `Path::components` yields for a path, each component taken as
/// its text (`/` for the root, `.` and `..` for the special ones).
pub uninterp spec fn path_components(p: Seq<char>) -> Seq<Seq<char>>;

/// The components of `path`, read by `Path::components`.
#[verifier::external_body]
pub(crate) fn components(path: &str) -> (r: Vec<String>)
    ensures
        r@.map_values(|c: String| c@) == path_components(path@),
{
    let mut parts = Vec::new();
    for component in std::path::Path::new(path).components() {
        parts.push(component.as_os_str().to_string_lossy().into_owned());
    }
    parts
}

/// Path equality as `Path`'s `==` defines it: equal component lists, so
/// repeated separators and interior `.` do not count.
pub open spec fn path_eq(a: Seq<char>, b: Seq<char>) -> bool {
    path_components(a) == path_components(b)
}

/// Compares two paths component by component.
pub fn paths_equal(a: &str, b: &str) -> (r: bool)
    ensures
        r == path_eq(a@, b@),
{
    let ca = components(a);
    let cb = components(b);
    let ghost va = ca@.map_values(|c: String| c@);
    let ghost vb = cb@.map_values(|c: String| c@);
    if ca.len() != cb.len() {
        assert(va.len() != vb.len());
        return false;
    }
    let mut i: usize = 0;
    while i < ca.len()
        invariant
            va == ca@.map_values(|c: String| c@),
            vb == cb@.map_values(|c: String| c@),
            va == path_components(a@),
            vb == path_components(b@),
            ca.len() == cb.len(),
            i <= ca.len(),
            forall|j: int| 0 <= j < i ==> va[j] == vb[j],
        decreases ca.len() - i,
    {
        if !eq_str(ca[i].as_str(), cb[i].as_str()) {
            assert(va[i as int] != vb[i as int]);
            return false;
        }
        i = i + 1;
    }
    assert(va =~= vb);
    true
}

} // verus!
