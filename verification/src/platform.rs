//! The few standard-library facts the request logic relies on: how a path
//! is classified and split, and how tool output bytes are decoded.

use vstd::prelude::*;
use vstd::utf8::{decode_utf8, valid_utf8};

verus! {

/// Whether `std::path::Path::has_root` holds of the path with this text.
pub uninterp spec fn path_has_root(path: Seq<char>) -> bool;

/// What `std::path::Path::file_name` gives for the path with this text,
/// as text.
pub uninterp spec fn path_file_name(path: Seq<char>) -> Option<Seq<char>>;

/// Whether `std::path::Path`'s `==` holds of the paths with these texts
/// (paths compare by their components, so `a/b` and `a//b` may be equal).
pub uninterp spec fn path_eq(a: Seq<char>, b: Seq<char>) -> bool;

/// Whether `std::path::Path`'s `<` holds of the paths with these texts: the
/// order that `BTreeMap<PathBuf, _>` keeps its keys in.
pub uninterp spec fn path_lt(a: Seq<char>, b: Seq<char>) -> bool;

/// Some position of the rearrangement `idx` is taken from position `k`.
pub open spec fn takes_position(idx: Seq<int>, k: int) -> bool {
    exists|i: int| 0 <= i < idx.len() && idx[i] == k
}

/// `after` is `before` put in path order by a stable sort: the same entries
/// (as a rearrangement `idx` of their positions), no entry's path before an
/// earlier one's, and entries whose paths are in neither order kept in the
/// order they came in.
pub open spec fn is_path_sorting(
    before: Seq<(String, String)>,
    after: Seq<(String, String)>,
) -> bool {
    exists|idx: Seq<int>|
        {
            &&& #[trigger] idx.len() == before.len()
            &&& after.len() == before.len()
            &&& forall|i: int| 0 <= i < idx.len() ==> 0 <= #[trigger] idx[i] < before.len()
            &&& forall|i: int| 0 <= i < idx.len() ==> #[trigger] after[i] == before[idx[i]]
            &&& forall|i: int, j: int| 0 <= i < j < idx.len() ==> idx[i] != idx[j]
            &&& forall|k: int| 0 <= k < before.len() ==> #[trigger] takes_position(idx, k)
            &&& forall|i: int, j: int|
                0 <= i < j < after.len() ==> !path_lt(#[trigger] after[j].0@, #[trigger] after[i].0@)
            &&& forall|i: int, j: int|
                0 <= i < j < after.len() && !path_lt(after[i].0@, after[j].0@) && !path_lt(
                    after[j].0@,
                    after[i].0@,
                ) ==> #[trigger] idx[i] < #[trigger] idx[j]
        }
}

/// Whether the text plainly names a relative path on every platform: it
/// does not begin with a separator (`/`, or `\\` on Windows) and has no
/// drive prefix such as `C:`.
pub open spec fn plainly_relative(path: Seq<char>) -> bool {
    ||| path.len() == 0
    ||| (path[0] != '/' && path[0] != '\\' && !(path.len() >= 2 && path[1] == ':'))
}

/// Whether a text is a plain path component: not empty, without a separator
/// (`/`, or `\\` on Windows), and neither `.` nor `..`.
pub open spec fn plain_component(name: Seq<char>) -> bool {
    &&& name.len() > 0
    &&& forall|i: int| 0 <= i < name.len() ==> #[trigger] name[i] != '/' && name[i] != '\\'
    &&& name != seq!['.']
    &&& name != seq!['.', '.']
}

/// Whether the text is a path whose last component is the plain component
/// `name`, on every platform: `name` alone, without a `:` (which could make
/// a drive prefix), or a directory that does not begin with a separator,
/// then `/`, then `name`.
pub open spec fn names_file(path: Seq<char>, name: Seq<char>) -> bool {
    &&& plain_component(name)
    &&& {
        ||| (path == name && forall|i: int| 0 <= i < name.len() ==> #[trigger] name[i] != ':')
        ||| {
            &&& path.len() >= name.len() + 2
            &&& path.subrange(path.len() - name.len(), path.len() as int) == name
            &&& path[path.len() - name.len() - 1] == '/'
            &&& path[0] != '/'
            &&& path[0] != '\\'
        }
    }
}

/// The plain component that the text names as its last, when it is such a
/// path (there is at most one: the text after the last `/`, or the whole
/// text).
pub open spec fn plain_file_name(path: Seq<char>) -> Option<Seq<char>> {
    if exists|n: Seq<char>| #[trigger] names_file(path, n) {
        Some(choose|n: Seq<char>| #[trigger] names_file(path, n))
    } else {
        None
    }
}

/// A text names at most one plain component as its last.
pub proof fn lemma_names_file_unique(path: Seq<char>, a: Seq<char>, b: Seq<char>)
    requires
        names_file(path, a),
        names_file(path, b),
    ensures
        a == b,
{
    let n = path.len();
    if path != a && path != b {
        if a.len() < b.len() {
            let p = n - a.len() - 1;
            assert(path.subrange(n - b.len(), n as int)[p - (n - b.len())] == path[p]);
        } else if b.len() < a.len() {
            let p = n - b.len() - 1;
            assert(path.subrange(n - a.len(), n as int)[p - (n - a.len())] == path[p]);
        }
    } else if path == a && path != b {
        assert(a[n - b.len() - 1] == '/');
    } else if path == b && path != a {
        assert(b[n - a.len() - 1] == '/');
    }
}

/// Whether `b` is the text `a` with one `/` doubled, where that `/` is not
/// the first character and `a` does not begin with `\\` (so it has no root
/// or prefix that a doubled separator could change).
pub open spec fn doubled_separator(a: Seq<char>, b: Seq<char>) -> bool {
    &&& a.len() > 0
    &&& a[0] != '/'
    &&& a[0] != '\\'
    &&& exists|i: int|
        1 <= i < a.len() && #[trigger] a[i] == '/' && b == a.take(i + 1) + seq!['/'] + a.skip(i + 1)
}

/// Two path texts that the library knows to name different paths: they
/// differ as texts, and neither is the other with a separator doubled.
pub open spec fn distinct_paths(a: Seq<char>, b: Seq<char>) -> bool {
    &&& a != b
    &&& !doubled_separator(a, b)
    &&& !doubled_separator(b, a)
}

/// Whether the text ends with the parent-directory component `..`.
pub open spec fn ends_with_parent_dir(path: Seq<char>) -> bool {
    &&& path.len() >= 2
    &&& path[path.len() - 1] == '.'
    &&& path[path.len() - 2] == '.'
    &&& (path.len() == 2 || path[path.len() - 3] == '/')
}

/// Calls `std::path::Path::has_root` on the path with this text.
/// Trusted: the result is the named value `path_has_root`; the standard
/// documentation states that a path beginning with the separator `/` has a
/// root, and that otherwise only a path beginning with a separator or a
/// prefix has one (on Unix a prefix does not exist; on Windows a separator
/// is `/` or `\\` and every prefix begins with `\\` or a drive such as
/// `C:`). Which prefixed paths have a root is left to the name.
#[verifier::external_body]
pub(crate) fn has_root(path: &str) -> (r: bool)
    ensures
        r == path_has_root(path@),
        path@.len() > 0 && path@[0] == '/' ==> r,
        plainly_relative(path@) ==> !r,
{
    std::path::Path::new(path).has_root()
}

/// Calls `std::path::Path::file_name` on the path with this text and turns
/// the final component into text.
/// Trusted: the result is the named value `path_file_name`; the standard
/// documentation states that the file name is the path's final component
/// (separators repeated or at the end, and `.` components, are skipped), and
/// that there is none when the path ends in `..`. The component is a piece
/// of the given UTF-8 text, so the conversion to text loses nothing.
#[verifier::external_body]
pub(crate) fn file_name(path: &str) -> (r: Option<String>)
    ensures
        match r {
            Some(name) => path_file_name(path@) == Some(name@),
            None => path_file_name(path@) is None,
        },
        ends_with_parent_dir(path@) ==> r is None,
        plain_file_name(path@) is Some ==> r is Some && Some(r->0@) == plain_file_name(path@),
{
    match std::path::Path::new(path).file_name() {
        Some(name) => Some(name.to_string_lossy().into_owned()),
        None => None,
    }
}

/// Compares two paths with `std::path::Path`'s `==`.
/// Trusted: the result is the named value `path_eq`; a path equals itself,
/// and the standard documentation states that paths compare by their
/// components and that repeated separators are ignored (`a/b` and `a//b`
/// have the same components).
#[verifier::external_body]
pub(crate) fn same_path(a: &str, b: &str) -> (r: bool)
    ensures
        r == path_eq(a@, b@),
        a@ == b@ ==> r,
        doubled_separator(a@, b@) || doubled_separator(b@, a@) ==> r,
{
    std::path::Path::new(a) == std::path::Path::new(b)
}

/// Sorts (path, content) entries by path with `slice::sort_by_key`, the
/// key being the entry's path as a `std::path::PathBuf`.
/// Trusted: the standard documentation states that this sort is stable and
/// leaves the slice in the key order, the order `path_lt` names.
#[verifier::external_body]
pub(crate) fn sort_by_path(entries: &mut Vec<(String, String)>)
    ensures
        is_path_sorting(old(entries)@, final(entries)@),
        forall|i: int, j: int|
            0 <= i < j < final(entries)@.len() ==> !path_lt(
                #[trigger] final(entries)@[j].0@,
                #[trigger] final(entries)@[i].0@,
            ),
{
    entries.sort_by_key(|entry| std::path::PathBuf::from(&entry.0));
}

/// Calls `std::str::from_utf8` on the bytes and copies the text out.
/// Trusted: the standard documentation states that the call fails exactly
/// when the bytes are not valid UTF-8, and otherwise gives the text they
/// encode; the text of the error is left unsaid.
#[verifier::external_body]
pub(crate) fn decode_text(bytes: &[u8]) -> (r: Result<String, String>)
    ensures
        r is Ok <==> valid_utf8(bytes@),
        r matches Ok(text) ==> text@ == decode_utf8(bytes@),
{
    match std::str::from_utf8(bytes) {
        Ok(text) => Ok(text.to_owned()),
        Err(e) => Err(e.to_string()),
    }
}

} // verus!
