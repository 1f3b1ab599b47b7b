//! Path helpers: the few `std::path` operations the dialog uses, and the
//! display name of a path.

use vstd::prelude::*;

verus! {

/// What `std::path::Path::file_name` returns for a path, as characters.
pub uninterp spec fn path_file_name(path: Seq<char>) -> Option<Seq<char>>;

/// What `std::path::Path::parent` returns for a path, as characters.
pub uninterp spec fn path_parent(path: Seq<char>) -> Option<Seq<char>>;

/// What `std::path::Path::join` returns for a base path and a further path.
pub uninterp spec fn path_join(base: Seq<char>, name: Seq<char>) -> Seq<char>;

/// What `std::path::Path::with_file_name` returns for a path and a file name.
pub uninterp spec fn path_with_file_name(path: Seq<char>, name: Seq<char>) -> Seq<char>;

/// What `==` on `std::path::Path` says of two paths (it compares their
/// components, so `a/b` and `a/b/` are equal).
pub uninterp spec fn path_eq(a: Seq<char>, b: Seq<char>) -> bool;

/// The characters of an optional string.
pub open spec fn opt_view(o: Option<String>) -> Option<Seq<char>> {
    match o {
        Some(s) => Some(s@),
        None => None,
    }
}

/// Calls `Path::file_name`; the final component, converted to a `String`.
/// Nothing about its value is claimed beyond the name `path_file_name`.
#[verifier::external_body]
pub(crate) fn std_file_name(path: &str) -> (r: Option<String>)
    ensures
        opt_view(r) == path_file_name(path@),
{
    std::path::Path::new(path).file_name().map(|n| n.to_string_lossy().into_owned())
}

/// Calls `Path::parent`; the path without its final component, if any.
/// Nothing about its value is claimed beyond the name `path_parent`.
#[verifier::external_body]
pub(crate) fn std_parent(path: &str) -> (r: Option<String>)
    ensures
        opt_view(r) == path_parent(path@),
{
    std::path::Path::new(path).parent().map(|p| p.to_string_lossy().into_owned())
}

/// A plain file name: not empty, not `.` or `..`, and without `/`, `\` or
/// `:`, so that no platform reads a separator, root or prefix in it.
pub open spec fn plain_name(name: Seq<char>) -> bool {
    &&& name.len() > 0
    &&& name != "."@
    &&& name != ".."@
    &&& forall|i: int| 0 <= i < name.len() ==> #[trigger] name[i] != '/' && name[i] != '\\' && name[i] != ':'
}

/// Calls `Path::join`; the base path extended by `name`. Claimed: the name
/// `path_join`, and that a plain name becomes the final component, so it is
/// what `Path::file_name` gives of the result (`PathBuf::push` documents that
/// a relative path without prefix or root is appended after a separator).
#[verifier::external_body]
pub(crate) fn std_join(base: &str, name: &str) -> (r: String)
    ensures
        r@ == path_join(base@, name@),
        plain_name(name@) ==> path_file_name(r@) == Some(name@),
{
    std::path::Path::new(base).join(name).to_string_lossy().into_owned()
}

/// Calls `Path::with_file_name`; the path with its final component replaced.
/// Nothing about its value is claimed beyond the name `path_with_file_name`.
#[verifier::external_body]
pub(crate) fn std_with_file_name(path: &str, name: &str) -> (r: String)
    ensures
        r@ == path_with_file_name(path@, name@),
{
    std::path::Path::new(path).with_file_name(name).to_string_lossy().into_owned()
}

/// Calls `==` on two `Path`s. Claimed: the name `path_eq`, and that a path
/// equals itself (`Path` is `Eq`); how other paths compare is left unsaid.
#[verifier::external_body]
pub(crate) fn std_path_eq(a: &str, b: &str) -> (r: bool)
    ensures
        r == path_eq(a@, b@),
        a@ == b@ ==> r,
{
    std::path::Path::new(a) == std::path::Path::new(b)
}

/// A Windows drive root: an upper-case ASCII letter followed by `:\`.
pub open spec fn spec_is_drive_root(path: Seq<char>) -> bool {
    &&& path.len() == 3
    &&& 'A' <= path[0] <= 'Z'
    &&& path[1] == ':'
    &&& path[2] == '\\'
}

/// Whether `path` names a Windows drive root such as `C:\`.
pub fn is_drive_root(path: &str) -> (r: bool)
    ensures
        r == spec_is_drive_root(path@),
{
    let n = path.unicode_len();
    if n == 0 {
        return false;
    }
    let c = path.get_char(0);
    if !('A' <= c && c <= 'Z') {
        return false;
    }
    n == 3 && path.get_char(1) == ':' && path.get_char(2) == '\\'
}

/// The name shown for a path: a drive root that is a directory shows in
/// full, any other path shows its final component, or nothing.
pub open spec fn spec_file_name(path: Seq<char>, is_dir: bool) -> Seq<char> {
    if is_dir && spec_is_drive_root(path) {
        path
    } else {
        match path_file_name(path) {
            Some(name) => name,
            None => Seq::empty(),
        }
    }
}

/// The name shown for `path`; `is_dir` tells whether the path is a directory.
pub fn get_file_name(path: &str, is_dir: bool) -> (r: String)
    ensures
        r@ == spec_file_name(path@, is_dir),
{
    if is_dir && is_drive_root(path) {
        return path.to_string();
    }
    match std_file_name(path) {
        Some(name) => name,
        None => String::new(),
    }
}

} // verus!
