use vstd::prelude::*;
use crate::text::has_char;

verus! {

/// A single path component written without separators that is neither `.`
/// nor `..`.
pub open spec fn is_plain_name(s: Seq<char>) -> bool {
    &&& s.len() > 0
    &&& !has_char(s, '/')
    &&& s != seq!['.']
    &&& s != seq!['.', '.']
}

/// A directory path with no `.` anywhere, no empty component and no
/// trailing separator, such as `apps/files` or `/srv/drop`.
pub open spec fn is_plain_dir(s: Seq<char>) -> bool {
    &&& s.len() > 0
    &&& s.last() != '/'
    &&& !has_char(s, '.')
    &&& forall|i: int| 0 <= i < s.len() - 1 ==> !(#[trigger] s[i] == '/' && s[i + 1] == '/')
}

/// What `std::path::Path::join` makes of `base` and `rel` on Unix: an
/// absolute `rel` replaces `base`; otherwise `rel` is appended, after a `/`
/// unless `base` is empty or already ends in one.
pub open spec fn path_join(base: Seq<char>, rel: Seq<char>) -> Seq<char> {
    if rel.len() > 0 && rel[0] == '/' {
        rel
    } else if base.len() == 0 || base.last() == '/' {
        base + rel
    } else {
        base + seq!['/'] + rel
    }
}

/// What `std::path::PathBuf::set_file_name` makes of `path` and `name` (on Unix).
pub uninterp spec fn path_with_file_name(path: Seq<char>, name: Seq<char>) -> Seq<char>;

/// Adjoins `rel` to `base` with `std::path::Path::join`.
///
/// Trusted: as documented for `Path::join` and `PathBuf::push`, on Unix
/// (where a path is absolute exactly when it starts with `/`) the result is
/// `path_join`. This crate is built for Unix servers; on Windows the rules
/// for prefixes and `\\` separators differ and this contract would not hold.
#[verifier::external_body]
pub(crate) fn join_path(base: &str, rel: &str) -> (res: String)
    ensures
        res@ == path_join(base@, rel@),
{
    std::path::Path::new(base).join(rel).to_string_lossy().into_owned()
}

/// Replaces the last component of `path` by `name` with
/// `std::path::PathBuf::set_file_name`.
///
/// Trusted: the result depends on the two texts alone. As documented, when
/// the path ends in a file name it is removed (leaving the parent directory)
/// and `name` is pushed in its place.
#[verifier::external_body]
pub(crate) fn replace_file_name(path: &str, name: &str) -> (res: String)
    ensures
        res@ == path_with_file_name(path@, name@),
        forall|dir: Seq<char>, leaf: Seq<char>|
            is_plain_dir(dir) && is_plain_name(leaf) && path@ == #[trigger] (dir + seq!['/'] + leaf)
                && name@.len() > 0 && !has_char(name@, '/') ==> res@ == dir + seq!['/'] + name@,
{
    let mut p = std::path::PathBuf::from(path);
    p.set_file_name(name);
    p.to_string_lossy().into_owned()
}

} // verus!
