//! File paths, kept as strings.
use vstd::prelude::*;

verus! {

/// A path separator on some platform.
pub open spec fn is_separator(c: char) -> bool {
    c == '/' || c == '\\'
}

/// `dir` is a bare drive such as `C:`, which Windows joins without a
/// separator.
pub open spec fn is_bare_drive(dir: Seq<char>) -> bool {
    dir.len() == 2 && dir[1] == ':' && (('a' <= dir[0] && dir[0] <= 'z') || ('A' <= dir[0]
        && dir[0] <= 'Z'))
}

/// `r` is `dir` joined with the relative file name `name` the way
/// `Path::join` does it on Unix or on Windows:
/// - an empty `dir` gives `name`, and one ending in `/` gives `dir + name`;
/// - one ending in `\\`, or a bare drive, gives `dir + name` (Windows) or
///   `dir + "/" + name` (Unix, where neither is special);
/// - any other `dir` gives `dir`, the platform's separator, then `name`.
pub open spec fn is_joined_path(r: Seq<char>, dir: Seq<char>, name: Seq<char>) -> bool {
    if dir.len() == 0 {
        r == name
    } else if dir[dir.len() - 1] == '/' {
        r == dir + name
    } else if dir[dir.len() - 1] == '\\' || is_bare_drive(dir) {
        r == dir + name || r == dir + seq!['/'] + name
    } else {
        r == dir + seq!['/'] + name || r == dir + seq!['\\'] + name
    }
}

/// A Windows verbatim path (`\\?\...`): `Path::join` normalizes such a
/// path, removing `.` and `..` components.
pub open spec fn has_verbatim_prefix(dir: Seq<char>) -> bool {
    dir.len() >= 4 && dir[0] == '\\' && dir[1] == '\\' && dir[2] == '?' && dir[3] == '\\'
}

/// `r` is `dir` joined with `name` wherever `Path::join` joins plainly, that
/// is for every directory without a verbatim prefix.
pub open spec fn is_path_in(r: Seq<char>, dir: Seq<char>, name: Seq<char>) -> bool {
    !has_verbatim_prefix(dir) ==> is_joined_path(r, dir, name)
}

/// A plain file name: non-empty, no separator, not a drive prefix.
pub open spec fn is_plain_file_name(name: Seq<char>) -> bool {
    &&& name.len() > 0
    &&& forall|i: int| 0 <= i < name.len() ==> !is_separator(#[trigger] name[i]) && name[i] != ':'
}

/// Calls `Path::join` on `dir` and `name`; claimed, as the documentation of
/// `PathBuf::push` shows for a relative one-component name and a directory
/// without a verbatim prefix: `is_joined_path`, that is `dir` followed by
/// `name`, with the platform's separator in between unless `dir` is empty,
/// ends in a separator of the platform or is a bare drive on Windows. Which
/// platform runs is not known here, so where Unix and Windows differ both
/// results are admitted. Nothing is claimed
/// for other names (an absolute one replaces `dir`) nor for a verbatim
/// directory, which the call normalizes.
#[verifier::external_body]
pub(crate) fn path_join(dir: &str, name: &str) -> (r: String)
    ensures
        is_plain_file_name(name@) ==> is_path_in(r@, dir@, name@),
{
    std::path::Path::new(dir).join(name).to_string_lossy().into_owned()
}

/// Calls `Path::file_name`: the last component of `path`, if there is one.
/// Nothing is claimed of the result: how a path splits into components
/// depends on the platform.
#[verifier::external_body]
pub(crate) fn file_name_of(path: &str) -> Option<String> {
    std::path::Path::new(path).file_name().map(|n| n.to_string_lossy().into_owned())
}

} // verus!
