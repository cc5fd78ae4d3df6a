//! The in-app trash: a note file `<dir>/<name>` goes to
//! `<storage_dir>/trash/<name>` and comes back from there. Moving the files
//! is left to the application.
use crate::paths::{file_name_of, is_path_in, is_plain_file_name, path_join};
use crate::ports::io_error_message;
use crate::slices::delete_note::TrashErrorKind;
use crate::text::push_str;
use vstd::prelude::*;

verus! {

/// Calls `std::io::Error::kind` and compares it with `PermissionDenied`.
/// Nothing is claimed: an I/O error has no model here.
#[verifier::external_body]
fn io_error_is_permission_denied(e: &std::io::Error) -> bool {
    e.kind() == std::io::ErrorKind::PermissionDenied
}

/// The trash error for an I/O failure: `PermissionDenied` for a refused
/// permission, otherwise `Io` with the error's message.
pub fn trash_error_of(permission_denied: bool, message: String) -> (r: TrashErrorKind)
    ensures
        permission_denied ==> r is PermissionDenied,
        !permission_denied ==> (r matches TrashErrorKind::Io(m) && m@ == message@),
{
    if permission_denied {
        TrashErrorKind::PermissionDenied
    } else {
        TrashErrorKind::Io(message)
    }
}

/// Maps an I/O error of the trash move to a trash error.
pub fn map_io_err(e: &std::io::Error) -> (r: TrashErrorKind)
    ensures
        r is PermissionDenied || r is Io,
{
    let denied = io_error_is_permission_denied(e);
    let message = io_error_message(e);
    trash_error_of(denied, message)
}

/// The trash directory inside a storage directory.
pub struct FsTrashService {
    trash_dir: String,
}

impl View for FsTrashService {
    /// The trash directory.
    type V = Seq<char>;

    closed spec fn view(&self) -> Seq<char> {
        self.trash_dir@
    }
}

impl FsTrashService {
    /// The trash of `storage_dir`: its `trash` subdirectory.
    pub fn new(storage_dir: &str) -> (r: FsTrashService)
        ensures
            is_path_in(r@, storage_dir@, "trash"@),
    {
        proof {
            reveal_strlit("trash");
            assert(is_plain_file_name("trash"@));
        }
        FsTrashService { trash_dir: path_join(storage_dir, "trash") }
    }

    pub fn trash_dir(&self) -> (r: &str)
        ensures
            r@ == self@,
    {
        self.trash_dir.as_str()
    }

    /// Where a file of name `name` (the last component of `src`) lies in the
    /// trash; without a name, `Io("no file name in <src>")`.
    pub fn trash_target(&self, name: Option<String>, src: &str) -> (r: Result<String, TrashErrorKind>)
        ensures
            match name {
                Some(n) => r matches Ok(t) && (is_plain_file_name(n@) ==> is_path_in(t@, self@, n@)),
                None => r matches Err(TrashErrorKind::Io(m)) && m@ == "no file name in "@ + src@,
            },
    {
        match name {
            Some(n) => Ok(path_join(self.trash_dir.as_str(), n.as_str())),
            None => {
                let mut m = String::new();
                push_str(&mut m, "no file name in ");
                push_str(&mut m, src);
                Err(TrashErrorKind::Io(m))
            },
        }
    }

    /// Where `src` goes in the trash (and comes back from).
    pub fn target_for(&self, src: &str) -> (r: Result<String, TrashErrorKind>)
        ensures
            r matches Err(e) ==> (e matches TrashErrorKind::Io(m) && m@ == "no file name in "@ + src@),
    {
        let name = file_name_of(src);
        self.trash_target(name, src)
    }
}

} // verus!
