use crate::text::push_str;
use crate::types::{DeletedNote, NoteId};
use std::rc::Rc;
use vstd::prelude::*;

verus! {

/// Why a move to or from the trash failed.
#[derive(Debug, Clone, PartialEq, Eq)]
pub enum TrashErrorKind {
    PermissionDenied,
    /// The adapter's message.
    Io(String),
    Unsupported,
}

impl TrashErrorKind {
    pub fn message(&self) -> (m: String)
        ensures
            match self {
                TrashErrorKind::PermissionDenied => m@ == "permission denied"@,
                TrashErrorKind::Io(s) => m@ == "trash io: "@ + s@,
                TrashErrorKind::Unsupported => m@ == "trash not supported on this platform"@,
            },
    {
        let mut m = String::new();
        match self {
            TrashErrorKind::PermissionDenied => push_str(&mut m, "permission denied"),
            TrashErrorKind::Io(s) => {
                push_str(&mut m, "trash io: ");
                push_str(&mut m, s.as_str());
            },
            TrashErrorKind::Unsupported => push_str(&mut m, "trash not supported on this platform"),
        }
        m
    }
}

/// Moves files to the trash and back.
pub trait TrashService {
    /// Moving the file `path` to the trash answered `r`: the
    /// implementation's record, which by default holds of everything (see
    /// `NoteRepository`).
    open spec fn trashed(&self, path: Seq<char>, r: Result<(), TrashErrorKind>) -> bool {
        true
    }

    fn move_to_trash(&self, path: &str) -> (r: Result<(), TrashErrorKind>)
        ensures
            self.trashed(path@, r),
    ;

    fn restore_from_trash(&self, path: &str) -> Result<(), TrashErrorKind>;
}

/// The undo handles of deleted notes.
pub trait UndoStack {
    /// The handle `deleted` (its view) was pushed: the implementation's
    /// record, which by default holds of everything (see `NoteRepository`).
    open spec fn pushed(&self, deleted: (Seq<char>, Seq<char>)) -> bool {
        true
    }

    /// Adds a handle; the handles already held stay.
    fn push(&self, deleted: DeletedNote)
        ensures
            self.pushed(deleted@),
    ;

    fn find_by_id(&self, id: &NoteId) -> Option<DeletedNote>;

    /// Removes one handle of note `id` and returns it.
    fn remove_by_id(&self, id: &NoteId) -> Option<DeletedNote>;
}

impl<T: TrashService> TrashService for Rc<T> {
    open spec fn trashed(&self, path: Seq<char>, r: Result<(), TrashErrorKind>) -> bool {
        (**self).trashed(path, r)
    }

    fn move_to_trash(&self, path: &str) -> (r: Result<(), TrashErrorKind>) {
        (**self).move_to_trash(path)
    }

    fn restore_from_trash(&self, path: &str) -> Result<(), TrashErrorKind> {
        (**self).restore_from_trash(path)
    }
}

impl<T: UndoStack> UndoStack for Rc<T> {
    open spec fn pushed(&self, deleted: (Seq<char>, Seq<char>)) -> bool {
        (**self).pushed(deleted)
    }

    fn push(&self, deleted: DeletedNote) {
        (**self).push(deleted)
    }

    fn find_by_id(&self, id: &NoteId) -> Option<DeletedNote> {
        (**self).find_by_id(id)
    }

    fn remove_by_id(&self, id: &NoteId) -> Option<DeletedNote> {
        (**self).remove_by_id(id)
    }
}

} // verus!
