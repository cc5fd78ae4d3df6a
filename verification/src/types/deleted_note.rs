//! The undo handle of a note moved to the trash.
use super::note_id::NoteId;
use vstd::prelude::*;

verus! {

/// Which note was deleted and where its file lived.
#[derive(Debug, PartialEq, Eq)]
pub struct DeletedNote {
    id: NoteId,
    original_path: String,
}

impl View for DeletedNote {
    /// `(id, original path)`.
    type V = (Seq<char>, Seq<char>);

    closed spec fn view(&self) -> (Seq<char>, Seq<char>) {
        (self.id@, self.original_path@)
    }
}

impl Clone for DeletedNote {
    fn clone(&self) -> (r: Self)
        ensures
            r@ == self@,
    {
        DeletedNote { id: self.id.clone(), original_path: self.original_path.clone() }
    }
}

impl DeletedNote {
    /// Only `Note::delete_to_trash` mints undo handles.
    pub(crate) fn new(id: NoteId, original_path: String) -> (r: DeletedNote)
        ensures
            r@ == (id@, original_path@),
    {
        DeletedNote { id, original_path }
    }

    pub fn id(&self) -> (r: &NoteId)
        ensures
            r@ == self@.0,
    {
        &self.id
    }

    pub fn original_path(&self) -> (r: &str)
        ensures
            r@ == self@.1,
    {
        self.original_path.as_str()
    }
}

} // verus!
