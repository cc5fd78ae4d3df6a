use super::ports::TrashErrorKind;
use crate::types::NoteId;
use vstd::prelude::*;

verus! {

#[derive(Debug, Clone)]
pub struct DeleteNoteCommand {
    pub note_id: NoteId,
}

#[derive(Debug)]
pub enum DeleteNoteError {
    /// The note could not be loaded (missing, or the read failed).
    NoteNotFound { id: NoteId },
    /// Moving `path` to the trash failed.
    TrashError { path: String, cause: TrashErrorKind },
}

} // verus!
