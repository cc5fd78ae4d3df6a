use super::ports::ClipboardErrorKind;
use crate::types::NoteId;
use vstd::prelude::*;

verus! {

#[derive(Debug, Clone)]
pub struct CopyNoteBodyCommand {
    pub note_id: NoteId,
}

#[derive(Debug)]
pub enum CopyNoteBodyError {
    /// The note could not be loaded (missing, or the read failed).
    NoteNotFound { id: NoteId },
    /// The clipboard refused the text.
    ClipboardError { cause: ClipboardErrorKind },
}

} // verus!
