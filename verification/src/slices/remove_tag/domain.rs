use crate::types::NoteId;
use vstd::prelude::*;

verus! {

#[derive(Debug, Clone)]
pub struct RemoveTagCommand {
    pub note_id: NoteId,
    /// The tag name as shown on the tag chip; matched exactly, not normalized.
    pub tag_name: String,
}

#[derive(Debug)]
pub enum RemoveTagError {
    NoteNotFound { id: NoteId },
    /// Reading the note failed.
    LoadError { path: String, source: std::io::Error },
    /// Writing the note failed.
    PersistError { path: String, source: std::io::Error },
}

} // verus!
