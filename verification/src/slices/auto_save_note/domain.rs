use crate::types::{NoteBodyError, NoteId};
use vstd::prelude::*;

verus! {

#[derive(Debug, Clone)]
pub struct AutoSaveNoteCommand {
    pub note_id: NoteId,
    pub new_body: String,
}

#[derive(Debug)]
pub enum AutoSaveError {
    NoteNotFound { id: NoteId },
    /// The new body holds a frontmatter delimiter line.
    InvalidBody { source: NoteBodyError },
    /// Reading the note failed.
    LoadError { path: String, source: std::io::Error },
    /// Writing the note failed.
    PersistError { path: String, source: std::io::Error },
}

} // verus!
