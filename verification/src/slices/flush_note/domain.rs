use crate::types::{NoteBodyError, NoteId};
use vstd::prelude::*;

verus! {

/// What asked for the flush: the block lost focus, the window lost focus,
/// or the application is quitting.
#[derive(Debug, Clone, Copy, PartialEq, Eq, Structural)]
pub enum FlushTrigger {
    BlockBlur,
    WindowBlur,
    AppQuit,
}

#[derive(Debug, Clone)]
pub struct FlushNoteCommand {
    pub note_id: NoteId,
    pub pending_body: String,
    pub trigger: FlushTrigger,
}

#[derive(Debug)]
pub enum FlushError {
    NoteNotFound { id: NoteId },
    /// The pending body holds a frontmatter delimiter line.
    InvalidBody { source: NoteBodyError },
    /// Reading the note failed.
    LoadError { path: String, source: std::io::Error },
    /// Writing the note failed.
    PersistError { path: String, source: std::io::Error },
}

} // verus!
