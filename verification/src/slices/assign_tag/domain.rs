use crate::types::{NoteId, TagError};
use vstd::prelude::*;

verus! {

#[derive(Debug, Clone)]
pub struct AssignTagCommand {
    pub note_id: NoteId,
    pub raw_tag: String,
}

#[derive(Debug)]
pub enum AssignTagError {
    NoteNotFound { id: NoteId },
    /// `Tag::new(raw_tag)` refused the tag; `name` is the raw tag.
    InvalidTag { name: String, reason: TagError },
    /// Reading the note failed.
    LoadError { path: String, source: std::io::Error },
    /// Writing the note failed.
    PersistError { path: String, source: std::io::Error },
}

} // verus!
