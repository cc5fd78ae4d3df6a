use crate::types::{NoteBodyError, TagError, Timestamp};
use vstd::prelude::*;

verus! {

/// The note's original creation time (its id) and the body and tags being
/// edited when its file vanished.
#[derive(Debug, Clone)]
pub struct RecreateNoteCommand {
    pub created_at: Timestamp,
    pub raw_body: String,
    pub raw_tags: Vec<String>,
}

#[derive(Debug)]
pub enum RecreateNoteError {
    InvalidBody { source: NoteBodyError },
    InvalidTag { raw: String, source: TagError },
    PersistError { path: String, source: std::io::Error },
}

} // verus!
