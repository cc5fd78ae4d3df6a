use crate::types::{NoteBodyError, TagError};
use vstd::prelude::*;

verus! {

#[derive(Debug, Clone)]
pub struct CreateNoteCommand {
    pub raw_body: String,
    pub raw_tags: Vec<String>,
}

#[derive(Debug)]
pub enum CreateNoteError {
    InvalidTag { raw: String, source: TagError },
    InvalidBody { source: NoteBodyError },
    PersistError { path: String, source: std::io::Error },
}

} // verus!
