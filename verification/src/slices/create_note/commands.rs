//! What the create-note command answers the user interface.
use super::domain::CreateNoteError;
use crate::ports::io_error_message;
use crate::slices::wire::id_text;
use crate::types::tag::tag_error_text;
use crate::types::timestamp::rfc3339_text;
use crate::types::Note;
use vstd::prelude::*;

verus! {

#[derive(Debug)]
pub enum CreateNoteOutcome {
    Created { id: String, created_at: String },
    NoOp,
}

impl CreateNoteOutcome {
    /// The answer for the use case's result: the new note's id and RFC 3339
    /// creation time, or `NoOp` for a blank body.
    pub fn from_result(r: Option<Note>) -> (o: CreateNoteOutcome)
        requires
            r matches Some(n) ==> n@.created_at.0 >= 0,
        ensures
            match r {
                Some(n) => o matches CreateNoteOutcome::Created { id, created_at } && id@ == n@.id
                    && created_at@ == rfc3339_text(n@.created_at),
                None => o is NoOp,
            },
    {
        match r {
            Some(note) => CreateNoteOutcome::Created {
                id: id_text(note.id()),
                created_at: note.created_at().format_rfc3339(),
            },
            None => CreateNoteOutcome::NoOp,
        }
    }
}

#[derive(Debug)]
pub enum CreateNoteErrorDto {
    InvalidTag { raw: String, reason: String },
    InvalidBody { reason: String },
    PersistError { path: String, reason: String },
}

impl CreateNoteErrorDto {
    /// The error as the user interface sees it; an I/O failure's reason is
    /// the I/O error's message.
    pub fn from_error(e: CreateNoteError) -> (d: CreateNoteErrorDto)
        ensures
            match e {
                CreateNoteError::InvalidTag { raw, source } => d matches CreateNoteErrorDto::InvalidTag {
                    raw: r,
                    reason: m,
                } && r@ == raw@ && m@ == tag_error_text(source),
                CreateNoteError::InvalidBody { .. } => d matches CreateNoteErrorDto::InvalidBody {
                    reason: m,
                } && m@ == "note body must not contain a frontmatter delimiter line '---'"@,
                CreateNoteError::PersistError { path, .. } => d matches CreateNoteErrorDto::PersistError {
                    path: p,
                    ..
                } && p@ == path@,
            },
    {
        match e {
            CreateNoteError::InvalidTag { raw, source } => CreateNoteErrorDto::InvalidTag {
                raw,
                reason: source.message(),
            },
            CreateNoteError::InvalidBody { source } => CreateNoteErrorDto::InvalidBody {
                reason: source.message(),
            },
            CreateNoteError::PersistError { path, source } => CreateNoteErrorDto::PersistError {
                path,
                reason: io_error_message(&source),
            },
        }
    }
}

} // verus!
