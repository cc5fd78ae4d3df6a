//! What the auto-save command answers the user interface.
use super::domain::AutoSaveError;
use crate::ports::io_error_message;
use crate::slices::wire::id_text;
use crate::types::timestamp::compact_text;
use crate::types::Note;
use vstd::prelude::*;

verus! {

#[derive(Debug)]
pub enum AutoSaveOutcome {
    /// `updated_at` is in the compact `YYYYMMDDhhmmss` form.
    Saved { id: String, updated_at: String },
    NoOp,
}

impl AutoSaveOutcome {
    /// The answer for the use case's result: the note's id and compact update
    /// time, or `NoOp` when nothing changed.
    pub fn from_result(r: Option<Note>) -> (o: AutoSaveOutcome)
        ensures
            match r {
                Some(n) => o matches AutoSaveOutcome::Saved { id, updated_at } && id@ == n@.id
                    && updated_at@ == compact_text(n@.updated_at),
                None => o is NoOp,
            },
    {
        match r {
            Some(note) => AutoSaveOutcome::Saved {
                id: id_text(note.id()),
                updated_at: note.updated_at().format_yyyymmddhhmmss(),
            },
            None => AutoSaveOutcome::NoOp,
        }
    }
}

#[derive(Debug)]
pub enum AutoSaveErrorDto {
    NoteNotFound { id: String },
    InvalidBody { reason: String },
    LoadError { path: String, reason: String },
    PersistError { path: String, reason: String },
}

impl AutoSaveErrorDto {
    /// The error as the user interface sees it; an I/O failure's reason is
    /// the I/O error's message.
    pub fn from_error(e: AutoSaveError) -> (d: AutoSaveErrorDto)
        ensures
            match e {
                AutoSaveError::NoteNotFound { id } => d matches AutoSaveErrorDto::NoteNotFound {
                    id: x,
                } && x@ == id@,
                AutoSaveError::InvalidBody { .. } => d matches AutoSaveErrorDto::InvalidBody {
                    reason: m,
                } && m@ == "note body must not contain a frontmatter delimiter line '---'"@,
                AutoSaveError::LoadError { path, .. } => d matches AutoSaveErrorDto::LoadError {
                    path: p,
                    ..
                } && p@ == path@,
                AutoSaveError::PersistError { path, .. } => d matches AutoSaveErrorDto::PersistError {
                    path: p,
                    ..
                } && p@ == path@,
            },
    {
        match e {
            AutoSaveError::NoteNotFound { id } => AutoSaveErrorDto::NoteNotFound { id: id_text(&id) },
            AutoSaveError::InvalidBody { source } => AutoSaveErrorDto::InvalidBody {
                reason: source.message(),
            },
            AutoSaveError::LoadError { path, source } => AutoSaveErrorDto::LoadError {
                path,
                reason: io_error_message(&source),
            },
            AutoSaveError::PersistError { path, source } => AutoSaveErrorDto::PersistError {
                path,
                reason: io_error_message(&source),
            },
        }
    }
}

} // verus!
