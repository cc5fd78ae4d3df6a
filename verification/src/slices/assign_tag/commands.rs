//! What the assign-tag command answers the user interface.
use super::domain::AssignTagError;
use crate::ports::io_error_message;
use crate::slices::wire::{id_text, tag_name_list};
use crate::types::tag::{string_views, tag_error_text};
use crate::types::timestamp::rfc3339_text;
use crate::types::Note;
use vstd::prelude::*;

verus! {

#[derive(Debug)]
pub enum AssignTagOutcome {
    Assigned { id: String, tags: Vec<String>, updated_at: String },
    NoOp,
}

impl AssignTagOutcome {
    /// The answer for the use case's result: the note's id, tags and RFC 3339
    /// update time, or `NoOp` when nothing changed.
    pub fn from_result(r: Option<Note>) -> (o: AssignTagOutcome)
        requires
            r matches Some(n) ==> n@.updated_at.0 >= 0,
        ensures
            match r {
                Some(n) => o matches AssignTagOutcome::Assigned { id, tags, updated_at } && id@
                    == n@.id && string_views(tags@) == n@.tags && updated_at@ == rfc3339_text(
                    n@.updated_at,
                ),
                None => o is NoOp,
            },
    {
        match r {
            Some(note) => AssignTagOutcome::Assigned {
                id: id_text(note.id()),
                tags: tag_name_list(note.tags()),
                updated_at: note.updated_at().format_rfc3339(),
            },
            None => AssignTagOutcome::NoOp,
        }
    }
}

#[derive(Debug)]
pub enum AssignTagErrorDto {
    NoteNotFound { id: String },
    InvalidTag { name: String, reason: String },
    LoadError { path: String, reason: String },
    PersistError { path: String, reason: String },
}

impl AssignTagErrorDto {
    /// The error as the user interface sees it; an I/O failure's reason is
    /// the I/O error's message.
    pub fn from_error(e: AssignTagError) -> (d: AssignTagErrorDto)
        ensures
            match e {
                AssignTagError::NoteNotFound { id } => d matches AssignTagErrorDto::NoteNotFound {
                    id: x,
                } && x@ == id@,
                AssignTagError::InvalidTag { name, reason } => d matches AssignTagErrorDto::InvalidTag {
                    name: n,
                    reason: m,
                } && n@ == name@ && m@ == tag_error_text(reason),
                AssignTagError::LoadError { path, .. } => d matches AssignTagErrorDto::LoadError {
                    path: p,
                    ..
                } && p@ == path@,
                AssignTagError::PersistError { path, .. } => d matches AssignTagErrorDto::PersistError {
                    path: p,
                    ..
                } && p@ == path@,
            },
    {
        match e {
            AssignTagError::NoteNotFound { id } => AssignTagErrorDto::NoteNotFound { id: id_text(&id) },
            AssignTagError::InvalidTag { name, reason } => AssignTagErrorDto::InvalidTag {
                name,
                reason: reason.message(),
            },
            AssignTagError::LoadError { path, source } => AssignTagErrorDto::LoadError {
                path,
                reason: io_error_message(&source),
            },
            AssignTagError::PersistError { path, source } => AssignTagErrorDto::PersistError {
                path,
                reason: io_error_message(&source),
            },
        }
    }
}

} // verus!
