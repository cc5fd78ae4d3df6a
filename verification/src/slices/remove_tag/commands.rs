//! What the remove-tag command answers the user interface.
use super::domain::RemoveTagError;
use crate::ports::io_error_message;
use crate::slices::wire::{id_text, tag_name_list};
use crate::types::tag::string_views;
use crate::types::timestamp::rfc3339_text;
use crate::types::Note;
use vstd::prelude::*;

verus! {

#[derive(Debug)]
pub enum RemoveTagOutcome {
    Removed { id: String, tags: Vec<String>, updated_at: String },
    NoOp,
}

impl RemoveTagOutcome {
    /// The answer for the use case's result: the note's id, remaining tags
    /// and RFC 3339 update time, or `NoOp` when nothing changed.
    pub fn from_result(r: Option<Note>) -> (o: RemoveTagOutcome)
        requires
            r matches Some(n) ==> n@.updated_at.0 >= 0,
        ensures
            match r {
                Some(n) => o matches RemoveTagOutcome::Removed { id, tags, updated_at } && id@
                    == n@.id && string_views(tags@) == n@.tags && updated_at@ == rfc3339_text(
                    n@.updated_at,
                ),
                None => o is NoOp,
            },
    {
        match r {
            Some(note) => RemoveTagOutcome::Removed {
                id: id_text(note.id()),
                tags: tag_name_list(note.tags()),
                updated_at: note.updated_at().format_rfc3339(),
            },
            None => RemoveTagOutcome::NoOp,
        }
    }
}

#[derive(Debug)]
pub enum RemoveTagErrorDto {
    NoteNotFound { id: String },
    LoadError { path: String, reason: String },
    PersistError { path: String, reason: String },
}

impl RemoveTagErrorDto {
    /// The error as the user interface sees it; an I/O failure's reason is
    /// the I/O error's message.
    pub fn from_error(e: RemoveTagError) -> (d: RemoveTagErrorDto)
        ensures
            match e {
                RemoveTagError::NoteNotFound { id } => d matches RemoveTagErrorDto::NoteNotFound {
                    id: x,
                } && x@ == id@,
                RemoveTagError::LoadError { path, .. } => d matches RemoveTagErrorDto::LoadError {
                    path: p,
                    ..
                } && p@ == path@,
                RemoveTagError::PersistError { path, .. } => d matches RemoveTagErrorDto::PersistError {
                    path: p,
                    ..
                } && p@ == path@,
            },
    {
        match e {
            RemoveTagError::NoteNotFound { id } => RemoveTagErrorDto::NoteNotFound { id: id_text(&id) },
            RemoveTagError::LoadError { path, source } => RemoveTagErrorDto::LoadError {
                path,
                reason: io_error_message(&source),
            },
            RemoveTagError::PersistError { path, source } => RemoveTagErrorDto::PersistError {
                path,
                reason: io_error_message(&source),
            },
        }
    }
}

} // verus!
