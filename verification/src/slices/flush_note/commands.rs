//! What the flush command takes from and answers the user interface.
use super::domain::{FlushError, FlushTrigger};
use crate::ports::io_error_message;
use crate::slices::wire::id_text;
use crate::types::timestamp::rfc3339_text;
use crate::types::Note;
use vstd::prelude::*;

verus! {

/// The trigger as the user interface names it.
#[derive(Debug, Clone, Copy, PartialEq, Eq, Structural)]
pub enum FlushTriggerDto {
    BlockBlur,
    WindowBlur,
    AppQuit,
}

impl From<FlushTriggerDto> for FlushTrigger {
    fn from(dto: FlushTriggerDto) -> (t: FlushTrigger) {
        match dto {
            FlushTriggerDto::BlockBlur => FlushTrigger::BlockBlur,
            FlushTriggerDto::WindowBlur => FlushTrigger::WindowBlur,
            FlushTriggerDto::AppQuit => FlushTrigger::AppQuit,
        }
    }
}

impl vstd::std_specs::convert::FromSpecImpl<FlushTriggerDto> for FlushTrigger {
    open spec fn obeys_from_spec() -> bool {
        true
    }

    /// Each trigger maps to the one of the same name.
    open spec fn from_spec(dto: FlushTriggerDto) -> FlushTrigger {
        match dto {
            FlushTriggerDto::BlockBlur => FlushTrigger::BlockBlur,
            FlushTriggerDto::WindowBlur => FlushTrigger::WindowBlur,
            FlushTriggerDto::AppQuit => FlushTrigger::AppQuit,
        }
    }
}

#[derive(Debug)]
pub enum FlushOutcome {
    Flushed { id: String, updated_at: String },
    NoOp,
}

impl FlushOutcome {
    /// The answer for the use case's result: the note's id and RFC 3339
    /// update time, or `NoOp` when nothing was written.
    pub fn from_result(r: Option<Note>) -> (o: FlushOutcome)
        requires
            r matches Some(n) ==> n@.updated_at.0 >= 0,
        ensures
            match r {
                Some(n) => o matches FlushOutcome::Flushed { id, updated_at } && id@ == n@.id
                    && updated_at@ == rfc3339_text(n@.updated_at),
                None => o is NoOp,
            },
    {
        match r {
            Some(note) => FlushOutcome::Flushed {
                id: id_text(note.id()),
                updated_at: note.updated_at().format_rfc3339(),
            },
            None => FlushOutcome::NoOp,
        }
    }
}

#[derive(Debug)]
pub enum FlushErrorDto {
    NoteNotFound { id: String },
    InvalidBody { reason: String },
    LoadError { path: String, reason: String },
    PersistError { path: String, reason: String },
}

impl FlushErrorDto {
    /// The error as the user interface sees it; an I/O failure's reason is
    /// the I/O error's message.
    pub fn from_error(e: FlushError) -> (d: FlushErrorDto)
        ensures
            match e {
                FlushError::NoteNotFound { id } => d matches FlushErrorDto::NoteNotFound { id: x }
                    && x@ == id@,
                FlushError::InvalidBody { .. } => d matches FlushErrorDto::InvalidBody { reason: m }
                    && m@ == "note body must not contain a frontmatter delimiter line '---'"@,
                FlushError::LoadError { path, .. } => d matches FlushErrorDto::LoadError {
                    path: p,
                    ..
                } && p@ == path@,
                FlushError::PersistError { path, .. } => d matches FlushErrorDto::PersistError {
                    path: p,
                    ..
                } && p@ == path@,
            },
    {
        match e {
            FlushError::NoteNotFound { id } => FlushErrorDto::NoteNotFound { id: id_text(&id) },
            FlushError::InvalidBody { source } => FlushErrorDto::InvalidBody { reason: source.message() },
            FlushError::LoadError { path, source } => FlushErrorDto::LoadError {
                path,
                reason: io_error_message(&source),
            },
            FlushError::PersistError { path, source } => FlushErrorDto::PersistError {
                path,
                reason: io_error_message(&source),
            },
        }
    }
}

} // verus!
