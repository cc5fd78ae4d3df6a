//! What the copy-note-body command answers the user interface.
use super::domain::CopyNoteBodyError;
use super::ports::ClipboardErrorKind;
use crate::slices::wire::id_text;
use crate::text::owned;
use vstd::prelude::*;

verus! {

#[derive(Debug)]
pub enum CopyNoteBodyErrorDto {
    NoteNotFound { id: String },
    /// `variant` is `unavailable` or `io`.
    ClipboardError { variant: String, reason: String },
}

impl CopyNoteBodyErrorDto {
    pub fn from_error(e: CopyNoteBodyError) -> (d: CopyNoteBodyErrorDto)
        ensures
            match e {
                CopyNoteBodyError::NoteNotFound { id } => d matches CopyNoteBodyErrorDto::NoteNotFound {
                    id: x,
                } && x@ == id@,
                CopyNoteBodyError::ClipboardError { cause } => match cause {
                    ClipboardErrorKind::Unavailable => d matches CopyNoteBodyErrorDto::ClipboardError {
                        variant,
                        reason,
                    } && variant@ == "unavailable"@ && reason@ == "OS clipboard unavailable"@,
                    ClipboardErrorKind::Io(msg) => d matches CopyNoteBodyErrorDto::ClipboardError {
                        variant,
                        reason,
                    } && variant@ == "io"@ && reason@ == msg@,
                },
            },
    {
        match e {
            CopyNoteBodyError::NoteNotFound { id } => CopyNoteBodyErrorDto::NoteNotFound { id: id_text(&id) },
            CopyNoteBodyError::ClipboardError { cause } => match cause {
                ClipboardErrorKind::Unavailable => CopyNoteBodyErrorDto::ClipboardError {
                    variant: owned("unavailable"),
                    reason: owned("OS clipboard unavailable"),
                },
                ClipboardErrorKind::Io(msg) => CopyNoteBodyErrorDto::ClipboardError {
                    variant: owned("io"),
                    reason: msg,
                },
            },
        }
    }
}

} // verus!
