//! What the delete-note command answers the user interface.
use super::domain::DeleteNoteError;
use super::ports::TrashErrorKind;
use crate::slices::wire::id_text;
use crate::text::owned;
use crate::types::timestamp::{compact_text, parse_compact};
use crate::types::{DeletedNote, NoteId, Timestamp};
use vstd::prelude::*;

verus! {

#[derive(Debug)]
pub struct DeletedNoteDto {
    pub id: String,
    pub original_path: String,
}

impl DeletedNoteDto {
    pub fn from_deleted(d: &DeletedNote) -> (r: DeletedNoteDto)
        ensures
            r.id@ == d@.0,
            r.original_path@ == d@.1,
    {
        DeletedNoteDto { id: id_text(d.id()), original_path: owned(d.original_path()) }
    }
}

#[derive(Debug)]
pub enum DeleteNoteErrorDto {
    /// The note id does not spell a time.
    InvalidNoteId { raw: String },
    NoteNotFound { id: String },
    /// `variant` is `permission_denied`, `io` or `unsupported`.
    TrashError { path: String, variant: String, reason: String },
}

impl DeleteNoteErrorDto {
    pub fn from_error(e: DeleteNoteError) -> (d: DeleteNoteErrorDto)
        ensures
            match e {
                DeleteNoteError::NoteNotFound { id } => d matches DeleteNoteErrorDto::NoteNotFound {
                    id: x,
                } && x@ == id@,
                DeleteNoteError::TrashError { path, cause } => d matches DeleteNoteErrorDto::TrashError {
                    path: p,
                    variant,
                    reason,
                } && p@ == path@ && match cause {
                    TrashErrorKind::PermissionDenied => variant@ == "permission_denied"@ && reason@
                        == "permission denied"@,
                    TrashErrorKind::Io(msg) => variant@ == "io"@ && reason@ == msg@,
                    TrashErrorKind::Unsupported => variant@ == "unsupported"@ && reason@
                        == "trash not supported on this platform"@,
                },
            },
    {
        match e {
            DeleteNoteError::NoteNotFound { id } => DeleteNoteErrorDto::NoteNotFound { id: id_text(&id) },
            DeleteNoteError::TrashError { path, cause } => {
                let (variant, reason) = match cause {
                    TrashErrorKind::PermissionDenied => (
                        owned("permission_denied"),
                        owned("permission denied"),
                    ),
                    TrashErrorKind::Io(msg) => (owned("io"), msg),
                    TrashErrorKind::Unsupported => (
                        owned("unsupported"),
                        owned("trash not supported on this platform"),
                    ),
                };
                DeleteNoteErrorDto::TrashError { path, variant, reason }
            },
        }
    }
}

/// The note named by the id the user interface sent, or `InvalidNoteId`
/// carrying the text when it spells no `YYYYMMDDhhmmss` time.
pub fn note_id_of(raw: String) -> (r: Result<NoteId, DeleteNoteErrorDto>)
    ensures
        match parse_compact(raw@) {
            Some(f) => r matches Ok(id) && id@ == compact_text(f),
            None => r matches Err(DeleteNoteErrorDto::InvalidNoteId { raw: x }) && x@ == raw@,
        },
{
    match Timestamp::parse_yyyymmddhhmmss(raw.as_str()) {
        Ok(ts) => Ok(NoteId::from_timestamp(ts)),
        Err(_) => Err(DeleteNoteErrorDto::InvalidNoteId { raw }),
    }
}

} // verus!
