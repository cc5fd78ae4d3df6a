//! What the recreate-note command answers the user interface.
use super::domain::RecreateNoteError;
use crate::ports::io_error_message;
use crate::slices::wire::{id_text, tag_name_list};
use crate::types::tag::{string_views, tag_error_text};
use crate::types::timestamp::rfc3339_text;
use crate::types::timestamp::parse_compact;
use crate::types::{Note, Timestamp};
use vstd::prelude::*;

verus! {

#[derive(Debug)]
pub enum RecreateNoteOutcome {
    Recreated {
        id: String,
        body: String,
        tags: Vec<String>,
        created_at: String,
        updated_at: String,
    },
}

impl RecreateNoteOutcome {
    /// The recreated note as the user interface shows it (times in RFC 3339).
    pub fn from_note(note: &Note) -> (o: RecreateNoteOutcome)
        requires
            note@.created_at.0 >= 0,
            note@.updated_at.0 >= 0,
        ensures
            o matches RecreateNoteOutcome::Recreated { id, body, tags, created_at, updated_at } && id@
                == note@.id && body@ == note@.body && string_views(tags@) == note@.tags
                && created_at@ == rfc3339_text(note@.created_at) && updated_at@ == rfc3339_text(
                note@.updated_at,
            ),
    {
        RecreateNoteOutcome::Recreated {
            id: id_text(note.id()),
            body: note.body_for_clipboard(),
            tags: tag_name_list(note.tags()),
            created_at: note.created_at().format_rfc3339(),
            updated_at: note.updated_at().format_rfc3339(),
        }
    }
}

#[derive(Debug)]
pub enum RecreateNoteErrorDto {
    /// The note id does not spell a time.
    InvalidNoteId { raw: String },
    InvalidBody { reason: String },
    InvalidTag { raw: String, reason: String },
    PersistError { path: String, reason: String },
}

impl RecreateNoteErrorDto {
    /// The error as the user interface sees it; an I/O failure's reason is
    /// the I/O error's message.
    pub fn from_error(e: RecreateNoteError) -> (d: RecreateNoteErrorDto)
        ensures
            match e {
                RecreateNoteError::InvalidBody { .. } => d matches RecreateNoteErrorDto::InvalidBody {
                    reason: m,
                } && m@ == "note body must not contain a frontmatter delimiter line '---'"@,
                RecreateNoteError::InvalidTag { raw, source } => d matches RecreateNoteErrorDto::InvalidTag {
                    raw: r,
                    reason: m,
                } && r@ == raw@ && m@ == tag_error_text(source),
                RecreateNoteError::PersistError { path, .. } => d matches RecreateNoteErrorDto::PersistError {
                    path: p,
                    ..
                } && p@ == path@,
            },
    {
        match e {
            RecreateNoteError::InvalidBody { source } => RecreateNoteErrorDto::InvalidBody {
                reason: source.message(),
            },
            RecreateNoteError::InvalidTag { raw, source } => RecreateNoteErrorDto::InvalidTag {
                raw,
                reason: source.message(),
            },
            RecreateNoteError::PersistError { path, source } => RecreateNoteErrorDto::PersistError {
                path,
                reason: io_error_message(&source),
            },
        }
    }
}

/// The creation time named by the note id the user interface sent, or
/// `InvalidNoteId` carrying the text when it spells no `YYYYMMDDhhmmss` time.
pub fn created_at_of(raw: String) -> (r: Result<Timestamp, RecreateNoteErrorDto>)
    ensures
        match parse_compact(raw@) {
            Some(f) => r matches Ok(t) && t@ == f,
            None => r matches Err(RecreateNoteErrorDto::InvalidNoteId { raw: x }) && x@ == raw@,
        },
{
    match Timestamp::parse_yyyymmddhhmmss(raw.as_str()) {
        Ok(ts) => Ok(ts),
        Err(_) => Err(RecreateNoteErrorDto::InvalidNoteId { raw }),
    }
}

} // verus!
