//! Domain events published by the use cases.
use crate::types::{BodyHash, Note, NoteId, NoteView, TagSet, Timestamp};
use vstd::prelude::*;

verus! {

#[derive(Debug, Clone, PartialEq, Eq)]
pub enum DomainEvent {
    NoteCreated { note_id: NoteId, created_at: Timestamp, initial_tags: TagSet },
    NoteBodyEdited { note_id: NoteId, updated_at: Timestamp },
    NoteTagsChanged { note_id: NoteId, tags: TagSet, updated_at: Timestamp },
    /// Published after the file went to the trash and the undo handle was stored.
    NoteDeletedToTrash { note_id: NoteId, original_path: String, deleted_at: Timestamp },
    /// Published after a trashed note was brought back.
    NoteRestoredFromTrash { note_id: NoteId, restored_at: Timestamp },
    NoteFileCreatedExternally {
        note_id: NoteId,
        note: Note,
        file_path: String,
        detected_at: Timestamp,
    },
    NoteFileModifiedExternally {
        note_id: NoteId,
        disk_body_hash: BodyHash,
        note: Note,
        file_path: String,
        detected_at: Timestamp,
    },
    NoteFileDeletedExternally { note_id: NoteId, file_path: String, detected_at: Timestamp },
}

/// `e` announces the creation of the note `n`: its id, creation time and tags.
pub open spec fn is_created_event(e: DomainEvent, n: NoteView) -> bool {
    e matches DomainEvent::NoteCreated { note_id, created_at, initial_tags } && note_id@ == n.id
        && created_at@ == n.created_at && initial_tags@ == n.tags
}

/// `e` announces the new body of the note `n`: its id and update time.
pub open spec fn is_body_edited_event(e: DomainEvent, n: NoteView) -> bool {
    e matches DomainEvent::NoteBodyEdited { note_id, updated_at } && note_id@ == n.id && updated_at@
        == n.updated_at
}

/// `e` announces the new tags of the note `n`: its id, tags and update time.
pub open spec fn is_tags_changed_event(e: DomainEvent, n: NoteView) -> bool {
    e matches DomainEvent::NoteTagsChanged { note_id, tags, updated_at } && note_id@ == n.id
        && tags@ == n.tags && updated_at@ == n.updated_at
}

/// `e` announces that the note `id`, stored at `path`, went to the trash.
pub open spec fn is_deleted_event(e: DomainEvent, id: Seq<char>, path: Seq<char>) -> bool {
    e matches DomainEvent::NoteDeletedToTrash { note_id, original_path, .. } && note_id@ == id
        && original_path@ == path
}

} // verus!
