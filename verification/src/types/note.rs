//! The Note aggregate.
use super::deleted_note::DeletedNote;
use super::note_body::{is_note_body, NoteBody};
use super::note_id::NoteId;
use super::tag::Tag;
use super::tag_set::{all_tag_names, lemma_without_name, no_duplicate_names, without_name, TagSet};
use super::timestamp::{compact_text, fields_le, valid_time_fields, TimeFields, Timestamp};
use vstd::prelude::*;

verus! {

/// The abstract content of a note.
pub struct NoteView {
    pub id: Seq<char>,
    pub body: Seq<char>,
    pub tags: Seq<Seq<char>>,
    pub created_at: TimeFields,
    pub updated_at: TimeFields,
}

/// The invariants of a note: the id is the creation time as
/// `YYYYMMDDhhmmss`, the body holds no delimiter line, tag names are unique
/// and normalized, and both times are real.
pub open spec fn note_view_wf(v: NoteView) -> bool {
    &&& v.id == compact_text(v.created_at)
    &&& is_note_body(v.body)
    &&& no_duplicate_names(v.tags)
    &&& all_tag_names(v.tags)
    &&& valid_time_fields(v.created_at)
    &&& valid_time_fields(v.updated_at)
}

/// The note as `Note::from_persisted` builds it.
pub open spec fn persisted_view(
    body: Seq<char>,
    tags: Seq<Seq<char>>,
    created_at: TimeFields,
    updated_at: TimeFields,
) -> NoteView {
    NoteView { id: compact_text(created_at), body, tags, created_at, updated_at }
}

/// What `assign_tag` makes of `v`: the tag appended and `updated_at` set,
/// or `v` itself when a tag of that name is present.
pub open spec fn assign_tag_view(v: NoteView, tag: Seq<char>, now: TimeFields) -> NoteView {
    if v.tags.contains(tag) {
        v
    } else {
        NoteView { tags: v.tags.push(tag), updated_at: now, ..v }
    }
}

/// What `remove_tag` makes of `v`: the named tag dropped and `updated_at`
/// set, or `v` itself when no tag has that name.
pub open spec fn remove_tag_view(v: NoteView, name: Seq<char>, now: TimeFields) -> NoteView {
    if v.tags.contains(name) {
        NoteView { tags: without_name(v.tags, name), updated_at: now, ..v }
    } else {
        v
    }
}

/// What `edit_body` makes of `v`.
pub open spec fn edit_body_view(v: NoteView, body: Seq<char>, now: TimeFields) -> NoteView {
    NoteView { body, updated_at: now, ..v }
}

#[derive(Debug, PartialEq, Eq)]
pub struct Note {
    id: NoteId,
    body: NoteBody,
    tags: TagSet,
    created_at: Timestamp,
    updated_at: Timestamp,
}

impl View for Note {
    type V = NoteView;

    closed spec fn view(&self) -> NoteView {
        NoteView {
            id: self.id@,
            body: self.body@,
            tags: self.tags@,
            created_at: self.created_at@,
            updated_at: self.updated_at@,
        }
    }
}

impl Clone for Note {
    fn clone(&self) -> (r: Self)
        ensures
            r@ == self@,
    {
        proof {
            use_type_invariant(self);
        }
        Note {
            id: self.id.clone(),
            body: self.body.clone(),
            tags: self.tags.clone(),
            created_at: self.created_at,
            updated_at: self.updated_at,
        }
    }
}

impl Note {
    #[verifier::type_invariant]
    pub open spec fn inv(self) -> bool {
        note_view_wf(self@)
    }

    /// A fresh note: the id comes from `now`, and both times are `now`.
    pub fn create(body: NoteBody, tags: TagSet, now: Timestamp) -> (r: Note)
        ensures
            r@ == persisted_view(body@, tags@, now@, now@),
    {
        Note::from_persisted(body, tags, now, now)
    }

    /// A note rebuilt from stored state; the id is derived from `created_at`.
    pub fn from_persisted(body: NoteBody, tags: TagSet, created_at: Timestamp, updated_at: Timestamp) -> (r:
        Note)
        ensures
            r@ == persisted_view(body@, tags@, created_at@, updated_at@),
    {
        proof {
            use_type_invariant(&body);
            use_type_invariant(&tags);
            use_type_invariant(&created_at);
            use_type_invariant(&updated_at);
        }
        Note { id: NoteId::from_timestamp(created_at), body, tags, created_at, updated_at }
    }

    /// Adds `tag` unless a tag of that name is already present (then the note
    /// is returned unchanged, `updated_at` included).
    pub fn assign_tag(self, tag: Tag, now: Timestamp) -> (r: Note)
        ensures
            r@ == assign_tag_view(self@, tag@, now@),
    {
        proof {
            use_type_invariant(&self);
            use_type_invariant(&tag);
            use_type_invariant(&now);
        }
        if self.tags.contains_name(tag.name()) {
            return self;
        }
        let tags = self.tags.with_appended(tag);
        Note { tags, updated_at: now, ..self }
    }

    /// Drops the tag named `name` (compared as given, without normalizing);
    /// the note is returned unchanged when there is none.
    pub fn remove_tag(self, name: &str, now: Timestamp) -> (r: Note)
        ensures
            r@ == remove_tag_view(self@, name@, now@),
    {
        proof {
            use_type_invariant(&self);
            use_type_invariant(&now);
        }
        if !self.tags.contains_name(name) {
            return self;
        }
        let tags = self.tags.without(name);
        proof {
            use_type_invariant(&tags);
        }
        Note { tags, updated_at: now, ..self }
    }

    /// Replaces the body and stamps `updated_at`.
    pub fn edit_body(self, new_body: NoteBody, now: Timestamp) -> (r: Note)
        ensures
            r@ == edit_body_view(self@, new_body@, now@),
    {
        proof {
            use_type_invariant(&self);
            use_type_invariant(&new_body);
            use_type_invariant(&now);
        }
        Note { body: new_body, updated_at: now, ..self }
    }

    pub fn id(&self) -> (r: &NoteId)
        ensures
            r@ == self@.id,
    {
        &self.id
    }

    pub fn body(&self) -> (r: &NoteBody)
        ensures
            r@ == self@.body,
    {
        &self.body
    }

    pub fn tags(&self) -> (r: &TagSet)
        ensures
            r@ == self@.tags,
    {
        &self.tags
    }

    pub fn created_at(&self) -> (r: Timestamp)
        ensures
            r@ == self@.created_at,
    {
        self.created_at
    }

    pub fn updated_at(&self) -> (r: Timestamp)
        ensures
            r@ == self@.updated_at,
    {
        self.updated_at
    }

    /// The text put on the clipboard: the body alone.
    pub fn body_for_clipboard(&self) -> (r: String)
        ensures
            r@ == self@.body,
    {
        self.body.as_str().to_owned()
    }

    /// Consumes the note and yields its undo handle.
    pub fn delete_to_trash(self, original_path: String) -> (r: DeletedNote)
        ensures
            r@ == (self@.id, original_path@),
    {
        DeletedNote::new(self.id, original_path)
    }
}

/// Assigning a tag the note already carries changes nothing, so assigning
/// the same tag twice is assigning it once.
pub proof fn lemma_assign_tag_idempotent(v: NoteView, tag: Seq<char>, t1: TimeFields, t2: TimeFields)
    ensures
        assign_tag_view(assign_tag_view(v, tag, t1), tag, t2) == assign_tag_view(v, tag, t1),
{
    if !v.tags.contains(tag) {
        assert(v.tags.push(tag)[v.tags.len() as int] == tag);
    }
}

/// Removing a tag that was just assigned gives back the note's tags; only
/// `updated_at` moves.
pub proof fn lemma_remove_undoes_assign(v: NoteView, tag: Seq<char>, t1: TimeFields, t2: TimeFields)
    requires
        !v.tags.contains(tag),
    ensures
        remove_tag_view(assign_tag_view(v, tag, t1), tag, t2) == (NoteView { updated_at: t2, ..v }),
{
    let pushed = v.tags.push(tag);
    assert(pushed[v.tags.len() as int] == tag);
    assert(pushed.drop_last() =~= v.tags);
    lemma_without_name(v.tags, tag);
}

/// When the clock does not run behind a note's creation time, every update
/// keeps `created_at` no later than `updated_at`.
pub proof fn lemma_updates_keep_time_order(
    v: NoteView,
    tag: Seq<char>,
    body: Seq<char>,
    now: TimeFields,
)
    requires
        fields_le(v.created_at, v.updated_at),
        fields_le(v.created_at, now),
    ensures
        fields_le(assign_tag_view(v, tag, now).created_at, assign_tag_view(v, tag, now).updated_at),
        fields_le(remove_tag_view(v, tag, now).created_at, remove_tag_view(v, tag, now).updated_at),
        fields_le(edit_body_view(v, body, now).created_at, edit_body_view(v, body, now).updated_at),
{
}

} // verus!
