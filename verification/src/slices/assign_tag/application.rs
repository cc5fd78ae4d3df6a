use super::domain::{AssignTagCommand, AssignTagError};
use crate::events::{is_tags_changed_event, DomainEvent};
use crate::ports::{Clock, EventBus, NoteRepository};
use crate::slices::common::{is_note_path, md_path};
use crate::types::note::assign_tag_view;
use crate::types::tag::{tag_error_matches, tag_new_outcome};
use crate::types::timestamp::TimeFields;
use crate::types::{Note, NoteId, NoteView, Tag, Timestamp};
use vstd::prelude::*;

verus! {

/// What assigning `raw` to the note `id` answers, given what the ports
/// answered: the storage directory `dir`, the load `loaded`, the clock's
/// `now` and the write `written`. `InvalidTag` exactly when `Tag::new(raw)`
/// refuses (before anything is loaded); a failed load is `LoadError` at
/// `<dir>/<id>.md` carrying the load's error, a missing note `NoteNotFound`;
/// a loaded note that already has the tag gives `None`; otherwise the loaded
/// note with the tag appended at `now`, or, when the write failed,
/// `PersistError` at that note's file carrying the write's error.
pub open spec fn assign_tag_answer(
    id: Seq<char>,
    raw: Seq<char>,
    dir: Seq<char>,
    loaded: Result<Option<Note>, std::io::Error>,
    now: TimeFields,
    written: Result<(), std::io::Error>,
    r: Result<Option<Note>, AssignTagError>,
) -> bool {
    match tag_new_outcome(raw) {
        Err(_) => r matches Err(AssignTagError::InvalidTag { name, reason }) && name@ == raw
            && tag_error_matches(raw, reason),
        Ok(tag) => assign_loaded_answer(id, tag, dir, loaded, now, written, r),
    }
}

/// The answer for the accepted tag `tag` once the note was loaded: the part
/// of `assign_tag_answer` after the tag was parsed.
pub open spec fn assign_loaded_answer(
    id: Seq<char>,
    tag: Seq<char>,
    dir: Seq<char>,
    loaded: Result<Option<Note>, std::io::Error>,
    now: TimeFields,
    written: Result<(), std::io::Error>,
    r: Result<Option<Note>, AssignTagError>,
) -> bool {
    match loaded {
        Err(e) => r matches Err(AssignTagError::LoadError { path, source }) && source == e
            && is_note_path(path@, dir, id),
        Ok(None) => r matches Err(AssignTagError::NoteNotFound { id: x }) && x@ == id,
        Ok(Some(existing)) => if existing@.tags.contains(tag) {
            r matches Ok(None)
        } else {
            match written {
                Ok(()) => r matches Ok(Some(n)) && n@ == assign_tag_view(existing@, tag, now),
                Err(e) => r matches Err(AssignTagError::PersistError { path, source }) && source
                    == e && is_note_path(path@, dir, existing@.id),
            }
        },
    }
}

/// Whether the note already has a tag of the candidate's name.
pub enum TagDiff {
    Unchanged,
    Added(Tag),
}

/// Compares the note's tags with the candidate tag.
pub fn compute_diff(existing: &Note, candidate: Tag) -> (r: TagDiff)
    ensures
        existing@.tags.contains(candidate@) ==> r is Unchanged,
        !existing@.tags.contains(candidate@) ==> (r matches TagDiff::Added(t) && t@ == candidate@),
{
    if existing.tags().contains_name(candidate.name()) {
        TagDiff::Unchanged
    } else {
        TagDiff::Added(candidate)
    }
}

/// The note that assigning `tag` writes, for what loading gave: the loaded
/// note with `tag` appended at `now`, when it was loaded and lacks the tag;
/// otherwise nothing is written.
pub open spec fn assign_tag_write(
    loaded: Result<Option<Note>, std::io::Error>,
    tag: Seq<char>,
    now: TimeFields,
) -> Option<NoteView> {
    match loaded {
        Ok(Some(e)) => if e@.tags.contains(tag) {
            None
        } else {
            Some(assign_tag_view(e@, tag, now))
        },
        _ => None,
    }
}

/// What assigning a tag returns is what it wrote: a returned note is the
/// note written, a failed write was the write of a note, and an answer of
/// no change wrote nothing.
pub proof fn lemma_assign_tag_returns_what_it_wrote(
    id: Seq<char>,
    raw: Seq<char>,
    dir: Seq<char>,
    loaded: Result<Option<Note>, std::io::Error>,
    now: TimeFields,
    written: Result<(), std::io::Error>,
    r: Result<Option<Note>, AssignTagError>,
)
    requires
        assign_tag_answer(id, raw, dir, loaded, now, written, r),
    ensures
        r matches Ok(Some(n)) ==> tag_new_outcome(raw) matches Ok(tag) && assign_tag_write(
            loaded,
            tag,
            now,
        ) == Some(n@),
        r matches Err(AssignTagError::PersistError { .. }) ==> tag_new_outcome(raw) matches Ok(tag)
            && assign_tag_write(loaded, tag, now) is Some,
        r matches Ok(None) ==> tag_new_outcome(raw) matches Ok(tag) && assign_tag_write(
            loaded,
            tag,
            now,
        ) is None,
{
}

/// The note to write for what loading gave: the loaded note with `tag`
/// appended at `now`, when it was loaded and lacks the tag; otherwise none.
pub fn assign_tag_update(loaded: &Result<Option<Note>, std::io::Error>, tag: &Tag, now: Timestamp) -> (r:
    Option<Note>)
    ensures
        match loaded {
            Ok(Some(e)) => if e@.tags.contains(tag@) {
                r is None
            } else {
                r matches Some(n) && n@ == assign_tag_view(e@, tag@, now@)
            },
            _ => r is None,
        },
{
    match loaded {
        Ok(Some(e)) => match compute_diff(e, tag.clone()) {
            TagDiff::Unchanged => None,
            TagDiff::Added(t) => Some(e.clone().assign_tag(t, now)),
        },
        _ => None,
    }
}

/// The answer of assigning the accepted `tag` to the note `id`, given the
/// storage directory, the load's result, the clock's time and the write's
/// result (the last consulted only when the tag was added).
pub fn assign_tag_step(
    id: NoteId,
    tag: Tag,
    dir: &str,
    loaded: Result<Option<Note>, std::io::Error>,
    now: Timestamp,
    written: Result<(), std::io::Error>,
) -> (r: Result<Option<Note>, AssignTagError>)
    ensures
        assign_loaded_answer(id@, tag@, dir@, loaded, now@, written, r),
{
    match loaded {
        Err(source) => Err(AssignTagError::LoadError { path: md_path(dir, &id), source }),
        Ok(None) => Err(AssignTagError::NoteNotFound { id }),
        Ok(Some(existing)) => match compute_diff(&existing, tag) {
            TagDiff::Unchanged => Ok(None),
            TagDiff::Added(t) => {
                let updated = existing.assign_tag(t, now);
                match written {
                    Ok(()) => Ok(Some(updated)),
                    Err(source) => Err(
                        AssignTagError::PersistError { path: md_path(dir, updated.id()), source },
                    ),
                }
            },
        },
    }
}

/// Parses the tag before touching storage, loads the note, stops when the tag
/// is present, otherwise appends it, writes and publishes `NoteTagsChanged`.
pub struct AssignTagUseCase<R: NoteRepository, C: Clock, E: EventBus> {
    repo: R,
    clock: C,
    bus: E,
}

impl<R: NoteRepository, C: Clock, E: EventBus> AssignTagUseCase<R, C, E> {
    /// The ports the use case drives, in the order `new` takes them.
    pub closed spec fn ports(&self) -> (R, C, E) {
        (self.repo, self.clock, self.bus)
    }

    pub fn new(repo: R, clock: C, bus: E) -> (r: Self)
        ensures
            r.ports() == (repo, clock, bus),
    {
        AssignTagUseCase { repo, clock, bus }
    }

    /// Answers as `assign_tag_answer` says for what the repository and
    /// the clock answered to the calls made for an accepted tag: the load of
    /// the command's note, the storage directory, the time and, where
    /// `assign_tag_write` gives a note, the write of that note.
    /// For a returned note, `NoteTagsChanged` with its id, tags and time is
    /// published (and only then).
    pub fn execute(&self, cmd: AssignTagCommand) -> (r: Result<Option<Note>, AssignTagError>)
        ensures
            exists|
                dir: Seq<char>,
                loaded: Result<Option<Note>, std::io::Error>,
                now: TimeFields,
                written: Result<(), std::io::Error>,
            |
                #[trigger] assign_tag_answer(cmd.note_id@, cmd.raw_tag@, dir, loaded, now, written, r)
                    && (tag_new_outcome(cmd.raw_tag@) matches Ok(tag) ==> {
                    &&& self.ports().0.loaded(cmd.note_id@, loaded)
                    &&& self.ports().0.has_dir(dir)
                    &&& self.ports().1.gave(now)
                    &&& assign_tag_write(loaded, tag, now) matches Some(v) ==> self.ports().0.wrote(
                        v,
                        written,
                    )
                }) && (r matches Ok(Some(n)) ==> exists|e: DomainEvent|
                    #[trigger] self.ports().2.published(e) && is_tags_changed_event(e, n@)),
    {
        let ghost id = cmd.note_id@;
        let ghost raw = cmd.raw_tag@;
        let ghost no_load: Result<Option<Note>, std::io::Error> = Ok(None);
        let ghost no_write: Result<(), std::io::Error> = Ok(());
        let ghost no_time: TimeFields = (0, 0, 0, 0, 0, 0);
        let AssignTagCommand { note_id, raw_tag } = cmd;
        let tag = match Tag::new(raw_tag.as_str()) {
            Ok(t) => t,
            Err(reason) => {
                let r = Err(AssignTagError::InvalidTag { name: raw_tag, reason });
                assert(assign_tag_answer(id, raw, Seq::empty(), no_load, no_time, no_write, r));
                return r;
            },
        };
        let loaded = self.repo.load_by_id(&note_id);
        let now = self.clock.now();
        let update = assign_tag_update(&loaded, &tag, now);
        let written = match &update {
            Some(n) => self.repo.write(n),
            None => Ok(()),
        };
        let dir = self.repo.storage_dir();
        let ghost lg = loaded;
        let ghost wg = written;
        let r = assign_tag_step(note_id, tag, dir, loaded, now, written);
        if let Ok(Some(n)) = &r {
            let event = DomainEvent::NoteTagsChanged {
                note_id: n.id().clone(),
                tags: n.tags().clone(),
                updated_at: n.updated_at(),
            };
            let ghost sent = event;
            self.bus.publish(event);
            assert(self.ports().2.published(sent) && is_tags_changed_event(sent, n@));
        }
        assert(assign_tag_answer(id, raw, dir@, lg, now@, wg, r));
        r
    }
}

} // verus!
