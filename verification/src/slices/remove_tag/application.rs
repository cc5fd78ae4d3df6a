use super::domain::{RemoveTagCommand, RemoveTagError};
use crate::events::{is_tags_changed_event, DomainEvent};
use crate::ports::{Clock, EventBus, NoteRepository};
use crate::slices::common::{is_note_path, md_path};
use crate::types::note::remove_tag_view;
use crate::types::timestamp::TimeFields;
use crate::types::{Note, NoteId, NoteView, Tag, Timestamp};
use vstd::prelude::*;

verus! {

/// What removing the tag `name` from the note `id` answers, given what the
/// ports answered: the storage directory `dir`, the load `loaded`, the
/// clock's `now` and the write `written`. A failed load is `LoadError` at
/// `<dir>/<id>.md` carrying the load's error, a missing note `NoteNotFound`;
/// a loaded note without a tag of exactly that name gives `None`; otherwise
/// the loaded note without the tag at `now`, or, when the write failed,
/// `PersistError` at that note's file carrying the write's error.
pub open spec fn remove_tag_answer(
    id: Seq<char>,
    name: Seq<char>,
    dir: Seq<char>,
    loaded: Result<Option<Note>, std::io::Error>,
    now: TimeFields,
    written: Result<(), std::io::Error>,
    r: Result<Option<Note>, RemoveTagError>,
) -> bool {
    match loaded {
        Err(e) => r matches Err(RemoveTagError::LoadError { path, source }) && source == e
            && is_note_path(path@, dir, id),
        Ok(None) => r matches Err(RemoveTagError::NoteNotFound { id: x }) && x@ == id,
        Ok(Some(existing)) => if !existing@.tags.contains(name) {
            r matches Ok(None)
        } else {
            match written {
                Ok(()) => r matches Ok(Some(n)) && n@ == remove_tag_view(existing@, name, now),
                Err(e) => r matches Err(RemoveTagError::PersistError { path, source }) && source
                    == e && is_note_path(path@, dir, existing@.id),
            }
        },
    }
}

/// Whether the note carries a tag of exactly this name; `Removed` holds it.
pub enum RemoveTagDiff {
    Unchanged,
    Removed(Tag),
}

/// Finds the tag named `tag_name` among the note's tags.
pub fn compute_diff(existing: &Note, tag_name: &str) -> (r: RemoveTagDiff)
    ensures
        !existing@.tags.contains(tag_name@) ==> r is Unchanged,
        existing@.tags.contains(tag_name@) ==> (r matches RemoveTagDiff::Removed(t) && t@ == tag_name@),
{
    let tags = existing.tags().as_slice();
    let mut i: usize = 0;
    while i < tags.len()
        invariant
            i <= tags@.len(),
            crate::types::tag_set::names_of(tags@) == existing@.tags,
            forall|k: int| 0 <= k < i ==> #[trigger] existing@.tags[k] != tag_name@,
        decreases tags.len() - i,
    {
        assert(existing@.tags[i as int] == tags@[i as int]@);
        if crate::text::str_eq(tags[i].name(), tag_name) {
            return RemoveTagDiff::Removed(tags[i].clone());
        }
        i = i + 1;
    }
    RemoveTagDiff::Unchanged
}

/// The note that removing the tag `name` writes, for what loading gave: the
/// loaded note without that tag at `now`, when it was loaded and carries the
/// tag; otherwise nothing is written.
pub open spec fn remove_tag_write(
    loaded: Result<Option<Note>, std::io::Error>,
    name: Seq<char>,
    now: TimeFields,
) -> Option<NoteView> {
    match loaded {
        Ok(Some(e)) => if e@.tags.contains(name) {
            Some(remove_tag_view(e@, name, now))
        } else {
            None
        },
        _ => None,
    }
}

/// What removing a tag returns is what it wrote: a returned note is the note
/// written, a failed write was the write of a note, and an answer of no
/// change wrote nothing.
pub proof fn lemma_remove_tag_returns_what_it_wrote(
    id: Seq<char>,
    name: Seq<char>,
    dir: Seq<char>,
    loaded: Result<Option<Note>, std::io::Error>,
    now: TimeFields,
    written: Result<(), std::io::Error>,
    r: Result<Option<Note>, RemoveTagError>,
)
    requires
        remove_tag_answer(id, name, dir, loaded, now, written, r),
    ensures
        r matches Ok(Some(n)) ==> remove_tag_write(loaded, name, now) == Some(n@),
        r matches Err(RemoveTagError::PersistError { .. }) ==> remove_tag_write(loaded, name, now) is Some,
        r matches Ok(None) ==> remove_tag_write(loaded, name, now) is None,
{
}

/// The note to write for what loading gave: the loaded note without the tag
/// `name` at `now`, when it was loaded and carries that tag; otherwise none.
pub fn remove_tag_update(loaded: &Result<Option<Note>, std::io::Error>, name: &str, now: Timestamp) -> (r:
    Option<Note>)
    ensures
        match loaded {
            Ok(Some(e)) => if e@.tags.contains(name@) {
                r matches Some(n) && n@ == remove_tag_view(e@, name@, now@)
            } else {
                r is None
            },
            _ => r is None,
        },
{
    match loaded {
        Ok(Some(e)) => match compute_diff(e, name) {
            RemoveTagDiff::Unchanged => None,
            RemoveTagDiff::Removed(_) => Some(e.clone().remove_tag(name, now)),
        },
        _ => None,
    }
}

/// The answer of removing the tag `name` from the note `id`, given the
/// storage directory, the load's result, the clock's time and the write's
/// result (the last consulted only when the tag was removed).
pub fn remove_tag_step(
    id: NoteId,
    name: &str,
    dir: &str,
    loaded: Result<Option<Note>, std::io::Error>,
    now: Timestamp,
    written: Result<(), std::io::Error>,
) -> (r: Result<Option<Note>, RemoveTagError>)
    ensures
        remove_tag_answer(id@, name@, dir@, loaded, now@, written, r),
{
    match loaded {
        Err(source) => Err(RemoveTagError::LoadError { path: md_path(dir, &id), source }),
        Ok(None) => Err(RemoveTagError::NoteNotFound { id }),
        Ok(Some(existing)) => match compute_diff(&existing, name) {
            RemoveTagDiff::Unchanged => Ok(None),
            RemoveTagDiff::Removed(_) => {
                let updated = existing.remove_tag(name, now);
                match written {
                    Ok(()) => Ok(Some(updated)),
                    Err(source) => Err(
                        RemoveTagError::PersistError { path: md_path(dir, updated.id()), source },
                    ),
                }
            },
        },
    }
}

/// Loads the note, stops when no tag has the name, otherwise removes it,
/// writes and publishes `NoteTagsChanged` with the remaining tags.
pub struct RemoveTagUseCase<R: NoteRepository, C: Clock, E: EventBus> {
    repo: R,
    clock: C,
    bus: E,
}

impl<R: NoteRepository, C: Clock, E: EventBus> RemoveTagUseCase<R, C, E> {
    /// The ports the use case drives, in the order `new` takes them.
    pub closed spec fn ports(&self) -> (R, C, E) {
        (self.repo, self.clock, self.bus)
    }

    pub fn new(repo: R, clock: C, bus: E) -> (r: Self)
        ensures
            r.ports() == (repo, clock, bus),
    {
        RemoveTagUseCase { repo, clock, bus }
    }

    /// Answers as `remove_tag_answer` says for what the repository and
    /// the clock answered to the calls made: the load of the command's note,
    /// the storage directory, the time and, where `remove_tag_write` gives a
    /// note, the write of that note. For a returned note, `NoteTagsChanged`
    /// with its id, tags and time is published (and only then).
    pub fn execute(&self, cmd: RemoveTagCommand) -> (r: Result<Option<Note>, RemoveTagError>)
        ensures
            exists|
                dir: Seq<char>,
                loaded: Result<Option<Note>, std::io::Error>,
                now: TimeFields,
                written: Result<(), std::io::Error>,
            |
                #[trigger] remove_tag_answer(cmd.note_id@, cmd.tag_name@, dir, loaded, now, written, r)
                    && self.ports().0.loaded(cmd.note_id@, loaded) && self.ports().0.has_dir(dir)
                    && self.ports().1.gave(now) && (remove_tag_write(loaded, cmd.tag_name@, now) matches Some(
                    v,
                ) ==> self.ports().0.wrote(v, written)) && (r matches Ok(Some(n)) ==> exists|e: DomainEvent|
                    #[trigger] self.ports().2.published(e) && is_tags_changed_event(e, n@)),
    {
        let RemoveTagCommand { note_id, tag_name } = cmd;
        let loaded = self.repo.load_by_id(&note_id);
        let now = self.clock.now();
        let update = remove_tag_update(&loaded, tag_name.as_str(), now);
        let written = match &update {
            Some(n) => self.repo.write(n),
            None => Ok(()),
        };
        let dir = self.repo.storage_dir();
        let ghost lg = loaded;
        let ghost wg = written;
        let r = remove_tag_step(note_id, tag_name.as_str(), dir, loaded, now, written);
        if let Ok(Some(n)) = &r {
            let event = DomainEvent::NoteTagsChanged {
                note_id: n.id().clone(),
                tags: n.tags().clone(),
                updated_at: n.updated_at(),
            };
            let ghost sent = event;
            self.bus.publish(event);
            assert(self.ports().2.published(sent) && is_tags_changed_event(sent, n@));
        }
        assert(remove_tag_answer(cmd.note_id@, cmd.tag_name@, dir@, lg, now@, wg, r));
        r
    }
}

} // verus!
