use super::domain::{AutoSaveError, AutoSaveNoteCommand};
use crate::events::{is_body_edited_event, DomainEvent};
use crate::ports::{Clock, EventBus, NoteRepository};
use crate::slices::common::{body_edit_write, compare_body, is_note_path, md_path, BodyDiff};
use crate::types::note::edit_body_view;
use crate::types::timestamp::TimeFields;
use crate::types::note_body::has_delimiter_line;
use crate::types::{Note, NoteBody, NoteId, Timestamp};
use vstd::prelude::*;

verus! {

/// What auto-saving `body` into the note `id` answers, given what the ports
/// answered: the storage directory `dir`, the load `loaded`, the clock's
/// `now` and the write `written`. A failed load is `LoadError` at
/// `<dir>/<id>.md` carrying the load's error, a missing note `NoteNotFound`;
/// then a body with a delimiter line is `InvalidBody`; a body equal to the
/// loaded one gives `None`; otherwise the loaded note with the new body at
/// `now`, or, when the write failed, `PersistError` at that note's file
/// carrying the write's error.
pub open spec fn auto_save_answer(
    id: Seq<char>,
    body: Seq<char>,
    dir: Seq<char>,
    loaded: Result<Option<Note>, std::io::Error>,
    now: TimeFields,
    written: Result<(), std::io::Error>,
    r: Result<Option<Note>, AutoSaveError>,
) -> bool {
    match loaded {
        Err(e) => r matches Err(AutoSaveError::LoadError { path, source }) && source == e
            && is_note_path(path@, dir, id),
        Ok(None) => r matches Err(AutoSaveError::NoteNotFound { id: x }) && x@ == id,
        Ok(Some(existing)) => if has_delimiter_line(body) {
            r matches Err(AutoSaveError::InvalidBody { .. })
        } else if existing@.body == body {
            r matches Ok(None)
        } else {
            match written {
                Ok(()) => r matches Ok(Some(n)) && n@ == edit_body_view(existing@, body, now),
                Err(e) => r matches Err(AutoSaveError::PersistError { path, source }) && source == e
                    && is_note_path(path@, dir, existing@.id),
            }
        },
    }
}

/// What auto-saving returns is what it wrote: a returned note is the note
/// written, a failed write was the write of a note, and an answer of no
/// change wrote nothing.
pub proof fn lemma_auto_save_returns_what_it_wrote(
    id: Seq<char>,
    body: Seq<char>,
    dir: Seq<char>,
    loaded: Result<Option<Note>, std::io::Error>,
    now: TimeFields,
    written: Result<(), std::io::Error>,
    r: Result<Option<Note>, AutoSaveError>,
)
    requires
        auto_save_answer(id, body, dir, loaded, now, written, r),
    ensures
        r matches Ok(Some(n)) ==> body_edit_write(loaded, body, now) == Some(n@),
        r matches Err(AutoSaveError::PersistError { .. }) ==> body_edit_write(loaded, body, now) is Some,
        r matches Ok(None) ==> body_edit_write(loaded, body, now) is None,
{
}

/// The note to write for what loading gave: the loaded note with `body` at
/// `now`, when it was loaded, `body` holds no delimiter line and differs
/// from the stored body; otherwise none.
pub fn auto_save_update(loaded: &Result<Option<Note>, std::io::Error>, body: &String, now: Timestamp) -> (r:
    Option<Note>)
    ensures
        match loaded {
            Ok(Some(e)) => if !has_delimiter_line(body@) && e@.body != body@ {
                r matches Some(n) && n@ == edit_body_view(e@, body@, now@)
            } else {
                r is None
            },
            _ => r is None,
        },
{
    match loaded {
        Ok(Some(e)) => match NoteBody::new(body.clone()) {
            Ok(b) => match compare_body(e.body(), b) {
                BodyDiff::Unchanged => None,
                BodyDiff::Changed(nb) => Some(e.clone().edit_body(nb, now)),
            },
            Err(_) => None,
        },
        _ => None,
    }
}

/// The answer of auto-saving `body` into the note `id`, given the storage
/// directory, the load's result, the clock's time and the write's result
/// (the last consulted only when the body changed).
pub fn auto_save_step(
    id: NoteId,
    body: String,
    dir: &str,
    loaded: Result<Option<Note>, std::io::Error>,
    now: Timestamp,
    written: Result<(), std::io::Error>,
) -> (r: Result<Option<Note>, AutoSaveError>)
    ensures
        auto_save_answer(id@, body@, dir@, loaded, now@, written, r),
{
    match loaded {
        Err(source) => Err(AutoSaveError::LoadError { path: md_path(dir, &id), source }),
        Ok(None) => Err(AutoSaveError::NoteNotFound { id }),
        Ok(Some(existing)) => match NoteBody::new(body) {
            Err(source) => Err(AutoSaveError::InvalidBody { source }),
            Ok(parsed) => match compare_body(existing.body(), parsed) {
                BodyDiff::Unchanged => Ok(None),
                BodyDiff::Changed(new_body) => {
                    let updated = existing.edit_body(new_body, now);
                    match written {
                        Ok(()) => Ok(Some(updated)),
                        Err(source) => Err(
                            AutoSaveError::PersistError { path: md_path(dir, updated.id()), source },
                        ),
                    }
                },
            },
        },
    }
}

/// Loads the note, validates the body, skips the write when nothing
/// changed, otherwise edits, writes and publishes `NoteBodyEdited`.
pub struct AutoSaveNoteUseCase<R: NoteRepository, C: Clock, E: EventBus> {
    repo: R,
    clock: C,
    bus: E,
}

impl<R: NoteRepository, C: Clock, E: EventBus> AutoSaveNoteUseCase<R, C, E> {
    /// The ports the use case drives, in the order `new` takes them.
    pub closed spec fn ports(&self) -> (R, C, E) {
        (self.repo, self.clock, self.bus)
    }

    pub fn new(repo: R, clock: C, bus: E) -> (r: Self)
        ensures
            r.ports() == (repo, clock, bus),
    {
        AutoSaveNoteUseCase { repo, clock, bus }
    }

    /// Answers as `auto_save_answer` says for what the repository and the clock
    /// answered to the calls made: the load of the command's note, the
    /// storage directory, the time and, where `body_edit_write` gives a note,
    /// the write of that note. For a returned note, `NoteBodyEdited` with its
    /// id and time is published (and only then).
    pub fn execute(&self, cmd: AutoSaveNoteCommand) -> (r: Result<Option<Note>, AutoSaveError>)
        ensures
            exists|
                dir: Seq<char>,
                loaded: Result<Option<Note>, std::io::Error>,
                now: TimeFields,
                written: Result<(), std::io::Error>,
            |
                #[trigger] auto_save_answer(cmd.note_id@, cmd.new_body@, dir, loaded, now, written, r)
                    && self.ports().0.loaded(cmd.note_id@, loaded) && self.ports().0.has_dir(dir)
                    && self.ports().1.gave(now) && (body_edit_write(loaded, cmd.new_body@, now) matches Some(
                    v,
                ) ==> self.ports().0.wrote(v, written)) && (r matches Ok(Some(n)) ==> exists|e: DomainEvent|
                    #[trigger] self.ports().2.published(e) && is_body_edited_event(e, n@)),
    {
        let loaded = self.repo.load_by_id(&cmd.note_id);
        let now = self.clock.now();
        let update = auto_save_update(&loaded, &cmd.new_body, now);
        let written = match &update {
            Some(n) => self.repo.write(n),
            None => Ok(()),
        };
        let dir = self.repo.storage_dir();
        let ghost lg = loaded;
        let ghost wg = written;
        let r = auto_save_step(cmd.note_id, cmd.new_body, dir, loaded, now, written);
        if let Ok(Some(n)) = &r {
            let event = DomainEvent::NoteBodyEdited { note_id: n.id().clone(), updated_at: n.updated_at() };
            let ghost sent = event;
            self.bus.publish(event);
            assert(self.ports().2.published(sent) && is_body_edited_event(sent, n@));
        }
        assert(auto_save_answer(cmd.note_id@, cmd.new_body@, dir@, lg, now@, wg, r));
        r
    }
}

} // verus!
