use super::domain::{FlushError, FlushNoteCommand};
use crate::events::{is_body_edited_event, DomainEvent};
use crate::ports::{Clock, DebounceTimer, EventBus, NoteRepository};
use crate::slices::common::{body_edit_write, compare_body, is_note_path, md_path, BodyDiff};
use crate::types::note::edit_body_view;
use crate::types::timestamp::TimeFields;
use crate::types::note_body::has_delimiter_line;
use crate::types::{Note, NoteBody, NoteId, Timestamp};
use vstd::prelude::*;

verus! {

/// What flushing `body` into the note `id` answers, given what the ports
/// answered: the storage directory `dir`, the load `loaded`, the clock's
/// `now` and the write `written`. A failed load is `LoadError` at
/// `<dir>/<id>.md` carrying the load's error, a missing note `NoteNotFound`;
/// then a body with a delimiter line is `InvalidBody`; a body equal to the
/// loaded one gives `None`; otherwise the loaded note with the new body at
/// `now`, or, when the write failed, `PersistError` at that note's file
/// carrying the write's error.
pub open spec fn flush_answer(
    id: Seq<char>,
    body: Seq<char>,
    dir: Seq<char>,
    loaded: Result<Option<Note>, std::io::Error>,
    now: TimeFields,
    written: Result<(), std::io::Error>,
    r: Result<Option<Note>, FlushError>,
) -> bool {
    match loaded {
        Err(e) => r matches Err(FlushError::LoadError { path, source }) && source == e
            && is_note_path(path@, dir, id),
        Ok(None) => r matches Err(FlushError::NoteNotFound { id: x }) && x@ == id,
        Ok(Some(existing)) => if has_delimiter_line(body) {
            r matches Err(FlushError::InvalidBody { .. })
        } else if existing@.body == body {
            r matches Ok(None)
        } else {
            match written {
                Ok(()) => r matches Ok(Some(n)) && n@ == edit_body_view(existing@, body, now),
                Err(e) => r matches Err(FlushError::PersistError { path, source }) && source == e
                    && is_note_path(path@, dir, existing@.id),
            }
        },
    }
}

/// What flushing returns is what it wrote: a returned note is the note
/// written, a failed write was the write of a note, and an answer of no
/// change wrote nothing.
pub proof fn lemma_flush_returns_what_it_wrote(
    id: Seq<char>,
    body: Seq<char>,
    dir: Seq<char>,
    loaded: Result<Option<Note>, std::io::Error>,
    now: TimeFields,
    written: Result<(), std::io::Error>,
    r: Result<Option<Note>, FlushError>,
)
    requires
        flush_answer(id, body, dir, loaded, now, written, r),
    ensures
        r matches Ok(Some(n)) ==> body_edit_write(loaded, body, now) == Some(n@),
        r matches Err(FlushError::PersistError { .. }) ==> body_edit_write(loaded, body, now) is Some,
        r matches Ok(None) ==> body_edit_write(loaded, body, now) is None,
{
}

/// The note to write for what loading gave: the loaded note with `body` at
/// `now`, when it was loaded, `body` holds no delimiter line and differs
/// from the stored body; otherwise none.
pub fn flush_update(loaded: &Result<Option<Note>, std::io::Error>, body: &String, now: Timestamp) -> (r:
    Option<Note>)
    ensures
        match loaded {
            Ok(Some(e)) => if !has_delimiter_line(body@) && e@.body != body@ {
                r matches Some(n) && n@ == edit_body_view(e@, body@, now@)
            } else {
                r is None
            },
            _ => r is None,
        },
{
    match loaded {
        Ok(Some(e)) => match NoteBody::new(body.clone()) {
            Ok(b) => match compare_body(e.body(), b) {
                BodyDiff::Unchanged => None,
                BodyDiff::Changed(nb) => Some(e.clone().edit_body(nb, now)),
            },
            Err(_) => None,
        },
        _ => None,
    }
}

/// The answer of flushing `body` into the note `id`, given the storage
/// directory, the load's result, the clock's time and the write's result
/// (the last consulted only when the body changed).
pub fn flush_step(
    id: NoteId,
    body: String,
    dir: &str,
    loaded: Result<Option<Note>, std::io::Error>,
    now: Timestamp,
    written: Result<(), std::io::Error>,
) -> (r: Result<Option<Note>, FlushError>)
    ensures
        flush_answer(id@, body@, dir@, loaded, now@, written, r),
{
    match loaded {
        Err(source) => Err(FlushError::LoadError { path: md_path(dir, &id), source }),
        Ok(None) => Err(FlushError::NoteNotFound { id }),
        Ok(Some(existing)) => match NoteBody::new(body) {
            Err(source) => Err(FlushError::InvalidBody { source }),
            Ok(parsed) => match compare_body(existing.body(), parsed) {
                BodyDiff::Unchanged => Ok(None),
                BodyDiff::Changed(new_body) => {
                    let updated = existing.edit_body(new_body, now);
                    match written {
                        Ok(()) => Ok(Some(updated)),
                        Err(source) => Err(
                            FlushError::PersistError { path: md_path(dir, updated.id()), source },
                        ),
                    }
                },
            },
        },
    }
}

/// Cancels the pending auto-save of the note first, then loads, validates,
/// skips an unchanged body, otherwise edits, writes and publishes
/// `NoteBodyEdited`.
pub struct FlushNoteUseCase<R: NoteRepository, C: Clock, E: EventBus, D: DebounceTimer> {
    repo: R,
    clock: C,
    bus: E,
    timer: D,
}

impl<R: NoteRepository, C: Clock, E: EventBus, D: DebounceTimer> FlushNoteUseCase<R, C, E, D> {
    /// The ports the use case drives, in the order `new` takes them.
    pub closed spec fn ports(&self) -> (R, C, E, D) {
        (self.repo, self.clock, self.bus, self.timer)
    }

    pub fn new(repo: R, clock: C, bus: E, timer: D) -> (r: Self)
        ensures
            r.ports() == (repo, clock, bus, timer),
    {
        FlushNoteUseCase { repo, clock, bus, timer }
    }

    /// Cancels the note's pending timer, then answers as `flush_answer` says
    /// for what the repository and the clock answered to the calls made: the
    /// load of the command's note, the storage directory, the time and, where
    /// `body_edit_write` gives a note, the write of that note. For a returned
    /// note, `NoteBodyEdited` with its id and time is published (and only
    /// then).
    pub fn execute(&self, cmd: FlushNoteCommand) -> (r: Result<Option<Note>, FlushError>)
        ensures
            exists|
                dir: Seq<char>,
                loaded: Result<Option<Note>, std::io::Error>,
                now: TimeFields,
                written: Result<(), std::io::Error>,
            |
                #[trigger] flush_answer(cmd.note_id@, cmd.pending_body@, dir, loaded, now, written, r)
                    && self.ports().0.loaded(cmd.note_id@, loaded) && self.ports().0.has_dir(dir)
                    && self.ports().1.gave(now) && (body_edit_write(loaded, cmd.pending_body@, now) matches Some(
                    v,
                ) ==> self.ports().0.wrote(v, written)) && (r matches Ok(Some(n)) ==> exists|e: DomainEvent|
                    #[trigger] self.ports().2.published(e) && is_body_edited_event(e, n@)) && self.ports().3.cancelled(cmd.note_id@),
    {
        self.timer.cancel(&cmd.note_id);
        let loaded = self.repo.load_by_id(&cmd.note_id);
        let now = self.clock.now();
        let update = flush_update(&loaded, &cmd.pending_body, now);
        let written = match &update {
            Some(n) => self.repo.write(n),
            None => Ok(()),
        };
        let dir = self.repo.storage_dir();
        let ghost lg = loaded;
        let ghost wg = written;
        let r = flush_step(cmd.note_id, cmd.pending_body, dir, loaded, now, written);
        if let Ok(Some(n)) = &r {
            let event = DomainEvent::NoteBodyEdited { note_id: n.id().clone(), updated_at: n.updated_at() };
            let ghost sent = event;
            self.bus.publish(event);
            assert(self.ports().2.published(sent) && is_body_edited_event(sent, n@));
        }
        assert(flush_answer(cmd.note_id@, cmd.pending_body@, dir@, lg, now@, wg, r));
        r
    }
}

} // verus!
