//! The ports the use cases drive: persistence, clock, event bus and the
//! editor's debounce timer. Applications and tests implement them.
use crate::events::DomainEvent;
use crate::types::timestamp::TimeFields;
use crate::types::{Note, NoteId, NoteView, Timestamp};
use std::rc::Rc;
use vstd::prelude::*;

verus! {

#[verifier::external_type_specification]
#[verifier::external_body]
pub struct ExIoError(std::io::Error);

/// Calls `<std::io::Error as Display>::to_string`. Nothing is claimed of the
/// text: an I/O error has no model here.
#[verifier::external_body]
pub(crate) fn io_error_message(e: &std::io::Error) -> String {
    e.to_string()
}

/// Persistence of notes as `<storage_dir>/<id>.md` files.
///
/// The spec functions `wrote`, `loaded` and `has_dir` are the
/// implementation's record of what it was asked and what it answered; each
/// call's `ensures` states its record. By default they hold of everything,
/// so an implementation that keeps no record claims nothing; one that does
/// says what they mean. A caller learns from them which argument went into
/// which call.
pub trait NoteRepository {
    /// Writing the note `note` answered `r`.
    open spec fn wrote(&self, note: NoteView, r: Result<(), std::io::Error>) -> bool {
        true
    }

    /// Loading the note `id` answered `r`.
    open spec fn loaded(&self, id: Seq<char>, r: Result<Option<Note>, std::io::Error>) -> bool {
        true
    }

    /// The storage directory answered was `dir`.
    open spec fn has_dir(&self, dir: Seq<char>) -> bool {
        true
    }

    fn write(&self, note: &Note) -> (r: Result<(), std::io::Error>)
        ensures
            self.wrote(note@, r),
    ;

    fn storage_dir(&self) -> (r: &str)
        ensures
            self.has_dir(r@),
    ;

    /// `Ok(None)` when no file holds the note.
    fn load_by_id(&self, id: &NoteId) -> (r: Result<Option<Note>, std::io::Error>)
        ensures
            self.loaded(id@, r),
    ;

    /// Every readable note; unreadable or malformed files are skipped.
    fn list_all(&self) -> Result<Vec<Note>, std::io::Error>;
}

/// The source of "now".
pub trait Clock {
    /// The time answered was `now` (the implementation's record, as for
    /// `NoteRepository`).
    open spec fn gave(&self, now: TimeFields) -> bool {
        true
    }

    fn now(&self) -> (r: Timestamp)
        ensures
            self.gave(r@),
    ;
}

/// In-process event delivery.
pub trait EventBus {
    /// The event `event` was published: the implementation's record, which
    /// by default holds of everything (see `NoteRepository`).
    open spec fn published(&self, event: DomainEvent) -> bool {
        true
    }

    fn publish(&self, event: DomainEvent)
        ensures
            self.published(event),
    ;
}

/// The editor's pending auto-save timer; cancelling is idempotent.
pub trait DebounceTimer {
    /// The timer of note `id` was cancelled: the implementation's record,
    /// which by default holds of everything (see `NoteRepository`).
    open spec fn cancelled(&self, id: Seq<char>) -> bool {
        true
    }

    fn cancel(&self, note_id: &NoteId)
        ensures
            self.cancelled(note_id@),
    ;
}

impl<T: NoteRepository> NoteRepository for Rc<T> {
    open spec fn wrote(&self, note: NoteView, r: Result<(), std::io::Error>) -> bool {
        (**self).wrote(note, r)
    }

    open spec fn loaded(&self, id: Seq<char>, r: Result<Option<Note>, std::io::Error>) -> bool {
        (**self).loaded(id, r)
    }

    open spec fn has_dir(&self, dir: Seq<char>) -> bool {
        (**self).has_dir(dir)
    }

    fn write(&self, note: &Note) -> (r: Result<(), std::io::Error>) {
        (**self).write(note)
    }

    fn storage_dir(&self) -> (r: &str) {
        (**self).storage_dir()
    }

    fn load_by_id(&self, id: &NoteId) -> (r: Result<Option<Note>, std::io::Error>) {
        (**self).load_by_id(id)
    }

    fn list_all(&self) -> Result<Vec<Note>, std::io::Error> {
        (**self).list_all()
    }
}

impl<T: Clock> Clock for Rc<T> {
    open spec fn gave(&self, now: TimeFields) -> bool {
        (**self).gave(now)
    }

    fn now(&self) -> (r: Timestamp) {
        (**self).now()
    }
}

impl<T: EventBus> EventBus for Rc<T> {
    open spec fn published(&self, event: DomainEvent) -> bool {
        (**self).published(event)
    }

    fn publish(&self, event: DomainEvent) {
        (**self).publish(event)
    }
}

impl<T: DebounceTimer> DebounceTimer for Rc<T> {
    open spec fn cancelled(&self, id: Seq<char>) -> bool {
        (**self).cancelled(id)
    }

    fn cancel(&self, note_id: &NoteId) {
        (**self).cancel(note_id)
    }
}

} // verus!
