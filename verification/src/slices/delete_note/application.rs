use super::domain::{DeleteNoteCommand, DeleteNoteError};
use super::ports::{TrashErrorKind, TrashService, UndoStack};
use crate::events::{is_deleted_event, DomainEvent};
use crate::ports::{Clock, EventBus, NoteRepository};
use crate::slices::common::{is_note_path, md_path};
use crate::types::{DeletedNote, Note, NoteId};
use vstd::prelude::*;

verus! {

/// What deleting the note `id` answers, given what the ports answered: the
/// storage directory `dir`, the load `loaded` and the trash move `moved`. A
/// missing note or a failed read is `NoteNotFound`; a failed move is
/// `TrashError` at `<dir>/<id>.md` carrying the move's error; otherwise the
/// undo handle of the loaded note with that path.
pub open spec fn delete_note_answer(
    id: Seq<char>,
    dir: Seq<char>,
    loaded: Result<Option<Note>, std::io::Error>,
    moved: Result<(), TrashErrorKind>,
    r: Result<DeletedNote, DeleteNoteError>,
) -> bool {
    match loaded {
        Ok(Some(existing)) => match moved {
            Ok(()) => r matches Ok(d) && d@.0 == existing@.id && is_note_path(d@.1, dir, id),
            Err(c) => r matches Err(DeleteNoteError::TrashError { path, cause }) && cause == c
                && is_note_path(path@, dir, id),
        },
        _ => r matches Err(DeleteNoteError::NoteNotFound { id: x }) && x@ == id,
    }
}

/// The answer of deleting the note `id` whose file is `path`, given the
/// load's result and the trash move's result (the latter consulted only for
/// a loaded note): `NoteNotFound` for a missing or unreadable note;
/// `TrashError` at `path` carrying the move's error; otherwise the loaded
/// note's undo handle with `path`.
pub open spec fn delete_step_answer(
    id: Seq<char>,
    path: Seq<char>,
    loaded: Result<Option<Note>, std::io::Error>,
    moved: Result<(), TrashErrorKind>,
    r: Result<DeletedNote, DeleteNoteError>,
) -> bool {
    match loaded {
        Ok(Some(existing)) => match moved {
            Ok(()) => r matches Ok(d) && d@ == (existing@.id, path),
            Err(c) => r matches Err(DeleteNoteError::TrashError { path: p, cause }) && cause == c
                && p@ == path,
        },
        _ => r matches Err(DeleteNoteError::NoteNotFound { id: x }) && x@ == id,
    }
}

/// Decides the answer of a delete as `delete_step_answer` says.
pub fn delete_note_step(
    id: NoteId,
    path: String,
    loaded: Result<Option<Note>, std::io::Error>,
    moved: Result<(), TrashErrorKind>,
) -> (r: Result<DeletedNote, DeleteNoteError>)
    ensures
        delete_step_answer(id@, path@, loaded, moved, r),
{
    match loaded {
        Ok(Some(existing)) => match moved {
            Ok(()) => Ok(existing.delete_to_trash(path)),
            Err(cause) => Err(DeleteNoteError::TrashError { path, cause }),
        },
        _ => Err(DeleteNoteError::NoteNotFound { id }),
    }
}

/// Loads the note, moves `<storage_dir>/<id>.md` to the trash, pushes the
/// undo handle and then publishes `NoteDeletedToTrash`. Nothing is written.
pub struct DeleteNoteUseCase<R: NoteRepository, T: TrashService, U: UndoStack, C: Clock, B: EventBus> {
    repo: R,
    trash: T,
    undo: U,
    clock: C,
    bus: B,
}

impl<R: NoteRepository, T: TrashService, U: UndoStack, C: Clock, B: EventBus> DeleteNoteUseCase<
    R,
    T,
    U,
    C,
    B,
> {
    /// The ports the use case drives, in the order `new` takes them.
    pub closed spec fn ports(&self) -> (R, T, U, C, B) {
        (self.repo, self.trash, self.undo, self.clock, self.bus)
    }

    pub fn new(repo: R, trash: T, undo: U, clock: C, bus: B) -> (r: Self)
        ensures
            r.ports() == (repo, trash, undo, clock, bus),
    {
        DeleteNoteUseCase { repo, trash, undo, clock, bus }
    }

    /// Answers as `delete_note_answer` and `delete_step_answer` say for what
    /// the ports answered to the calls made: the load of the command's note,
    /// the storage directory and, for a loaded note only, the move of its
    /// file `path` (`<dir>/<id>.md`) to the trash. A returned handle is the
    /// one pushed onto the undo stack, and `NoteDeletedToTrash` for the note
    /// and `path` is then published.
    pub fn execute(&self, cmd: DeleteNoteCommand) -> (r: Result<DeletedNote, DeleteNoteError>)
        ensures
            exists|
                dir: Seq<char>,
                path: Seq<char>,
                loaded: Result<Option<Note>, std::io::Error>,
                moved: Result<(), TrashErrorKind>,
            |
                #[trigger] delete_note_answer(cmd.note_id@, dir, loaded, moved, r)
                    && #[trigger] delete_step_answer(cmd.note_id@, path, loaded, moved, r)
                    && is_note_path(path, dir, cmd.note_id@) && self.ports().0.loaded(
                    cmd.note_id@,
                    loaded,
                ) && self.ports().0.has_dir(dir) && (loaded matches Ok(Some(_))
                    ==> self.ports().1.trashed(path, moved)) && (r matches Ok(d)
                    ==> self.ports().2.pushed(d@)) && (r is Ok ==> exists|e: DomainEvent|
                    #[trigger] self.ports().4.published(e) && is_deleted_event(e, cmd.note_id@, path)),
    {
        let loaded = self.repo.load_by_id(&cmd.note_id);
        let dir = self.repo.storage_dir();
        let path = md_path(dir, &cmd.note_id);
        let moved = match &loaded {
            Ok(Some(_)) => self.trash.move_to_trash(path.as_str()),
            _ => Ok(()),
        };
        let ghost lg = loaded;
        let ghost mg = moved;
        let ghost id = cmd.note_id@;
        let ghost path_view = path@;
        let r = delete_note_step(cmd.note_id.clone(), path.clone(), loaded, moved);
        if let Ok(d) = &r {
            self.undo.push(d.clone());
            let deleted_at = self.clock.now();
            let event = DomainEvent::NoteDeletedToTrash { note_id: cmd.note_id, original_path: path, deleted_at };
            let ghost sent = event;
            self.bus.publish(event);
            assert(self.ports().4.published(sent) && is_deleted_event(sent, id, path_view));
        }
        assert(delete_note_answer(id, dir@, lg, mg, r));
        assert(delete_step_answer(id, path_view, lg, mg, r));
        r
    }
}

} // verus!
