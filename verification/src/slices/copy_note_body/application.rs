use super::domain::{CopyNoteBodyCommand, CopyNoteBodyError};
use super::ports::{ClipboardErrorKind, ClipboardService};
use crate::ports::NoteRepository;
use crate::types::{Note, NoteId};
use vstd::prelude::*;

verus! {

/// What copying the note `id` answers, given what the ports answered: the
/// load `loaded` and the clipboard's `written`. A missing note or a failed
/// read is `NoteNotFound`; otherwise `Ok` when the clipboard took the text,
/// or `ClipboardError` carrying its error.
pub open spec fn copy_note_body_answer(
    id: Seq<char>,
    loaded: Result<Option<Note>, std::io::Error>,
    written: Result<(), ClipboardErrorKind>,
    r: Result<(), CopyNoteBodyError>,
) -> bool {
    match loaded {
        Ok(Some(_)) => match written {
            Ok(()) => r is Ok,
            Err(c) => r matches Err(CopyNoteBodyError::ClipboardError { cause }) && cause == c,
        },
        _ => r matches Err(CopyNoteBodyError::NoteNotFound { id: x }) && x@ == id,
    }
}

/// What the copy asks the clipboard to hold, for what loading the note gave:
/// the loaded note's body; a missing note or a failed read is `NoteNotFound`.
pub fn clipboard_text(id: NoteId, loaded: Result<Option<Note>, std::io::Error>) -> (r: Result<
    String,
    CopyNoteBodyError,
>)
    ensures
        match loaded {
            Ok(Some(n)) => r matches Ok(t) && t@ == n@.body,
            _ => r matches Err(CopyNoteBodyError::NoteNotFound { id: x }) && x@ == id@,
        },
{
    match loaded {
        Ok(Some(n)) => Ok(n.body_for_clipboard()),
        _ => Err(CopyNoteBodyError::NoteNotFound { id }),
    }
}

/// The copy's answer for what the clipboard answered.
pub fn copy_answer(written: Result<(), ClipboardErrorKind>) -> (r: Result<(), CopyNoteBodyError>)
    ensures
        match written {
            Ok(()) => r is Ok,
            Err(c) => r matches Err(CopyNoteBodyError::ClipboardError { cause }) && cause == c,
        },
{
    match written {
        Ok(()) => Ok(()),
        Err(cause) => Err(CopyNoteBodyError::ClipboardError { cause }),
    }
}

/// Loads the note (a failed read counts as not found) and writes its body to
/// the clipboard. Nothing is written back and no event is published: the use
/// case holds no event bus.
pub struct CopyNoteBodyUseCase<R: NoteRepository, C: ClipboardService> {
    repo: R,
    clipboard: C,
}

impl<R: NoteRepository, C: ClipboardService> CopyNoteBodyUseCase<R, C> {
    /// The ports the use case drives, in the order `new` takes them.
    pub closed spec fn ports(&self) -> (R, C) {
        (self.repo, self.clipboard)
    }

    pub fn new(repo: R, clipboard: C) -> (r: Self)
        ensures
            r.ports() == (repo, clipboard),
    {
        CopyNoteBodyUseCase { repo, clipboard }
    }

    /// Answers as `copy_note_body_answer` says for what the repository and
    /// the clipboard answered to the calls made: the load of the command's
    /// note and, for a loaded note, the write of its body to the clipboard.
    pub fn execute(&self, cmd: CopyNoteBodyCommand) -> (r: Result<(), CopyNoteBodyError>)
        ensures
            exists|loaded: Result<Option<Note>, std::io::Error>, written: Result<(), ClipboardErrorKind>|
                #[trigger] copy_note_body_answer(cmd.note_id@, loaded, written, r)
                    && self.ports().0.loaded(cmd.note_id@, loaded) && (loaded matches Ok(Some(n))
                    ==> self.ports().1.took_text(n@.body, written)),
    {
        let ghost id = cmd.note_id@;
        let ghost no_write: Result<(), ClipboardErrorKind> = Ok(());
        let loaded = self.repo.load_by_id(&cmd.note_id);
        let ghost lg = loaded;
        let text = match clipboard_text(cmd.note_id, loaded) {
            Ok(t) => t,
            Err(e) => {
                let r = Err(e);
                assert(copy_note_body_answer(id, lg, no_write, r));
                return r;
            },
        };
        let written = self.clipboard.write_text(text.as_str());
        let ghost wg = written;
        let r = copy_answer(written);
        assert(copy_note_body_answer(id, lg, wg, r));
        assert(lg matches Ok(Some(n)) ==> self.ports().1.took_text(n@.body, wg));
        r
    }
}

} // verus!
