use super::domain::{RecreateNoteCommand, RecreateNoteError};
use crate::ports::{Clock, NoteRepository};
use crate::slices::common::{is_note_path, md_path};
use crate::slices::create_note::application::created_tags;
use crate::types::note::persisted_view;
use crate::types::note_body::has_delimiter_line;
use crate::types::tag::{
    normalized_name, parse_raw_tags, string_views, tag_error_matches, tag_refused,
};
use crate::types::timestamp::{compact_text, TimeFields};
use crate::types::{Note, NoteBody, NoteView, TagSet};
use vstd::prelude::*;

verus! {

/// What recreating a note created at `created_at` from `body` and `raws`
/// answers, given what the ports answered: the storage directory `dir`, the
/// clock's `now` and the write `written`.
/// - a body with a delimiter line: `InvalidBody`;
/// - a refused tag: `InvalidTag` for the first refused one;
/// - otherwise, when the write succeeded, the note with the id of
///   `created_at`, the normalized tags and `updated_at == now`; when it
///   failed, `PersistError` at `<dir>/<id>.md` carrying the write's error.
pub open spec fn recreate_note_answer(
    created_at: TimeFields,
    body: Seq<char>,
    raws: Seq<Seq<char>>,
    dir: Seq<char>,
    now: TimeFields,
    written: Result<(), std::io::Error>,
    r: Result<Note, RecreateNoteError>,
) -> bool {
    if has_delimiter_line(body) {
        r matches Err(RecreateNoteError::InvalidBody { .. })
    } else if exists|i: int| 0 <= i < raws.len() && tag_refused(#[trigger] raws[i]) {
        r matches Err(RecreateNoteError::InvalidTag { raw, source }) && exists|i: int|
            0 <= i < raws.len() && tag_refused(#[trigger] raws[i]) && (forall|j: int|
                0 <= j < i ==> !tag_refused(#[trigger] raws[j])) && raw@ == raws[i]
                && tag_error_matches(raws[i], source)
    } else {
        match written {
            Ok(()) => r matches Ok(n) && n@ == persisted_view(body, created_tags(raws), created_at, now),
            Err(e) => r matches Err(RecreateNoteError::PersistError { path, source }) && source == e
                && is_note_path(path@, dir, compact_text(created_at)),
        }
    }
}

/// The note that recreating writes: the note rebuilt from `body` and `raws`
/// with `created_at` and `updated_at == now`, when the body holds no
/// delimiter line and every tag is accepted; otherwise nothing is written.
pub open spec fn recreate_note_write(
    created_at: TimeFields,
    body: Seq<char>,
    raws: Seq<Seq<char>>,
    now: TimeFields,
) -> Option<NoteView> {
    if has_delimiter_line(body) || exists|i: int| 0 <= i < raws.len() && tag_refused(#[trigger] raws[i]) {
        None
    } else {
        Some(persisted_view(body, created_tags(raws), created_at, now))
    }
}

/// What recreating returns is what it wrote: a returned note is the note
/// written, and a failed write was the write of a note.
pub proof fn lemma_recreate_returns_what_it_wrote(
    created_at: TimeFields,
    body: Seq<char>,
    raws: Seq<Seq<char>>,
    dir: Seq<char>,
    now: TimeFields,
    written: Result<(), std::io::Error>,
    r: Result<Note, RecreateNoteError>,
)
    requires
        recreate_note_answer(created_at, body, raws, dir, now, written, r),
    ensures
        r matches Ok(n) ==> recreate_note_write(created_at, body, raws, now) == Some(n@),
        r matches Err(RecreateNoteError::PersistError { .. }) ==> recreate_note_write(
            created_at,
            body,
            raws,
            now,
        ) is Some,
{
}

/// Parses the body, then the tags, rebuilds the note with its original
/// `created_at` (so its id is kept) and the clock's time, and writes it. No
/// event is published.
pub struct RecreateNoteUseCase<R: NoteRepository, C: Clock> {
    repo: R,
    clock: C,
}

impl<R: NoteRepository, C: Clock> RecreateNoteUseCase<R, C> {
    /// The ports the use case drives, in the order `new` takes them.
    pub closed spec fn ports(&self) -> (R, C) {
        (self.repo, self.clock)
    }

    pub fn new(repo: R, clock: C) -> (r: Self)
        ensures
            r.ports() == (repo, clock),
    {
        RecreateNoteUseCase { repo, clock }
    }

    /// Answers as `recreate_note_answer` says for what the repository and
    /// the clock answered to the calls made: where `recreate_note_write` gives a
    /// note, the time and the write of that note, and, after a failed write,
    /// the storage directory.
    pub fn execute(&self, cmd: RecreateNoteCommand) -> (r: Result<Note, RecreateNoteError>)
        ensures
            exists|dir: Seq<char>, now: TimeFields, written: Result<(), std::io::Error>|
                #[trigger] recreate_note_answer(
                    cmd.created_at@,
                    cmd.raw_body@,
                    string_views(cmd.raw_tags@),
                    dir,
                    now,
                    written,
                    r,
                ) && (recreate_note_write(cmd.created_at@, cmd.raw_body@, string_views(cmd.raw_tags@), now)
                    matches Some(v) ==> self.ports().1.gave(now) && self.ports().0.wrote(v, written))
                    && (r matches Err(RecreateNoteError::PersistError { .. }) ==> self.ports().0.has_dir(
                    dir,
                )),
    {
        let ghost raws = string_views(cmd.raw_tags@);
        let ghost created = cmd.created_at@;
        let ghost body_view = cmd.raw_body@;
        let ghost no_write: Result<(), std::io::Error> = Ok(());
        let ghost no_time: TimeFields = (0, 0, 0, 0, 0, 0);
        let body = match NoteBody::new(cmd.raw_body) {
            Ok(b) => b,
            Err(source) => {
                let r = Err(RecreateNoteError::InvalidBody { source });
                assert(recreate_note_answer(created, body_view, raws, Seq::empty(), no_time, no_write, r));
                return r;
            },
        };
        let parsed = match parse_raw_tags(&cmd.raw_tags) {
            Ok(p) => p,
            Err((raw, source)) => {
                let r = Err(RecreateNoteError::InvalidTag { raw, source });
                assert(recreate_note_answer(created, body_view, raws, Seq::empty(), no_time, no_write, r));
                return r;
            },
        };
        let tags = TagSet::from_tags(parsed);
        proof {
            assert(raws.map_values(|x: Seq<char>| normalized_name(x)) =~= crate::types::tag_set::names_of(
                parsed@,
            ));
        }
        let now = self.clock.now();
        let note = Note::from_persisted(body, tags, cmd.created_at, now);
        let written = self.repo.write(&note);
        let ghost wg = written;
        match written {
            Ok(()) => {},
            Err(source) => {
                let dir = self.repo.storage_dir();
                let path = md_path(dir, note.id());
                let r = Err(RecreateNoteError::PersistError { path, source });
                assert(recreate_note_answer(created, body_view, raws, dir@, now@, wg, r));
                return r;
            },
        }
        let r = Ok(note);
        assert(recreate_note_answer(created, body_view, raws, Seq::empty(), now@, wg, r));
        r
    }
}

} // verus!
