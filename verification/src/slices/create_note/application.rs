use super::domain::{CreateNoteCommand, CreateNoteError};
use crate::events::{is_created_event, DomainEvent};
use crate::slices::common::{is_note_path, md_path};
use crate::ports::{Clock, EventBus, NoteRepository};
use crate::text::{is_blank, is_white_space, lemma_trim_empty_iff_all_ws, spec_trim};
use crate::types::note::persisted_view;
use crate::types::note_body::has_delimiter_line;
use crate::types::tag::{
    normalized_name, parse_raw_tags, string_views, tag_error_matches, tag_refused,
};
use crate::types::tag_set::dedup_first;
use crate::types::timestamp::{compact_text, TimeFields};
use crate::types::{Note, NoteBody, NoteView, TagSet};
use vstd::prelude::*;

verus! {

/// The tags of a note created from `raws` (all accepted): normalized, with
/// later repeats dropped.
pub open spec fn created_tags(raws: Seq<Seq<char>>) -> Seq<Seq<char>> {
    dedup_first(raws.map_values(|x: Seq<char>| normalized_name(x)))
}

/// What creating a note from `body` and `raws` answers, given what the
/// ports answered: the storage directory `dir`, the clock's `now` and the
/// write `written`:
/// - a blank body: `None`, nothing created;
/// - a body with a delimiter line: `InvalidBody`;
/// - a refused tag: `InvalidTag` for the first refused one;
/// - otherwise, when the write succeeded, the note created at `now` with the
///   normalized tags; when it failed, `PersistError` at `<dir>/<id>.md` for
///   the id of `now`, carrying the write's error.
pub open spec fn create_note_answer(
    body: Seq<char>,
    raws: Seq<Seq<char>>,
    dir: Seq<char>,
    now: TimeFields,
    written: Result<(), std::io::Error>,
    r: Result<Option<Note>, CreateNoteError>,
) -> bool {
    if spec_trim(body).len() == 0 {
        r matches Ok(None)
    } else if has_delimiter_line(body) {
        r matches Err(CreateNoteError::InvalidBody { .. })
    } else if exists|i: int| 0 <= i < raws.len() && tag_refused(#[trigger] raws[i]) {
        r matches Err(CreateNoteError::InvalidTag { raw, source }) && exists|i: int|
            0 <= i < raws.len() && tag_refused(#[trigger] raws[i]) && (forall|j: int|
                0 <= j < i ==> !tag_refused(#[trigger] raws[j])) && raw@ == raws[i]
                && tag_error_matches(raws[i], source)
    } else {
        match written {
            Ok(()) => r matches Ok(Some(n)) && n@ == persisted_view(body, created_tags(raws), now, now),
            Err(e) => r matches Err(CreateNoteError::PersistError { path, source }) && source == e
                && is_note_path(path@, dir, compact_text(now)),
        }
    }
}

/// The note that creating a note from `body` and `raws` at `now` writes: the
/// created note, when the body is not blank, holds no delimiter line and
/// every tag is accepted; otherwise nothing is written.
pub open spec fn create_note_write(body: Seq<char>, raws: Seq<Seq<char>>, now: TimeFields) -> Option<
    NoteView,
> {
    if spec_trim(body).len() == 0 || has_delimiter_line(body) || exists|i: int|
        0 <= i < raws.len() && tag_refused(#[trigger] raws[i]) {
        None
    } else {
        Some(persisted_view(body, created_tags(raws), now, now))
    }
}

/// What creating returns is what it wrote: a returned note is the note
/// written, a failed write was the write of a note, and a blank body wrote
/// nothing.
pub proof fn lemma_create_returns_what_it_wrote(
    body: Seq<char>,
    raws: Seq<Seq<char>>,
    dir: Seq<char>,
    now: TimeFields,
    written: Result<(), std::io::Error>,
    r: Result<Option<Note>, CreateNoteError>,
)
    requires
        create_note_answer(body, raws, dir, now, written, r),
    ensures
        r matches Ok(Some(n)) ==> create_note_write(body, raws, now) == Some(n@),
        r matches Err(CreateNoteError::PersistError { .. }) ==> create_note_write(body, raws, now) is Some,
        r matches Ok(None) ==> create_note_write(body, raws, now) is None,
{
}

/// A body made of white space only (or nothing) creates no note, whatever
/// the tags and whatever the ports answer: the answer is `Ok(None)`.
pub proof fn lemma_blank_body_creates_nothing(
    body: Seq<char>,
    raws: Seq<Seq<char>>,
    dir: Seq<char>,
    now: TimeFields,
    written: Result<(), std::io::Error>,
    r: Result<Option<Note>, CreateNoteError>,
)
    requires
        forall|k: int| 0 <= k < body.len() ==> is_white_space(#[trigger] body[k]),
        create_note_answer(body, raws, dir, now, written, r),
    ensures
        r matches Ok(None),
{
    lemma_trim_empty_iff_all_ws(body);
}

/// Parses the body and tags, creates the note at the clock's time, writes
/// it, then publishes `NoteCreated`; a failed write publishes nothing.
pub struct CreateNoteUseCase<R: NoteRepository, C: Clock, E: EventBus> {
    repo: R,
    clock: C,
    bus: E,
}

impl<R: NoteRepository, C: Clock, E: EventBus> CreateNoteUseCase<R, C, E> {
    /// The ports the use case drives, in the order `new` takes them.
    pub closed spec fn ports(&self) -> (R, C, E) {
        (self.repo, self.clock, self.bus)
    }

    pub fn new(repo: R, clock: C, bus: E) -> (r: Self)
        ensures
            r.ports() == (repo, clock, bus),
    {
        CreateNoteUseCase { repo, clock, bus }
    }

    /// Answers as `create_note_answer` says for what the repository and
    /// the clock answered to the calls made: where `create_note_write` gives a
    /// note, the time and the write of that note, and, after a failed write,
    /// the storage directory. For a returned note, `NoteCreated` with its id,
    /// creation time and tags is published (and only then).
    pub fn execute(&self, cmd: CreateNoteCommand) -> (r: Result<Option<Note>, CreateNoteError>)
        ensures
            exists|dir: Seq<char>, now: TimeFields, written: Result<(), std::io::Error>|
                #[trigger] create_note_answer(
                    cmd.raw_body@,
                    string_views(cmd.raw_tags@),
                    dir,
                    now,
                    written,
                    r,
                ) && (create_note_write(cmd.raw_body@, string_views(cmd.raw_tags@), now) matches Some(v)
                    ==> self.ports().1.gave(now) && self.ports().0.wrote(v, written)) && (r matches Err(
                    CreateNoteError::PersistError { .. },
                ) ==> self.ports().0.has_dir(dir)) && (r matches Ok(Some(n)) ==> exists|e: DomainEvent|
                    #[trigger] self.ports().2.published(e) && is_created_event(e, n@)),
    {
        let ghost body_view = cmd.raw_body@;
        let ghost raws = string_views(cmd.raw_tags@);
        let ghost no_write: Result<(), std::io::Error> = Ok(());
        let ghost no_time: TimeFields = (0, 0, 0, 0, 0, 0);
        if is_blank(cmd.raw_body.as_str()) {
            let r = Ok(None);
            assert(create_note_answer(body_view, raws, Seq::empty(), no_time, no_write, r));
            return r;
        }
        let body = match NoteBody::new(cmd.raw_body) {
            Ok(b) => b,
            Err(source) => {
                let r = Err(CreateNoteError::InvalidBody { source });
                assert(create_note_answer(body_view, raws, Seq::empty(), no_time, no_write, r));
                return r;
            },
        };
        let parsed = match parse_raw_tags(&cmd.raw_tags) {
            Ok(p) => p,
            Err((raw, source)) => {
                let r = Err(CreateNoteError::InvalidTag { raw, source });
                assert(create_note_answer(body_view, raws, Seq::empty(), no_time, no_write, r));
                return r;
            },
        };
        let tags = TagSet::from_tags(parsed);
        proof {
            assert(raws.map_values(|x: Seq<char>| normalized_name(x)) =~= crate::types::tag_set::names_of(
                parsed@,
            ));
        }
        let now = self.clock.now();
        let note = Note::create(body, tags, now);
        let written = self.repo.write(&note);
        let ghost wg = written;
        match written {
            Ok(()) => {},
            Err(source) => {
                let dir = self.repo.storage_dir();
                let path = md_path(dir, note.id());
                let r = Err(CreateNoteError::PersistError { path, source });
                assert(create_note_answer(body_view, raws, dir@, now@, wg, r));
                return r;
            },
        }
        let event = DomainEvent::NoteCreated {
            note_id: note.id().clone(),
            created_at: note.created_at(),
            initial_tags: note.tags().clone(),
        };
        let ghost sent = event;
        self.bus.publish(event);
        assert(self.ports().2.published(sent) && is_created_event(sent, note@));
        let r = Ok(Some(note));
        assert(create_note_answer(body_view, raws, Seq::empty(), now@, wg, r));
        r
    }
}

} // verus!
