
use std::cell::{Cell, RefCell};
use std::collections::HashMap;
use std::io;
use std::rc::Rc;

use promptnotes::ports::NoteRepository;
use promptnotes::types::{Note, NoteBody, NoteId, Tag, TagSet, Timestamp};

use promptnotes::slices::copy_note_body::application::{clipboard_text, copy_answer, CopyNoteBodyUseCase};
use promptnotes::slices::copy_note_body::domain::{CopyNoteBodyCommand, CopyNoteBodyError};
use promptnotes::slices::copy_note_body::ports::{ClipboardErrorKind, ClipboardService};

fn ts(year: i32, month: u8, day: u8, hour: u8, minute: u8, second: u8) -> Timestamp {
    Timestamp::from_parts(year, month, day, hour, minute, second).expect("valid test time")
}

#[derive(Default)]
struct FakeRepo {
    notes: RefCell<HashMap<String, Note>>,
    writes: RefCell<Vec<Note>>,
    fail_load_with: Cell<Option<io::ErrorKind>>,
    storage_dir: String,
}
impl FakeRepo {
    fn new() -> Self {
        Self {
            notes: RefCell::new(HashMap::new()),
            writes: RefCell::new(Vec::new()),
            fail_load_with: Cell::new(None),
            storage_dir: String::from("/tmp/promptnotes-test"),
        }
    }
    fn seed(&self, note: Note) {
        self.notes
            .borrow_mut()
            .insert(note.id().as_str().to_string(), note);
    }
    fn write_count(&self) -> usize {
        self.writes.borrow().len()
    }
}
impl NoteRepository for FakeRepo {
    fn write(&self, note: &Note) -> io::Result<()> {
        self.writes.borrow_mut().push(note.clone());
        Ok(())
    }
    fn storage_dir(&self) -> &str {
        &self.storage_dir
    }
    fn load_by_id(&self, id: &NoteId) -> io::Result<Option<Note>> {
        if let Some(kind) = self.fail_load_with.take() {
            return Err(io::Error::new(kind, "fake load failure"));
        }
        Ok(self.notes.borrow().get(id.as_str()).cloned())
    }
    fn list_all(&self) -> io::Result<Vec<Note>> {
        Ok(Vec::new())
    }
}

#[derive(Default)]
struct FakeClipboard {
    writes: RefCell<Vec<String>>,
    fail_next_with: Cell<Option<ClipboardErrorKind>>,
}
impl FakeClipboard {
    fn new() -> Self {
        Self::default()
    }
    fn fail_next_with(&self, kind: ClipboardErrorKind) {
        self.fail_next_with.set(Some(kind));
    }
    fn write_count(&self) -> usize {
        self.writes.borrow().len()
    }
    fn last_written(&self) -> Option<String> {
        self.writes.borrow().last().cloned()
    }
}
impl ClipboardService for FakeClipboard {
    fn write_text(&self, text: &str) -> Result<(), ClipboardErrorKind> {
        if let Some(kind) = self.fail_next_with.take() {
            return Err(kind);
        }
        self.writes.borrow_mut().push(text.to_string());
        Ok(())
    }
}

type Rig = (
    CopyNoteBodyUseCase<Rc<FakeRepo>, Rc<FakeClipboard>>,
    Rc<FakeRepo>,
    Rc<FakeClipboard>,
);

fn rig() -> Rig {
    let repo = Rc::new(FakeRepo::new());
    let clipboard = Rc::new(FakeClipboard::new());
    let uc = CopyNoteBodyUseCase::new(repo.clone(), clipboard.clone());
    (uc, repo, clipboard)
}

fn fixture_note(body: &str, created_at: Timestamp) -> Note {
    Note::create(
        NoteBody::new(body.into()).expect("test fixture body must be valid"),
        TagSet::empty(),
        created_at,
    )
}

fn fixture_note_with_tags(body: &str, tag_names: &[&str], created_at: Timestamp) -> Note {
    let tags = TagSet::from_tags(
        tag_names
            .iter()
            .map(|n| Tag::new(n).expect("test fixture tag must be valid"))
            .collect(),
    );
    Note::create(
        NoteBody::new(body.into()).expect("test fixture body must be valid"),
        tags,
        created_at,
    )
}

#[test]
fn tp_h1_normal_body_is_written_to_clipboard() {
    let created = ts(2026, 6, 20, 9, 0, 0);
    let (uc, repo, clipboard) = rig();
    let seed = fixture_note("hello world", created);
    let id = seed.id().clone();
    repo.seed(seed);

    uc.execute(CopyNoteBodyCommand {
        note_id: id.clone(),
    })
    .expect("happy path must succeed");

    assert_eq!(clipboard.write_count(), 1, "exactly one clipboard write");
    assert_eq!(
        clipboard.last_written().as_deref(),
        Some("hello world"),
        "body string written verbatim"
    );
}

#[test]
fn tp_ex1_tagged_note_clipboard_contains_only_body() {
    let created = ts(2026, 6, 20, 9, 0, 0);
    let body = "line1\nline2";
    let (uc, repo, clipboard) = rig();
    let seed = fixture_note_with_tags(body, &["rust", "memo"], created);
    let id = seed.id().clone();
    repo.seed(seed);

    uc.execute(CopyNoteBodyCommand { note_id: id })
        .expect("tagged note copy must succeed");

    let written = clipboard
        .last_written()
        .expect("clipboard must have been written exactly once");
    assert_eq!(written, body, "body verbatim");
    assert!(!written.contains("---"), "no frontmatter delimiter");
    assert!(!written.contains("tags:"), "no tags: key");
    assert!(!written.contains("rust"), "no tag name 'rust'");
    assert!(!written.contains("memo"), "no tag name 'memo'");
    assert!(!written.contains("createdAt"), "no createdAt key");
    assert!(!written.contains("2026"), "no year string from timestamp");
}

#[test]
fn tp_eb1_empty_body_is_copied_as_empty_string() {
    let created = ts(2026, 6, 20, 9, 0, 0);
    let (uc, repo, clipboard) = rig();
    let seed = fixture_note("", created);
    let id = seed.id().clone();
    repo.seed(seed);

    uc.execute(CopyNoteBodyCommand { note_id: id })
        .expect("empty body is Ok ()");

    assert_eq!(clipboard.write_count(), 1);
    assert_eq!(clipboard.last_written().as_deref(), Some(""));
}

#[test]
fn copy_note_body_tp_nf1_missing_note_id_yields_note_not_found() {
    let (uc, _repo, _clipboard) = rig();
    let missing = NoteId::from_timestamp(ts(2026, 6, 20, 9, 0, 0));

    let err = uc
        .execute(CopyNoteBodyCommand {
            note_id: missing.clone(),
        })
        .expect_err("missing id must be an error");

    match err {
        CopyNoteBodyError::NoteNotFound { id } => assert_eq!(id, missing),
        other => panic!("expected NoteNotFound, got {other:?}"),
    }
}

#[test]
fn tp_nf2_missing_note_does_not_touch_clipboard() {
    let (uc, _repo, clipboard) = rig();
    let missing = NoteId::from_timestamp(ts(2026, 6, 20, 9, 0, 0));

    let _ = uc.execute(CopyNoteBodyCommand { note_id: missing });

    assert_eq!(
        clipboard.write_count(),
        0,
        "clipboard untouched when load misses"
    );
}

#[test]
fn tp_nf3_repo_io_error_collapses_to_note_not_found_with_no_clipboard_write() {
    let (uc, repo, clipboard) = rig();
    let id = NoteId::from_timestamp(ts(2026, 6, 20, 9, 0, 0));

    repo.fail_load_with
        .set(Some(io::ErrorKind::PermissionDenied));

    let err = uc
        .execute(CopyNoteBodyCommand {
            note_id: id.clone(),
        })
        .expect_err("load io error must surface as an error");

    match err {
        CopyNoteBodyError::NoteNotFound { id: returned } => assert_eq!(returned, id),
        other => panic!("io::Err must collapse to NoteNotFound, got {other:?}"),
    }
    assert_eq!(
        clipboard.write_count(),
        0,
        "clipboard untouched on load io error"
    );
}

#[test]
fn tp_ce1_clipboard_unavailable_surfaces_as_clipboard_error() {
    let created = ts(2026, 6, 20, 9, 0, 0);
    let (uc, repo, clipboard) = rig();
    let seed = fixture_note("hello", created);
    let id = seed.id().clone();
    repo.seed(seed);
    clipboard.fail_next_with(ClipboardErrorKind::Unavailable);

    let err = uc
        .execute(CopyNoteBodyCommand { note_id: id })
        .expect_err("clipboard failure must surface");

    match err {
        CopyNoteBodyError::ClipboardError { cause } => {
            assert_eq!(cause, ClipboardErrorKind::Unavailable);
        }
        other => panic!("expected ClipboardError, got {other:?}"),
    }
}

#[test]
fn tp_ce2_clipboard_io_failure_preserves_cause() {
    let created = ts(2026, 6, 20, 9, 0, 0);
    let (uc, repo, clipboard) = rig();
    let seed = fixture_note("hello", created);
    let id = seed.id().clone();
    repo.seed(seed);
    clipboard.fail_next_with(ClipboardErrorKind::Io("xclip not found".into()));

    let err = uc
        .execute(CopyNoteBodyCommand { note_id: id })
        .expect_err("clipboard failure must surface");

    match err {
        CopyNoteBodyError::ClipboardError {
            cause: ClipboardErrorKind::Io(msg),
        } => assert_eq!(msg, "xclip not found"),
        other => panic!("expected ClipboardError::Io, got {other:?}"),
    }
}

#[test]
fn tp_nm1_execute_does_not_call_write() {
    let created = ts(2026, 6, 20, 9, 0, 0);
    let (uc, repo, _clipboard) = rig();
    let seed = fixture_note("hello", created);
    let id = seed.id().clone();
    repo.seed(seed);

    let _ = uc.execute(CopyNoteBodyCommand { note_id: id });

    assert_eq!(
        repo.write_count(),
        0,
        "NoteRepository::write must NOT be called by copy-note-body"
    );
}

#[test]
fn tp_ne1_use_case_does_not_take_event_bus() {
    type NewFn<R, C> = fn(R, C) -> CopyNoteBodyUseCase<R, C>;
    fn assert_no_bus_parameter<R: NoteRepository, C: ClipboardService>() {
        let _: NewFn<R, C> = CopyNoteBodyUseCase::<R, C>::new;
    }
    assert_no_bus_parameter::<FakeRepo, FakeClipboard>();
}

#[test]
fn tp_bc1_clipboard_content_equals_seed_body_byte_for_byte() {
    let created = ts(2026, 6, 20, 9, 0, 0);
    let body = "multi\nbyte\nバイト列も含む";
    let (uc, repo, clipboard) = rig();
    let seed = fixture_note(body, created);
    let id = seed.id().clone();
    repo.seed(seed);

    uc.execute(CopyNoteBodyCommand { note_id: id })
        .expect("must succeed");

    assert_eq!(clipboard.last_written().as_deref(), Some(body));
}

#[test]
fn tp_bc2_clipboard_content_equals_body_for_clipboard_return() {
    let created = ts(2026, 6, 20, 9, 0, 0);
    let body = "line1\nline2";
    let (uc, repo, clipboard) = rig();
    let seed = fixture_note_with_tags(body, &["rust"], created);
    let expected = seed.body_for_clipboard();
    let id = seed.id().clone();
    repo.seed(seed);

    uc.execute(CopyNoteBodyCommand { note_id: id })
        .expect("must succeed");

    assert_eq!(clipboard.last_written(), Some(expected));
}

#[test]
fn tp_as1_execute_signature_returns_result_unit() {
    type ExecuteFn<R, C> =
        fn(&CopyNoteBodyUseCase<R, C>, CopyNoteBodyCommand) -> Result<(), CopyNoteBodyError>;
    fn assert_signature<R: NoteRepository, C: ClipboardService>() {
        let _: ExecuteFn<R, C> = CopyNoteBodyUseCase::<R, C>::execute;
    }
    assert_signature::<FakeRepo, FakeClipboard>();
}

#[test]
fn copy_decisions_for_each_port_answer() {

    let note = fixture_note("the body", ts(2026, 6, 20, 9, 0, 0));
    let id = note.id().clone();
    assert_eq!(clipboard_text(id.clone(), Ok(Some(note))).unwrap(), "the body");
    assert!(matches!(
        clipboard_text(id.clone(), Ok(None)),
        Err(CopyNoteBodyError::NoteNotFound { id: x }) if x == id
    ));
    assert!(matches!(
        clipboard_text(id.clone(), Err(io::Error::new(io::ErrorKind::Other, "x"))),
        Err(CopyNoteBodyError::NoteNotFound { id: x }) if x == id
    ));
    assert!(copy_answer(Ok(())).is_ok());
    assert!(matches!(
        copy_answer(Err(ClipboardErrorKind::Unavailable)),
        Err(CopyNoteBodyError::ClipboardError { cause: ClipboardErrorKind::Unavailable })
    ));
}
