
use std::cell::{Cell, RefCell};
use std::collections::HashMap;
use std::io;
use std::rc::Rc;

use promptnotes::events::DomainEvent;
use promptnotes::ports::{Clock, EventBus, NoteRepository};
use promptnotes::types::{Note, NoteBody, NoteBodyError, NoteId, TagSet, Timestamp};

use promptnotes::slices::auto_save_note::application::AutoSaveNoteUseCase;
use promptnotes::slices::auto_save_note::domain::{AutoSaveError, AutoSaveNoteCommand};

fn ts(year: i32, month: u8, day: u8, hour: u8, minute: u8, second: u8) -> Timestamp {
    Timestamp::from_parts(year, month, day, hour, minute, second).expect("valid test time")
}

struct FixedClock {
    now: Timestamp,
}
impl FixedClock {
    fn new(dt: Timestamp) -> Self {
        Self {
            now: dt,
        }
    }
}
impl Clock for FixedClock {
    fn now(&self) -> Timestamp {
        self.now
    }
}

#[derive(Default)]
struct FakeRepo {
    notes: RefCell<HashMap<String, Note>>,
    writes: RefCell<Vec<Note>>,
    fail_write_with: Cell<Option<io::ErrorKind>>,
    fail_load_with: Cell<Option<io::ErrorKind>>,
    storage_dir: String,
}
impl FakeRepo {
    fn new() -> Self {
        Self {
            notes: RefCell::new(HashMap::new()),
            writes: RefCell::new(Vec::new()),
            fail_write_with: Cell::new(None),
            fail_load_with: Cell::new(None),
            storage_dir: String::from("/tmp/promptnotes-test"),
        }
    }
    fn seed(&self, note: Note) {
        self.notes
            .borrow_mut()
            .insert(note.id().as_str().to_string(), note);
    }
    fn fail_next_write(&self, kind: io::ErrorKind) {
        self.fail_write_with.set(Some(kind));
    }
    fn fail_next_load(&self, kind: io::ErrorKind) {
        self.fail_load_with.set(Some(kind));
    }
    fn write_count(&self) -> usize {
        self.writes.borrow().len()
    }
}
impl NoteRepository for FakeRepo {
    fn write(&self, note: &Note) -> io::Result<()> {
        if let Some(kind) = self.fail_write_with.take() {
            return Err(io::Error::new(kind, "fake repo failure"));
        }
        self.notes
            .borrow_mut()
            .insert(note.id().as_str().to_string(), note.clone());
        self.writes.borrow_mut().push(note.clone());
        Ok(())
    }
    fn storage_dir(&self) -> &str {
        &self.storage_dir
    }
    fn load_by_id(&self, id: &NoteId) -> io::Result<Option<Note>> {
        if let Some(kind) = self.fail_load_with.take() {
            return Err(io::Error::new(kind, "fake load failure"));
        }
        Ok(self.notes.borrow().get(id.as_str()).cloned())
    }
    fn list_all(&self) -> io::Result<Vec<Note>> {
        Ok(Vec::new())
    }
}

#[derive(Default)]
struct FakeBus {
    events: RefCell<Vec<DomainEvent>>,
}
impl FakeBus {
    fn new() -> Self {
        Self::default()
    }
    fn event_count(&self) -> usize {
        self.events.borrow().len()
    }
    fn last(&self) -> Option<DomainEvent> {
        self.events.borrow().last().cloned()
    }
}
impl EventBus for FakeBus {
    fn publish(&self, event: DomainEvent) {
        self.events.borrow_mut().push(event);
    }
}

struct RcRepo(Rc<FakeRepo>);
impl RcRepo {
    fn fail_next_load(&self, kind: io::ErrorKind) {
        self.0.fail_next_load(kind);
    }
}
impl NoteRepository for RcRepo {
    fn write(&self, n: &Note) -> io::Result<()> {
        self.0.write(n)
    }
    fn storage_dir(&self) -> &str {
        self.0.storage_dir()
    }
    fn load_by_id(&self, id: &NoteId) -> io::Result<Option<Note>> {
        self.0.load_by_id(id)
    }
    fn list_all(&self) -> io::Result<Vec<Note>> {
        self.0.list_all()
    }
}

struct RcBus(Rc<FakeBus>);
impl EventBus for RcBus {
    fn publish(&self, e: DomainEvent) {
        self.0.publish(e);
    }
}

type Rig = (
    AutoSaveNoteUseCase<RcRepo, FixedClock, RcBus>,
    Rc<FakeRepo>,
    Rc<FakeBus>,
);

fn rig(now: Timestamp) -> Rig {
    let repo = Rc::new(FakeRepo::new());
    let bus = Rc::new(FakeBus::new());
    let uc = AutoSaveNoteUseCase::new(
        RcRepo(repo.clone()),
        FixedClock::new(now),
        RcBus(bus.clone()),
    );
    (uc, repo, bus)
}

fn fixture_note(body: &str, created_at: Timestamp) -> Note {
    Note::create(
        NoteBody::new(body.into()).expect("test fixture body must be valid"),
        TagSet::empty(),
        created_at,
    )
}

#[test]
fn tp_h1_body_changed_returns_updated_note_with_new_body_and_updated_at() {
    let created = ts(2026, 6, 20, 9, 0, 0);
    let now = ts(2026, 6, 25, 12, 34, 56);
    let (uc, repo, _bus) = rig(now);
    let seed = fixture_note("hello", created);
    let id = seed.id().clone();
    repo.seed(seed);

    let updated = uc
        .execute(AutoSaveNoteCommand {
            note_id: id.clone(),
            new_body: "hello world".into(),
        })
        .expect("body changed must succeed")
        .expect("body changed must return Some");

    assert_eq!(updated.id(), &id, "id is immutable");
    assert_eq!(updated.body().as_str(), "hello world");
    assert_eq!(
        updated.updated_at(),
        now,
        "updated_at == clock.now()"
    );
}

#[test]
fn tp_h2_body_changed_calls_write_exactly_once() {
    let created = ts(2026, 6, 20, 9, 0, 0);
    let now = ts(2026, 6, 25, 12, 34, 56);
    let (uc, repo, _bus) = rig(now);
    let seed = fixture_note("hello", created);
    let id = seed.id().clone();
    repo.seed(seed);

    let _ = uc.execute(AutoSaveNoteCommand {
        note_id: id,
        new_body: "hello world".into(),
    });

    assert_eq!(repo.write_count(), 1);
}

#[test]
fn tp_h3_body_changed_publishes_note_body_edited_once_with_correct_payload() {
    let created = ts(2026, 6, 20, 9, 0, 0);
    let now = ts(2026, 6, 25, 12, 34, 56);
    let expected_updated_at = now;
    let (uc, repo, bus) = rig(now);
    let seed = fixture_note("hello", created);
    let id = seed.id().clone();
    repo.seed(seed);

    let _ = uc.execute(AutoSaveNoteCommand {
        note_id: id.clone(),
        new_body: "hello world".into(),
    });

    assert_eq!(bus.event_count(), 1, "exactly one event");
    match bus.last().expect("one event") {
        DomainEvent::NoteBodyEdited {
            note_id,
            updated_at,
        } => {
            assert_eq!(note_id, id);
            assert_eq!(updated_at, expected_updated_at);
        }
        other => panic!("auto-save-note must publish NoteBodyEdited, got {other:?}"),
    }
}

#[test]
fn tp_h4_body_changed_preserves_tags_created_at_and_id() {
    let created = ts(2026, 6, 20, 9, 0, 0);
    let now = ts(2026, 6, 25, 12, 34, 56);
    let (uc, repo, _bus) = rig(now);
    let seed = fixture_note("hello", created);
    let id = seed.id().clone();
    let tags_before = seed.tags().clone();
    let created_before = seed.created_at();
    repo.seed(seed);

    let updated = uc
        .execute(AutoSaveNoteCommand {
            note_id: id.clone(),
            new_body: "hello world".into(),
        })
        .expect("must succeed")
        .expect("must be Some");

    assert_eq!(updated.id(), &id);
    assert_eq!(updated.tags(), &tags_before, "tags unchanged");
    assert_eq!(updated.created_at(), created_before, "corollary");
}

#[test]
fn tp_i1_body_unchanged_returns_none() {
    let created = ts(2026, 6, 20, 9, 0, 0);
    let now = ts(2026, 6, 25, 12, 34, 56);
    let (uc, repo, _bus) = rig(now);
    let seed = fixture_note("hello", created);
    let id = seed.id().clone();
    repo.seed(seed);

    let result = uc
        .execute(AutoSaveNoteCommand {
            note_id: id,
            new_body: "hello".into(),
        })
        .expect("unchanged body is not an error");

    assert!(result.is_none(), "S9: idempotent guard returns Ok(None)");
}

#[test]
fn tp_i2_body_unchanged_skips_write() {
    let created = ts(2026, 6, 20, 9, 0, 0);
    let now = ts(2026, 6, 25, 12, 34, 56);
    let (uc, repo, _bus) = rig(now);
    let seed = fixture_note("hello", created);
    let id = seed.id().clone();
    repo.seed(seed);

    let _ = uc.execute(AutoSaveNoteCommand {
        note_id: id,
        new_body: "hello".into(),
    });

    assert_eq!(repo.write_count(), 0, "no write when body unchanged");
}

#[test]
fn tp_i3_body_unchanged_skips_publish() {
    let created = ts(2026, 6, 20, 9, 0, 0);
    let now = ts(2026, 6, 25, 12, 34, 56);
    let (uc, repo, bus) = rig(now);
    let seed = fixture_note("hello", created);
    let id = seed.id().clone();
    repo.seed(seed);

    let _ = uc.execute(AutoSaveNoteCommand {
        note_id: id,
        new_body: "hello".into(),
    });

    assert_eq!(bus.event_count(), 0, "S9: no event when body unchanged");
}

#[test]
fn tests_tp_nf1_missing_note_id_yields_note_not_found() {
    let now = ts(2026, 6, 25, 12, 34, 56);
    let (uc, _repo, _bus) = rig(now);
    let missing = NoteId::from_timestamp(ts(2026, 6, 20, 9, 0, 0));

    let err = uc
        .execute(AutoSaveNoteCommand {
            note_id: missing.clone(),
            new_body: "anything".into(),
        })
        .expect_err("missing id must be an error");

    match err {
        AutoSaveError::NoteNotFound { id } => assert_eq!(id, missing),
        other => panic!("expected NoteNotFound, got {other:?}"),
    }
}

#[test]
fn tests_tp_nf2_missing_note_does_not_touch_write_or_bus() {
    let now = ts(2026, 6, 25, 12, 34, 56);
    let (uc, repo, bus) = rig(now);
    let missing = NoteId::from_timestamp(ts(2026, 6, 20, 9, 0, 0));

    let _ = uc.execute(AutoSaveNoteCommand {
        note_id: missing,
        new_body: "anything".into(),
    });

    assert_eq!(repo.write_count(), 0);
    assert_eq!(bus.event_count(), 0);
}

#[test]
fn tests_tp_pe1_pe2_write_failure_surfaces_as_persist_error_with_kind() {
    let created = ts(2026, 6, 20, 9, 0, 0);
    let now = ts(2026, 6, 25, 12, 34, 56);
    let (uc, repo, _bus) = rig(now);
    let seed = fixture_note("hello", created);
    let id = seed.id().clone();
    repo.seed(seed);
    repo.fail_next_write(io::ErrorKind::PermissionDenied);

    let err = uc
        .execute(AutoSaveNoteCommand {
            note_id: id.clone(),
            new_body: "hello world".into(),
        })
        .expect_err("write failure must surface");

    match err {
        AutoSaveError::PersistError { path, source } => {
            assert_eq!(
                path,
                String::from(format!("/tmp/promptnotes-test/{}.md", id.as_str())),
            );
            assert_eq!(source.kind(), io::ErrorKind::PermissionDenied);
        }
        other => panic!("expected PersistError, got {other:?}"),
    }
}

#[test]
fn tests_tp_pe3_persist_failure_does_not_emit_event() {
    let created = ts(2026, 6, 20, 9, 0, 0);
    let now = ts(2026, 6, 25, 12, 34, 56);
    let (uc, repo, bus) = rig(now);
    let seed = fixture_note("hello", created);
    let id = seed.id().clone();
    repo.seed(seed);
    repo.fail_next_write(io::ErrorKind::Other);

    let _ = uc.execute(AutoSaveNoteCommand {
        note_id: id,
        new_body: "hello world".into(),
    });

    assert_eq!(bus.event_count(), 0, "persist fail blocks event");
}

#[test]
fn tests_tp_pe4_retry_after_transient_persist_failure_succeeds() {
    let created = ts(2026, 6, 20, 9, 0, 0);
    let now = ts(2026, 6, 25, 12, 34, 56);
    let (uc, repo, bus) = rig(now);
    let seed = fixture_note("hello", created);
    let id = seed.id().clone();
    repo.seed(seed);

    repo.fail_next_write(io::ErrorKind::Other);
    let _ = uc.execute(AutoSaveNoteCommand {
        note_id: id.clone(),
        new_body: "hello world".into(),
    });

    let second = uc
        .execute(AutoSaveNoteCommand {
            note_id: id,
            new_body: "hello world".into(),
        })
        .expect("second call (fs healthy) must succeed")
        .expect("must be Some");
    assert_eq!(second.body().as_str(), "hello world");
    assert_eq!(bus.event_count(), 1, "only the successful run emits");
}

#[test]
fn tests_tp_le1_load_failure_surfaces_as_load_error_not_persist_error() {
    let now = ts(2026, 6, 25, 12, 34, 56);
    let (uc, repo, bus) = rig(now);
    let id = NoteId::from_timestamp(ts(2026, 6, 20, 9, 0, 0));
    RcRepo(repo.clone()).fail_next_load(io::ErrorKind::PermissionDenied);

    let err = uc
        .execute(AutoSaveNoteCommand {
            note_id: id.clone(),
            new_body: "anything".into(),
        })
        .expect_err("load failure must surface");

    match err {
        AutoSaveError::LoadError { path, source } => {
            assert_eq!(
                path,
                String::from(format!("/tmp/promptnotes-test/{}.md", id.as_str()))
            );
            assert_eq!(source.kind(), io::ErrorKind::PermissionDenied);
        }
        AutoSaveError::PersistError { .. } => {
            panic!("read failure must NOT collapse into PersistError")
        }
        other => panic!("expected LoadError, got {other:?}"),
    }
    assert_eq!(repo.write_count(), 0);
    assert_eq!(bus.event_count(), 0);
}

#[test]
fn tp_ib1_body_with_frontmatter_delimiter_line_yields_invalid_body() {
    let created = ts(2026, 6, 20, 9, 0, 0);
    let now = ts(2026, 6, 25, 12, 34, 56);
    let (uc, repo, _bus) = rig(now);
    let seed = fixture_note("hello", created);
    let id = seed.id().clone();
    repo.seed(seed);

    let err = uc
        .execute(AutoSaveNoteCommand {
            note_id: id,
            new_body: "before\n---\nafter".into(),
        })
        .expect_err("body with `---` delimiter line must error");

    match err {
        AutoSaveError::InvalidBody { source } => {
            assert!(matches!(
                source,
                NoteBodyError::ContainsFrontmatterDelimiter
            ));
        }
        other => panic!("expected InvalidBody, got {other:?}"),
    }
}

#[test]
fn tp_ib2_invalid_body_skips_write_and_publish() {
    let created = ts(2026, 6, 20, 9, 0, 0);
    let now = ts(2026, 6, 25, 12, 34, 56);
    let (uc, repo, bus) = rig(now);
    let seed = fixture_note("hello", created);
    let id = seed.id().clone();
    repo.seed(seed);

    let _ = uc.execute(AutoSaveNoteCommand {
        note_id: id,
        new_body: "---".into(),
    });

    assert_eq!(repo.write_count(), 0);
    assert_eq!(bus.event_count(), 0);
}

#[test]
fn tp_bc1_empty_body_unchanged_is_noop() {
    let created = ts(2026, 6, 20, 9, 0, 0);
    let now = ts(2026, 6, 25, 12, 34, 56);
    let (uc, repo, bus) = rig(now);
    let seed = fixture_note("", created);
    let id = seed.id().clone();
    repo.seed(seed);

    let result = uc
        .execute(AutoSaveNoteCommand {
            note_id: id,
            new_body: String::new(),
        })
        .expect("empty unchanged is not an error");

    assert!(result.is_none());
    assert_eq!(repo.write_count(), 0);
    assert_eq!(bus.event_count(), 0);
}

#[test]
fn tp_bc2_trailing_space_is_a_change() {
    let created = ts(2026, 6, 20, 9, 0, 0);
    let now = ts(2026, 6, 25, 12, 34, 56);
    let (uc, repo, _bus) = rig(now);
    let seed = fixture_note("hello", created);
    let id = seed.id().clone();
    repo.seed(seed);

    let result = uc
        .execute(AutoSaveNoteCommand {
            note_id: id,
            new_body: "hello ".into(),
        })
        .expect("must succeed")
        .expect("must be Some");

    assert_eq!(result.body().as_str(), "hello ");
}

#[test]
fn tp_bc3_case_difference_is_a_change() {
    let created = ts(2026, 6, 20, 9, 0, 0);
    let now = ts(2026, 6, 25, 12, 34, 56);
    let (uc, repo, _bus) = rig(now);
    let seed = fixture_note("hello", created);
    let id = seed.id().clone();
    repo.seed(seed);

    let result = uc
        .execute(AutoSaveNoteCommand {
            note_id: id,
            new_body: "Hello".into(),
        })
        .expect("must succeed")
        .expect("must be Some");

    assert_eq!(result.body().as_str(), "Hello");
}

#[test]
fn tests_tp_inv1_inv2_id_immutable_and_updated_at_ge_created_at() {
    let created = ts(2026, 6, 20, 9, 0, 0);
    let now = ts(2026, 6, 25, 12, 34, 56);
    let (uc, repo, _bus) = rig(now);
    let seed = fixture_note("hello", created);
    let id = seed.id().clone();
    repo.seed(seed);

    let updated = uc
        .execute(AutoSaveNoteCommand {
            note_id: id.clone(),
            new_body: "changed".into(),
        })
        .expect("must succeed")
        .expect("must be Some");

    assert_eq!(updated.id(), &id, "id immutable");
    assert!(
        updated.updated_at() >= updated.created_at(),
        "updated_at >= created_at"
    );
}

#[test]
fn tests_tp_as1_execute_signature_returns_result_option_note() {
    type ExecuteFn<R, C, E> = fn(
        &AutoSaveNoteUseCase<R, C, E>,
        AutoSaveNoteCommand,
    ) -> Result<Option<Note>, AutoSaveError>;
    fn assert_signature<R: NoteRepository, C: Clock, E: EventBus>() {
        let _: ExecuteFn<R, C, E> = AutoSaveNoteUseCase::<R, C, E>::execute;
    }
    assert_signature::<FakeRepo, FixedClock, FakeBus>();
}
