
use std::cell::{Cell, RefCell};
use std::collections::HashMap;
use std::io;
use std::rc::Rc;

use promptnotes::events::DomainEvent;
use promptnotes::ports::{Clock, DebounceTimer, EventBus, NoteRepository};
use promptnotes::types::{Note, NoteBody, NoteBodyError, NoteId, TagSet, Timestamp};

use promptnotes::slices::flush_note::application::FlushNoteUseCase;
use promptnotes::slices::flush_note::domain::{FlushError, FlushNoteCommand, FlushTrigger};

fn ts(year: i32, month: u8, day: u8, hour: u8, minute: u8, second: u8) -> Timestamp {
    Timestamp::from_parts(year, month, day, hour, minute, second).expect("valid test time")
}

struct FixedClock {
    now: Timestamp,
}
impl FixedClock {
    fn new(dt: Timestamp) -> Self {
        Self {
            now: dt,
        }
    }
}
impl Clock for FixedClock {
    fn now(&self) -> Timestamp {
        self.now
    }
}

#[derive(Default)]
struct FakeRepo {
    notes: RefCell<HashMap<String, Note>>,
    writes: RefCell<Vec<Note>>,
    fail_write_with: Cell<Option<io::ErrorKind>>,
    fail_load_with: Cell<Option<io::ErrorKind>>,
    storage_dir: String,
}
impl FakeRepo {
    fn new() -> Self {
        Self {
            notes: RefCell::new(HashMap::new()),
            writes: RefCell::new(Vec::new()),
            fail_write_with: Cell::new(None),
            fail_load_with: Cell::new(None),
            storage_dir: String::from("/tmp/promptnotes-test"),
        }
    }
    fn seed(&self, note: Note) {
        self.notes
            .borrow_mut()
            .insert(note.id().as_str().to_string(), note);
    }
    fn fail_next_write(&self, kind: io::ErrorKind) {
        self.fail_write_with.set(Some(kind));
    }
    fn fail_next_load(&self, kind: io::ErrorKind) {
        self.fail_load_with.set(Some(kind));
    }
    fn write_count(&self) -> usize {
        self.writes.borrow().len()
    }
}
impl NoteRepository for FakeRepo {
    fn write(&self, note: &Note) -> io::Result<()> {
        if let Some(kind) = self.fail_write_with.take() {
            return Err(io::Error::new(kind, "fake repo failure"));
        }
        self.notes
            .borrow_mut()
            .insert(note.id().as_str().to_string(), note.clone());
        self.writes.borrow_mut().push(note.clone());
        Ok(())
    }
    fn storage_dir(&self) -> &str {
        &self.storage_dir
    }
    fn load_by_id(&self, id: &NoteId) -> io::Result<Option<Note>> {
        if let Some(kind) = self.fail_load_with.take() {
            return Err(io::Error::new(kind, "fake load failure"));
        }
        Ok(self.notes.borrow().get(id.as_str()).cloned())
    }
    fn list_all(&self) -> io::Result<Vec<Note>> {
        Ok(Vec::new())
    }
}

#[derive(Default)]
struct FakeBus {
    events: RefCell<Vec<DomainEvent>>,
}
impl FakeBus {
    fn new() -> Self {
        Self::default()
    }
    fn event_count(&self) -> usize {
        self.events.borrow().len()
    }
    fn last(&self) -> Option<DomainEvent> {
        self.events.borrow().last().cloned()
    }
}
impl EventBus for FakeBus {
    fn publish(&self, event: DomainEvent) {
        self.events.borrow_mut().push(event);
    }
}

#[derive(Default)]
struct FakeTimer {
    cancel_calls: RefCell<Vec<NoteId>>,

    seq: RefCell<Vec<&'static str>>,
}
impl FakeTimer {
    fn new() -> Self {
        Self::default()
    }
    fn cancel_count(&self) -> usize {
        self.cancel_calls.borrow().len()
    }
    fn last_cancelled(&self) -> Option<NoteId> {
        self.cancel_calls.borrow().last().cloned()
    }
}
impl DebounceTimer for FakeTimer {
    fn cancel(&self, note_id: &NoteId) {
        self.cancel_calls.borrow_mut().push(note_id.clone());
        self.seq.borrow_mut().push("cancel");
    }
}

struct RcRepo {
    inner: Rc<FakeRepo>,
    timer: Rc<FakeTimer>,
}
impl NoteRepository for RcRepo {
    fn write(&self, n: &Note) -> io::Result<()> {
        let r = self.inner.write(n);
        if r.is_ok() {

            self.timer.seq.borrow_mut().push("write");
        }
        r
    }
    fn storage_dir(&self) -> &str {
        self.inner.storage_dir()
    }
    fn load_by_id(&self, id: &NoteId) -> io::Result<Option<Note>> {

        self.timer.seq.borrow_mut().push("load");
        self.inner.load_by_id(id)
    }
    fn list_all(&self) -> io::Result<Vec<Note>> {
        Ok(Vec::new())
    }
}

struct RcBus(Rc<FakeBus>);
impl EventBus for RcBus {
    fn publish(&self, e: DomainEvent) {
        self.0.publish(e);
    }
}

struct RcTimer(Rc<FakeTimer>);
impl DebounceTimer for RcTimer {
    fn cancel(&self, id: &NoteId) {
        self.0.cancel(id);
    }
}

type Rig = (
    FlushNoteUseCase<RcRepo, FixedClock, RcBus, RcTimer>,
    Rc<FakeRepo>,
    Rc<FakeBus>,
    Rc<FakeTimer>,
);

fn rig(now: Timestamp) -> Rig {
    let repo = Rc::new(FakeRepo::new());
    let bus = Rc::new(FakeBus::new());
    let timer = Rc::new(FakeTimer::new());
    let uc = FlushNoteUseCase::new(
        RcRepo {
            inner: repo.clone(),
            timer: timer.clone(),
        },
        FixedClock::new(now),
        RcBus(bus.clone()),
        RcTimer(timer.clone()),
    );
    (uc, repo, bus, timer)
}

fn fixture_note(body: &str, created_at: Timestamp) -> Note {
    Note::create(
        NoteBody::new(body.into()).expect("test fixture body must be valid"),
        TagSet::empty(),
        created_at,
    )
}

fn cmd(note_id: NoteId, pending_body: &str, trigger: FlushTrigger) -> FlushNoteCommand {
    FlushNoteCommand {
        note_id,
        pending_body: pending_body.into(),
        trigger,
    }
}

#[test]
fn tests_tp_h1_body_changed_returns_updated_note_with_new_body_and_updated_at() {
    let created = ts(2026, 6, 20, 9, 0, 0);
    let now = ts(2026, 6, 25, 12, 34, 56);
    let (uc, repo, _bus, _timer) = rig(now);
    let seed = fixture_note("hello", created);
    let id = seed.id().clone();
    repo.seed(seed);

    let updated = uc
        .execute(cmd(id.clone(), "hello world", FlushTrigger::BlockBlur))
        .expect("body changed must succeed")
        .expect("body changed must return Some");

    assert_eq!(updated.id(), &id, "id is immutable");
    assert_eq!(updated.body().as_str(), "hello world");
    assert_eq!(
        updated.updated_at(),
        now,
        "updated_at == clock.now()"
    );
}

#[test]
fn tp_h2_body_changed_calls_cancel_then_write_in_order() {
    let created = ts(2026, 6, 20, 9, 0, 0);
    let now = ts(2026, 6, 25, 12, 34, 56);
    let (uc, repo, _bus, timer) = rig(now);
    let seed = fixture_note("hello", created);
    let id = seed.id().clone();
    repo.seed(seed);

    let _ = uc.execute(cmd(id.clone(), "hello world", FlushTrigger::BlockBlur));

    assert_eq!(repo.write_count(), 1, "exactly one write");
    assert_eq!(timer.cancel_count(), 1, "exactly one cancel");
    assert_eq!(
        timer.last_cancelled().unwrap(),
        id,
        "cancel is keyed by the command's note_id"
    );
    assert_eq!(
        *timer.seq.borrow(),
        vec!["cancel", "load", "write"],
        "cancel must run before load and write"
    );
}

#[test]
fn tests_tp_h3_body_changed_publishes_note_body_edited_once_with_correct_payload() {
    let created = ts(2026, 6, 20, 9, 0, 0);
    let now = ts(2026, 6, 25, 12, 34, 56);
    let expected_updated_at = now;
    let (uc, repo, bus, _timer) = rig(now);
    let seed = fixture_note("hello", created);
    let id = seed.id().clone();
    repo.seed(seed);

    let _ = uc.execute(cmd(id.clone(), "hello world", FlushTrigger::BlockBlur));

    assert_eq!(bus.event_count(), 1, "exactly one event");
    match bus.last().expect("one event") {
        DomainEvent::NoteBodyEdited {
            note_id,
            updated_at,
        } => {
            assert_eq!(note_id, id);
            assert_eq!(updated_at, expected_updated_at);
        }
        other => panic!("flush-note must publish NoteBodyEdited, got {other:?}"),
    }
}

#[test]
fn tests_tp_h4_body_changed_preserves_tags_created_at_and_id() {
    let created = ts(2026, 6, 20, 9, 0, 0);
    let now = ts(2026, 6, 25, 12, 34, 56);
    let (uc, repo, _bus, _timer) = rig(now);
    let seed = fixture_note("hello", created);
    let id = seed.id().clone();
    let tags_before = seed.tags().clone();
    let created_before = seed.created_at();
    repo.seed(seed);

    let updated = uc
        .execute(cmd(id.clone(), "hello world", FlushTrigger::BlockBlur))
        .expect("must succeed")
        .expect("must be Some");

    assert_eq!(updated.id(), &id);
    assert_eq!(updated.tags(), &tags_before, "tags unchanged");
    assert_eq!(updated.created_at(), created_before, "corollary");
}

#[test]
fn tp_h5_all_three_triggers_yield_identical_pipeline_behaviour() {
    let created = ts(2026, 6, 20, 9, 0, 0);
    let now = ts(2026, 6, 25, 12, 34, 56);

    for trigger in [
        FlushTrigger::BlockBlur,
        FlushTrigger::WindowBlur,
        FlushTrigger::AppQuit,
    ] {
        let (uc, repo, bus, timer) = rig(now);
        let seed = fixture_note("hello", created);
        let id = seed.id().clone();
        repo.seed(seed);

        let updated = uc
            .execute(cmd(id.clone(), "hello world", trigger))
            .expect("must succeed")
            .expect("must be Some");

        assert_eq!(updated.body().as_str(), "hello world", "{trigger:?}");
        assert_eq!(repo.write_count(), 1, "{trigger:?}");
        assert_eq!(bus.event_count(), 1, "{trigger:?}");
        assert_eq!(timer.cancel_count(), 1, "{trigger:?}");
    }
}

#[test]
fn tp_s3_focus_loss_cancels_then_publishes_event() {
    let created = ts(2026, 6, 20, 9, 0, 0);
    let now = ts(2026, 6, 25, 12, 34, 56);
    let (uc, repo, bus, timer) = rig(now);
    let seed = fixture_note("draft", created);
    let id = seed.id().clone();
    repo.seed(seed);

    let result = uc
        .execute(cmd(id.clone(), "draft+", FlushTrigger::BlockBlur))
        .expect("focus-loss flush must succeed")
        .expect("must be Some");

    assert_eq!(result.body().as_str(), "draft+");
    assert_eq!(timer.cancel_count(), 1, "S3: debounce timer was cancelled");
    assert_eq!(bus.event_count(), 1, "S3: NoteBodyEdited emitted");
    match bus.last().unwrap() {
        DomainEvent::NoteBodyEdited { updated_at, .. } => {
            assert_eq!(updated_at, now)
        }
        other => panic!("expected NoteBodyEdited, got {other:?}"),
    }
}

#[test]
fn tp_s13_app_quit_flush_single_note_succeeds() {
    let created = ts(2026, 6, 20, 9, 0, 0);
    let now = ts(2026, 6, 25, 12, 34, 56);
    let (uc, repo, bus, timer) = rig(now);
    let seed = fixture_note("a", created);
    let id = seed.id().clone();
    repo.seed(seed);

    let _ = uc
        .execute(cmd(id, "a+b", FlushTrigger::AppQuit))
        .expect("AppQuit flush must succeed");

    assert_eq!(repo.write_count(), 1);
    assert_eq!(bus.event_count(), 1);
    assert_eq!(*timer.seq.borrow(), vec!["cancel", "load", "write"]);
}

#[test]
fn tp_s13_2_use_case_signature_takes_one_command_not_many() {
    fn _pin<R: NoteRepository, C: Clock, E: EventBus, D: DebounceTimer>(
        uc: &FlushNoteUseCase<R, C, E, D>,
    ) {
        let _f: fn(
            &FlushNoteUseCase<R, C, E, D>,
            FlushNoteCommand,
        ) -> Result<Option<Note>, FlushError> = FlushNoteUseCase::<R, C, E, D>::execute;
        let _ = uc;
    }
    let (uc, _r, _b, _t) = rig(ts(2026, 6, 25, 12, 0, 0));
    _pin(&uc);
}

#[test]
fn tests_tp_i1_body_unchanged_returns_none() {
    let created = ts(2026, 6, 20, 9, 0, 0);
    let now = ts(2026, 6, 25, 12, 34, 56);
    let (uc, repo, _bus, _timer) = rig(now);
    let seed = fixture_note("hello", created);
    let id = seed.id().clone();
    repo.seed(seed);

    let result = uc
        .execute(cmd(id, "hello", FlushTrigger::BlockBlur))
        .expect("unchanged body is not an error");

    assert!(result.is_none(), "idempotent guard returns Ok(None)");
}

#[test]
fn tp_i2_body_unchanged_still_cancels_but_skips_write() {
    let created = ts(2026, 6, 20, 9, 0, 0);
    let now = ts(2026, 6, 25, 12, 34, 56);
    let (uc, repo, _bus, timer) = rig(now);
    let seed = fixture_note("hello", created);
    let id = seed.id().clone();
    repo.seed(seed);

    let _ = uc.execute(cmd(id, "hello", FlushTrigger::BlockBlur));

    assert_eq!(
        timer.cancel_count(),
        1,
        "cancel runs before body comparison"
    );
    assert_eq!(repo.write_count(), 0, "no write when body unchanged");
}

#[test]
fn tests_tp_i3_body_unchanged_skips_publish() {
    let created = ts(2026, 6, 20, 9, 0, 0);
    let now = ts(2026, 6, 25, 12, 34, 56);
    let (uc, repo, bus, _timer) = rig(now);
    let seed = fixture_note("hello", created);
    let id = seed.id().clone();
    repo.seed(seed);

    let _ = uc.execute(cmd(id, "hello", FlushTrigger::BlockBlur));

    assert_eq!(bus.event_count(), 0, "no event when body unchanged");
}

#[test]
fn flush_note_tp_nf1_missing_note_id_yields_note_not_found() {
    let now = ts(2026, 6, 25, 12, 34, 56);
    let (uc, _repo, _bus, _timer) = rig(now);
    let missing = NoteId::from_timestamp(ts(2026, 6, 20, 9, 0, 0));

    let err = uc
        .execute(cmd(missing.clone(), "anything", FlushTrigger::WindowBlur))
        .expect_err("missing id must be an error");

    match err {
        FlushError::NoteNotFound { id } => assert_eq!(id, missing),
        other => panic!("expected NoteNotFound, got {other:?}"),
    }
}

#[test]
fn tp_nf2_missing_note_cancels_but_does_not_write_or_publish() {
    let now = ts(2026, 6, 25, 12, 34, 56);
    let (uc, repo, bus, timer) = rig(now);
    let missing = NoteId::from_timestamp(ts(2026, 6, 20, 9, 0, 0));

    let _ = uc.execute(cmd(missing.clone(), "anything", FlushTrigger::WindowBlur));

    assert_eq!(timer.cancel_count(), 1, "cancel precedes load");
    assert_eq!(
        timer.last_cancelled().unwrap(),
        missing,
        "cancel keyed by command's note_id, even on NoteNotFound"
    );
    assert_eq!(
        *timer.seq.borrow(),
        vec!["cancel", "load"],
        "cancel before load even when load returns Ok(None)"
    );
    assert_eq!(repo.write_count(), 0);
    assert_eq!(bus.event_count(), 0);
}

#[test]
fn flush_note_tp_le1_load_failure_surfaces_as_load_error_not_persist_error() {
    let now = ts(2026, 6, 25, 12, 34, 56);
    let (uc, repo, bus, timer) = rig(now);
    let id = NoteId::from_timestamp(ts(2026, 6, 20, 9, 0, 0));
    repo.fail_next_load(io::ErrorKind::PermissionDenied);

    let err = uc
        .execute(cmd(id.clone(), "anything", FlushTrigger::BlockBlur))
        .expect_err("load failure must surface");

    match err {
        FlushError::LoadError { path, source } => {
            assert_eq!(
                path,
                String::from(format!("/tmp/promptnotes-test/{}.md", id.as_str()))
            );
            assert_eq!(source.kind(), io::ErrorKind::PermissionDenied);
        }
        FlushError::PersistError { .. } => {
            panic!("read failure must NOT collapse into PersistError")
        }
        other => panic!("expected LoadError, got {other:?}"),
    }
    assert_eq!(timer.cancel_count(), 1, "cancel runs even on LoadError");
    assert_eq!(timer.last_cancelled().unwrap(), id);
    assert_eq!(repo.write_count(), 0);
    assert_eq!(bus.event_count(), 0);
}

#[test]
fn tests_tp_ib1_body_with_frontmatter_delimiter_line_yields_invalid_body() {
    let created = ts(2026, 6, 20, 9, 0, 0);
    let now = ts(2026, 6, 25, 12, 34, 56);
    let (uc, repo, _bus, _timer) = rig(now);
    let seed = fixture_note("hello", created);
    let id = seed.id().clone();
    repo.seed(seed);

    let err = uc
        .execute(cmd(id, "before\n---\nafter", FlushTrigger::AppQuit))
        .expect_err("body with `---` delimiter line must error");

    match err {
        FlushError::InvalidBody { source } => {
            assert!(matches!(
                source,
                NoteBodyError::ContainsFrontmatterDelimiter
            ));
        }
        other => panic!("expected InvalidBody, got {other:?}"),
    }
}

#[test]
fn tests_tp_ib2_invalid_body_skips_write_and_publish() {
    let created = ts(2026, 6, 20, 9, 0, 0);
    let now = ts(2026, 6, 25, 12, 34, 56);
    let (uc, repo, bus, timer) = rig(now);
    let seed = fixture_note("hello", created);
    let id = seed.id().clone();
    repo.seed(seed);

    let _ = uc.execute(cmd(id.clone(), "---", FlushTrigger::AppQuit));

    assert_eq!(
        timer.cancel_count(),
        1,
        "cancel runs even on InvalidBody"
    );
    assert_eq!(timer.last_cancelled().unwrap(), id);
    assert_eq!(repo.write_count(), 0);
    assert_eq!(bus.event_count(), 0);
}

#[test]
fn flush_note_tp_pe1_pe2_write_failure_surfaces_as_persist_error_with_kind() {
    let created = ts(2026, 6, 20, 9, 0, 0);
    let now = ts(2026, 6, 25, 12, 34, 56);
    let (uc, repo, _bus, _timer) = rig(now);
    let seed = fixture_note("hello", created);
    let id = seed.id().clone();
    repo.seed(seed);
    repo.fail_next_write(io::ErrorKind::PermissionDenied);

    let err = uc
        .execute(cmd(id.clone(), "hello world", FlushTrigger::BlockBlur))
        .expect_err("write failure must surface");

    match err {
        FlushError::PersistError { path, source } => {
            assert_eq!(
                path,
                String::from(format!("/tmp/promptnotes-test/{}.md", id.as_str()))
            );
            assert_eq!(source.kind(), io::ErrorKind::PermissionDenied);
        }
        other => panic!("expected PersistError, got {other:?}"),
    }
}

#[test]
fn flush_note_tp_pe3_persist_failure_does_not_emit_event() {
    let created = ts(2026, 6, 20, 9, 0, 0);
    let now = ts(2026, 6, 25, 12, 34, 56);
    let (uc, repo, bus, timer) = rig(now);
    let seed = fixture_note("hello", created);
    let id = seed.id().clone();
    repo.seed(seed);
    repo.fail_next_write(io::ErrorKind::Other);

    let _ = uc.execute(cmd(id.clone(), "hello world", FlushTrigger::BlockBlur));

    assert_eq!(
        timer.cancel_count(),
        1,
        "cancel runs even on PersistError"
    );
    assert_eq!(timer.last_cancelled().unwrap(), id);
    assert_eq!(bus.event_count(), 0, "persist fail blocks event");
}

#[test]
fn flush_note_tp_pe4_retry_after_transient_persist_failure_succeeds() {
    let created = ts(2026, 6, 20, 9, 0, 0);
    let now = ts(2026, 6, 25, 12, 34, 56);
    let (uc, repo, bus, _timer) = rig(now);
    let seed = fixture_note("hello", created);
    let id = seed.id().clone();
    repo.seed(seed);

    repo.fail_next_write(io::ErrorKind::Other);
    let _ = uc.execute(cmd(id.clone(), "hello world", FlushTrigger::BlockBlur));

    let second = uc
        .execute(cmd(id, "hello world", FlushTrigger::BlockBlur))
        .expect("second call (fs healthy) must succeed")
        .expect("must be Some");
    assert_eq!(second.body().as_str(), "hello world");
    assert_eq!(bus.event_count(), 1, "only the successful run emits");
}

#[test]
fn tp_co1_cancel_runs_before_load() {
    let now = ts(2026, 6, 25, 12, 34, 56);
    let (uc, repo, _bus, timer) = rig(now);
    let id = NoteId::from_timestamp(ts(2026, 6, 20, 9, 0, 0));
    repo.fail_next_load(io::ErrorKind::Other);

    let _ = uc.execute(cmd(id, "anything", FlushTrigger::BlockBlur));

    assert_eq!(timer.cancel_count(), 1, "cancel even on load fail");
    assert_eq!(
        *timer.seq.borrow(),
        vec!["cancel", "load"],
        "cancel strictly precedes the load attempt"
    );
}

#[test]
fn tp_co2_cancel_is_idempotent_signature() {
    let (uc, repo, _bus, timer) = rig(ts(2026, 6, 25, 12, 34, 56));
    let seed = fixture_note("hello", ts(2026, 6, 20, 9, 0, 0));
    let id = seed.id().clone();
    repo.seed(seed);

    let _ = uc.execute(cmd(id.clone(), "hello", FlushTrigger::BlockBlur));
    let _ = uc.execute(cmd(id, "hello", FlushTrigger::BlockBlur));

    assert_eq!(
        timer.cancel_count(),
        2,
        "cancel succeeds on the second call too (idempotent, no error)"
    );
}

#[test]
fn tests_tp_bc1_empty_body_unchanged_is_noop() {
    let created = ts(2026, 6, 20, 9, 0, 0);
    let now = ts(2026, 6, 25, 12, 34, 56);
    let (uc, repo, bus, _timer) = rig(now);
    let seed = fixture_note("", created);
    let id = seed.id().clone();
    repo.seed(seed);

    let result = uc
        .execute(cmd(id, "", FlushTrigger::BlockBlur))
        .expect("empty unchanged is not an error");

    assert!(result.is_none());
    assert_eq!(repo.write_count(), 0);
    assert_eq!(bus.event_count(), 0);
}

#[test]
fn tests_tp_bc2_trailing_space_is_a_change() {
    let created = ts(2026, 6, 20, 9, 0, 0);
    let now = ts(2026, 6, 25, 12, 34, 56);
    let (uc, repo, _bus, _timer) = rig(now);
    let seed = fixture_note("hello", created);
    let id = seed.id().clone();
    repo.seed(seed);

    let result = uc
        .execute(cmd(id, "hello ", FlushTrigger::BlockBlur))
        .expect("must succeed")
        .expect("must be Some");

    assert_eq!(result.body().as_str(), "hello ");
}

#[test]
fn tests_tp_bc3_case_difference_is_a_change() {
    let created = ts(2026, 6, 20, 9, 0, 0);
    let now = ts(2026, 6, 25, 12, 34, 56);
    let (uc, repo, _bus, _timer) = rig(now);
    let seed = fixture_note("hello", created);
    let id = seed.id().clone();
    repo.seed(seed);

    let result = uc
        .execute(cmd(id, "Hello", FlushTrigger::BlockBlur))
        .expect("must succeed")
        .expect("must be Some");

    assert_eq!(result.body().as_str(), "Hello");
}

#[test]
fn tp_inv1_inv2_returned_note_preserves_id_and_monotonic_timestamps() {
    let created = ts(2026, 6, 20, 9, 0, 0);
    let now = ts(2026, 6, 25, 12, 34, 56);
    let (uc, repo, _bus, _timer) = rig(now);
    let seed = fixture_note("hello", created);
    let id = seed.id().clone();
    repo.seed(seed);

    let updated = uc
        .execute(cmd(id.clone(), "hello world", FlushTrigger::BlockBlur))
        .unwrap()
        .unwrap();

    assert_eq!(updated.id(), &id, "");
    assert!(updated.updated_at() >= updated.created_at(), "");
}

#[test]
fn tp_as1_use_case_signature_is_pinned() {
    fn _pin<R: NoteRepository, C: Clock, E: EventBus, D: DebounceTimer>() {
        let _f: fn(
            &FlushNoteUseCase<R, C, E, D>,
            FlushNoteCommand,
        ) -> Result<Option<Note>, FlushError> = FlushNoteUseCase::<R, C, E, D>::execute;
    }
    _pin::<RcRepo, FixedClock, RcBus, RcTimer>();
}
