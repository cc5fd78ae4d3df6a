use std::io;

use promptnotes::slices::assign_tag::application::{assign_tag_step, assign_tag_update};
use promptnotes::slices::assign_tag::AssignTagError;
use promptnotes::slices::auto_save_note::application::{auto_save_step, auto_save_update};
use promptnotes::slices::auto_save_note::AutoSaveError;
use promptnotes::slices::delete_note::application::delete_note_step;
use promptnotes::slices::delete_note::{DeleteNoteError, TrashErrorKind};
use promptnotes::slices::flush_note::application::{flush_step, flush_update};
use promptnotes::slices::flush_note::FlushError;
use promptnotes::slices::remove_tag::application::{remove_tag_step, remove_tag_update};
use promptnotes::slices::remove_tag::RemoveTagError;
use promptnotes::types::{Note, NoteBody, NoteId, Tag, TagSet, Timestamp};

const DIR: &str = "/tmp/promptnotes-test";

fn ts(year: i32, month: u8, day: u8, hour: u8, minute: u8, second: u8) -> Timestamp {
    Timestamp::from_parts(year, month, day, hour, minute, second).expect("valid test time")
}

fn seed() -> Note {
    let tags = TagSet::from_tags(vec![Tag::new("gpt").unwrap()]);
    Note::create(NoteBody::new("hello".into()).unwrap(), tags, ts(2026, 6, 20, 9, 0, 0))
}

fn fail() -> io::Error {
    io::Error::new(io::ErrorKind::PermissionDenied, "denied")
}

fn names(n: &Note) -> Vec<String> {
    n.tags().as_slice().iter().map(|t| t.name().to_string()).collect()
}

#[test]
fn assign_step_answers_for_each_port_answer() {
    let now = ts(2026, 6, 25, 12, 34, 56);
    let s = seed();
    let id = s.id().clone();
    let coding = Tag::new("coding").unwrap();

    let planned = assign_tag_update(&Ok(Some(s.clone())), &coding, now).unwrap();
    assert_eq!(names(&planned), vec!["gpt", "coding"]);
    assert!(assign_tag_update(&Ok(Some(s.clone())), &Tag::new("GPT").unwrap(), now).is_none());
    assert!(assign_tag_update(&Ok(None), &coding, now).is_none());

    let done = assign_tag_step(id.clone(), coding.clone(), DIR, Ok(Some(s.clone())), now, Ok(())).unwrap().unwrap();
    assert_eq!(done, planned);
    assert_eq!(done.updated_at(), now);
    assert_eq!(done.created_at(), s.created_at());
    assert!(assign_tag_step(id.clone(), Tag::new("gpt").unwrap(), DIR, Ok(Some(s.clone())), now, Ok(()))
        .unwrap()
        .is_none());
    match assign_tag_step(id.clone(), coding.clone(), DIR, Ok(Some(s.clone())), now, Err(fail())) {
        Err(AssignTagError::PersistError { path, source }) => {
            assert_eq!(path, "/tmp/promptnotes-test/20260620090000.md");
            assert_eq!(source.kind(), io::ErrorKind::PermissionDenied);
        }
        other => panic!("got {other:?}"),
    }
    match assign_tag_step(id.clone(), coding.clone(), DIR, Err(fail()), now, Ok(())) {
        Err(AssignTagError::LoadError { path, .. }) => assert_eq!(path, "/tmp/promptnotes-test/20260620090000.md"),
        other => panic!("got {other:?}"),
    }
    assert!(matches!(
        assign_tag_step(id.clone(), coding, DIR, Ok(None), now, Ok(())),
        Err(AssignTagError::NoteNotFound { id: x }) if x == id
    ));
}

#[test]
fn remove_step_answers_for_each_port_answer() {
    let now = ts(2026, 6, 25, 12, 0, 0);
    let s = seed();
    let id = s.id().clone();
    let planned = remove_tag_update(&Ok(Some(s.clone())), "gpt", now).unwrap();
    assert!(planned.tags().is_empty());
    assert!(remove_tag_update(&Ok(Some(s.clone())), "GPT", now).is_none());
    let done = remove_tag_step(id.clone(), "gpt", DIR, Ok(Some(s.clone())), now, Ok(())).unwrap().unwrap();
    assert_eq!(done, planned);
    assert!(remove_tag_step(id.clone(), "rust", DIR, Ok(Some(s.clone())), now, Ok(())).unwrap().is_none());
    assert!(matches!(
        remove_tag_step(id.clone(), "gpt", DIR, Ok(Some(s.clone())), now, Err(fail())),
        Err(RemoveTagError::PersistError { .. })
    ));
    assert!(matches!(
        remove_tag_step(id.clone(), "gpt", DIR, Err(fail()), now, Ok(())),
        Err(RemoveTagError::LoadError { .. })
    ));
}

#[test]
fn body_steps_answer_for_each_port_answer() {
    let now = ts(2026, 6, 25, 12, 0, 0);
    let s = seed();
    let id = s.id().clone();
    let planned = auto_save_update(&Ok(Some(s.clone())), &"new".to_string(), now).unwrap();
    assert_eq!(planned.body().as_str(), "new");
    assert!(auto_save_update(&Ok(Some(s.clone())), &"hello".to_string(), now).is_none());
    assert!(auto_save_update(&Ok(Some(s.clone())), &"a\n---\nb".to_string(), now).is_none());
    let done = auto_save_step(id.clone(), "new".into(), DIR, Ok(Some(s.clone())), now, Ok(())).unwrap().unwrap();
    assert_eq!(done, planned);
    assert!(auto_save_step(id.clone(), "hello".into(), DIR, Ok(Some(s.clone())), now, Ok(())).unwrap().is_none());
    assert!(matches!(
        auto_save_step(id.clone(), "a\n---\nb".into(), DIR, Ok(Some(s.clone())), now, Ok(())),
        Err(AutoSaveError::InvalidBody { .. })
    ));
    assert!(matches!(
        auto_save_step(id.clone(), "new".into(), DIR, Err(fail()), now, Ok(())),
        Err(AutoSaveError::LoadError { .. })
    ));
    let flushed = flush_update(&Ok(Some(s.clone())), &"new".to_string(), now).unwrap();
    assert_eq!(flushed, planned);
    match flush_step(id.clone(), "new".into(), DIR, Ok(Some(s.clone())), now, Err(fail())) {
        Err(FlushError::PersistError { path, .. }) => assert_eq!(path, "/tmp/promptnotes-test/20260620090000.md"),
        other => panic!("got {other:?}"),
    }
    assert!(matches!(
        flush_step(id.clone(), "new".into(), DIR, Ok(None), now, Ok(())),
        Err(FlushError::NoteNotFound { .. })
    ));
}

#[test]
fn delete_step_answers_for_each_port_answer() {
    let s = seed();
    let id = s.id().clone();
    let path = "/tmp/promptnotes-test/20260620090000.md".to_string();
    let d = delete_note_step(id.clone(), path.clone(), Ok(Some(s.clone())), Ok(())).unwrap();
    assert_eq!(d.id(), &id);
    assert_eq!(d.original_path(), path);
    match delete_note_step(id.clone(), path.clone(), Ok(Some(s.clone())), Err(TrashErrorKind::Unsupported)) {
        Err(DeleteNoteError::TrashError { path: p, cause }) => {
            assert_eq!(p, path);
            assert_eq!(cause, TrashErrorKind::Unsupported);
        }
        other => panic!("got {other:?}"),
    }
    let unread: Result<Option<Note>, io::Error> = Err(fail());
    assert!(matches!(
        delete_note_step(id.clone(), path, unread, Ok(())),
        Err(DeleteNoteError::NoteNotFound { id: x }) if x == NoteId::from_timestamp(ts(2026, 6, 20, 9, 0, 0))
    ));
}
