//! Facts the use cases share about paths and loaded notes.
use crate::paths::is_path_in;
use crate::types::note_id::md_file_name;
use crate::types::note::edit_body_view;
use crate::types::note_body::has_delimiter_line;
use crate::types::timestamp::TimeFields;
use crate::types::{Note, NoteBody, NoteId, NoteView};
use vstd::prelude::*;

verus! {

/// `path` is `<dir>/<id>.md`, the file of the note `id` in the storage
/// directory `dir` (wherever `Path::join` joins plainly).
pub open spec fn is_note_path(path: Seq<char>, dir: Seq<char>, id: Seq<char>) -> bool {
    is_path_in(path, dir, md_file_name(id))
}

/// The note that saving `body` into what loading gave writes: the loaded
/// note with `body` at `now`, when it was loaded, `body` holds no delimiter
/// line and differs from the stored body; otherwise nothing is written.
pub open spec fn body_edit_write(
    loaded: Result<Option<Note>, std::io::Error>,
    body: Seq<char>,
    now: TimeFields,
) -> Option<NoteView> {
    match loaded {
        Ok(Some(e)) => if !has_delimiter_line(body) && e@.body != body {
            Some(edit_body_view(e@, body, now))
        } else {
            None
        },
        _ => None,
    }
}

/// Whether the loaded body differs from the candidate.
pub enum BodyDiff {
    Unchanged,
    Changed(NoteBody),
}

/// Compares the stored body with the candidate.
pub fn compare_body(existing: &NoteBody, candidate: NoteBody) -> (r: BodyDiff)
    ensures
        existing@ == candidate@ ==> r is Unchanged,
        existing@ != candidate@ ==> (r matches BodyDiff::Changed(b) && b@ == candidate@),
{
    if *existing == candidate {
        BodyDiff::Unchanged
    } else {
        BodyDiff::Changed(candidate)
    }
}

/// The path `<dir>/<id>.md` for the error of a failed load or write.
pub fn md_path(dir: &str, id: &NoteId) -> (r: String)
    ensures
        is_note_path(r@, dir@, id@),
{
    id.md_path_in(dir)
}

} // verus!
