//! Plain values the command layer sends to the user interface.
use crate::types::tag::string_views;
use crate::types::timestamp::{compact_text, parse_compact, valid_time_fields};
use crate::types::{NoteId, TagSet, Timestamp};
use crate::text::owned;
use vstd::prelude::*;

verus! {

/// The note id as text.
pub fn id_text(id: &NoteId) -> (r: String)
    ensures
        r@ == id@,
{
    owned(id.as_str())
}

/// The tag names, in order.
pub fn tag_name_list(tags: &TagSet) -> (r: Vec<String>)
    ensures
        string_views(r@) == tags@,
{
    let slice = tags.as_slice();
    let ghost ns = tags@;
    let mut out: Vec<String> = Vec::new();
    let mut i: usize = 0;
    while i < slice.len()
        invariant
            i <= slice.len(),
            ns == crate::types::tag_set::names_of(slice@),
            out@.len() == i,
            forall|k: int| 0 <= k < i ==> #[trigger] out@[k]@ == ns[k],
        decreases slice.len() - i,
    {
        out.push(owned(slice[i].name()));
        i = i + 1;
    }
    assert(string_views(out@) =~= ns);
    out
}

/// The id that a user-interface note id names: the id of the time it spells
/// (`YYYYMMDDhhmmss`), or the id of 1970-01-01 00:00:00 when it spells none,
/// which names no stored note.
pub fn parse_note_id(raw: &str) -> (r: NoteId)
    ensures
        r@ == match parse_compact(raw@) {
            Some(f) => compact_text(f),
            None => compact_text((1970, 1, 1, 0, 0, 0)),
        },
{
    match Timestamp::parse_yyyymmddhhmmss(raw) {
        Ok(ts) => NoteId::from_timestamp(ts),
        Err(_) => {
            assert(valid_time_fields((1970, 1, 1, 0, 0, 0)));
            let epoch = Timestamp::from_parts(1970, 1, 1, 0, 0, 0).unwrap();
            NoteId::from_timestamp(epoch)
        },
    }
}

} // verus!
