//! Value objects and the Note aggregate.
pub mod body_hash;
pub mod deleted_note;
pub mod note;
pub mod note_body;
pub mod note_id;
pub mod tag;
pub mod tag_set;
pub mod timestamp;

pub use note_body::{NoteBody, NoteBodyError};
pub use tag::{parse_raw_tags, Tag, TagError};
pub use timestamp::{Timestamp, TimestampError};
pub use note_id::NoteId;
pub use tag_set::TagSet;
pub use body_hash::BodyHash;
pub use deleted_note::DeletedNote;
pub use note::{Note, NoteView};
