//! The use cases of the note capture context, one module each.
pub mod assign_tag;
pub mod auto_save_note;
pub mod common;
pub mod copy_note_body;
pub mod create_note;
pub mod delete_note;
pub mod flush_note;
pub mod recreate_note;
pub mod remove_tag;
pub mod wire;
