//! Create a note from raw body text and raw tags.
pub mod application;
pub mod commands;
pub mod domain;
pub mod infrastructure;

pub use application::CreateNoteUseCase;
pub use domain::{CreateNoteCommand, CreateNoteError};
pub use infrastructure::{parse_note_md, render_note_md, FsNoteRepository, ParseError};
