//! Copy the body of a note, and nothing else, to the clipboard.
pub mod application;
pub mod commands;
pub mod domain;
pub mod ports;

pub use application::CopyNoteBodyUseCase;
pub use domain::{CopyNoteBodyCommand, CopyNoteBodyError};
pub use ports::{ClipboardErrorKind, ClipboardService};
