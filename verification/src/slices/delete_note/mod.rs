//! Move a note's file to the trash and keep an undo handle for it.
pub mod application;
pub mod commands;
pub mod domain;
pub mod ports;

pub use application::DeleteNoteUseCase;
pub use domain::{DeleteNoteCommand, DeleteNoteError};
pub use ports::{TrashErrorKind, TrashService, UndoStack};
