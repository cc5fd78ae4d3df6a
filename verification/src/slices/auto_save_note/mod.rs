//! Save the editor's body text into an existing note after typing settles.
pub mod application;
pub mod commands;
pub mod domain;

pub use application::AutoSaveNoteUseCase;
pub use domain::{AutoSaveError, AutoSaveNoteCommand};
