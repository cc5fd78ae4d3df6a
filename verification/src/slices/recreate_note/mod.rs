//! Write a note whose file was deleted outside the app back under its own id.
pub mod application;
pub mod commands;
pub mod domain;

pub use application::RecreateNoteUseCase;
pub use domain::{RecreateNoteCommand, RecreateNoteError};
