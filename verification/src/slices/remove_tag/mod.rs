//! Remove one tag, by its exact name, from an existing note.
pub mod application;
pub mod commands;
pub mod domain;

pub use application::RemoveTagUseCase;
pub use domain::{RemoveTagCommand, RemoveTagError};
