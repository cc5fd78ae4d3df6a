//! Add one tag to an existing note.
pub mod application;
pub mod commands;
pub mod domain;

pub use application::AssignTagUseCase;
pub use domain::{AssignTagCommand, AssignTagError};
