//! Persist the pending body of a note at once (block blur, window blur, quit).
pub mod application;
pub mod commands;
pub mod domain;

pub use application::FlushNoteUseCase;
pub use domain::{FlushError, FlushNoteCommand, FlushTrigger};
