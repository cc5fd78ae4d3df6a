//! The state behind the ports whose decisions need no I/O: the undo log of
//! deleted notes and the layout of the in-app trash.
pub mod trash_service;
pub mod undo_stack;

pub use trash_service::FsTrashService;
pub use undo_stack::InMemoryUndoStack;
