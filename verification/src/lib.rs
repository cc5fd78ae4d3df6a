//! Note capture core: domain types, the on-disk note format, the undo log
//! and the use cases of the note capture context, with their contracts.
pub mod adapters;
pub mod events;
pub mod paths;
pub mod ports;
pub mod result;
pub mod slices;
pub mod text;
pub mod types;

use vstd::prelude::*;

verus! {

} // verus!
