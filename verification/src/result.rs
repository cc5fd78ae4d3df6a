//! The context-wide error type.
use crate::text::push_str;
use vstd::prelude::*;

verus! {

#[derive(Debug, Clone, PartialEq, Eq)]
pub enum AppError {
    NoteCapture(String),
}

impl AppError {
    pub fn message(&self) -> (m: String)
        ensures
            match self {
                AppError::NoteCapture(s) => m@ == "note capture error: "@ + s@,
            },
    {
        match self {
            AppError::NoteCapture(s) => {
                let mut m = String::new();
                push_str(&mut m, "note capture error: ");
                push_str(&mut m, s.as_str());
                m
            },
        }
    }
}

} // verus!
