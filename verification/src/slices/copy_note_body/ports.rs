use crate::text::push_str;
use std::rc::Rc;
use vstd::prelude::*;

verus! {

/// Why the clipboard refused the text.
#[derive(Debug, Clone, PartialEq, Eq)]
pub enum ClipboardErrorKind {
    /// No clipboard is available (headless or locked session).
    Unavailable,
    /// The write failed; the adapter's message.
    Io(String),
}

impl ClipboardErrorKind {
    pub fn message(&self) -> (m: String)
        ensures
            match self {
                ClipboardErrorKind::Unavailable => m@ == "OS clipboard unavailable"@,
                ClipboardErrorKind::Io(s) => m@ == "clipboard io: "@ + s@,
            },
    {
        let mut m = String::new();
        match self {
            ClipboardErrorKind::Unavailable => push_str(&mut m, "OS clipboard unavailable"),
            ClipboardErrorKind::Io(s) => {
                push_str(&mut m, "clipboard io: ");
                push_str(&mut m, s.as_str());
            },
        }
        m
    }
}

/// Writes plain text to the system clipboard.
pub trait ClipboardService {
    /// Writing `text` answered `r`: the implementation's record, which by
    /// default holds of everything (see `NoteRepository`).
    open spec fn took_text(&self, text: Seq<char>, r: Result<(), ClipboardErrorKind>) -> bool {
        true
    }

    fn write_text(&self, text: &str) -> (r: Result<(), ClipboardErrorKind>)
        ensures
            self.took_text(text@, r),
    ;
}

impl<T: ClipboardService> ClipboardService for Rc<T> {
    open spec fn took_text(&self, text: Seq<char>, r: Result<(), ClipboardErrorKind>) -> bool {
        (**self).took_text(text, r)
    }

    fn write_text(&self, text: &str) -> (r: Result<(), ClipboardErrorKind>) {
        (**self).write_text(text)
    }
}

} // verus!
