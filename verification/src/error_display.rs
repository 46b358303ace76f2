//! Error display state: the one message shown above the form.

use vstd::prelude::*;

verus! {

/// A single slot for a message to the user. The empty text means that there
/// is nothing to show; a new message replaces the old one whole.
#[derive(Debug, PartialEq, Eq)]
pub struct ErrorDisplay {
    message: String,
}

impl View for ErrorDisplay {
    type V = Seq<char>;

    closed spec fn view(&self) -> Seq<char> {
        self.message@
    }
}

impl ErrorDisplay {
    /// A display with nothing to show.
    pub fn new() -> (display: ErrorDisplay)
        ensures
            display@ == Seq::<char>::empty(),
    {
        ErrorDisplay { message: String::new() }
    }

    /// A display that shows `message`.
    pub fn showing(message: String) -> (display: ErrorDisplay)
        ensures
            display@ == message@,
    {
        ErrorDisplay { message }
    }

    /// Replaces whatever was shown by `message`.
    pub fn set(&mut self, message: String)
        ensures
            final(self)@ == message@,
    {
        self.message = message;
    }

    /// Whether there is nothing to show.
    pub fn is_empty(&self) -> (empty: bool)
        ensures
            empty == (self@.len() == 0),
    {
        self.message.as_str().is_empty()
    }

    /// The message shown.
    pub fn message(&self) -> (message: &str)
        ensures
            message@ == self@,
    {
        self.message.as_str()
    }
}

impl Clone for ErrorDisplay {
    fn clone(&self) -> (copy: ErrorDisplay)
        ensures
            copy@ == self@,
    {
        ErrorDisplay { message: self.message.clone() }
    }
}

} // verus!
