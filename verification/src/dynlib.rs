//! Errors of loading a dynamic library and resolving its symbols.
use vstd::prelude::*;

verus! {

/// Error returned by dynamic library operations: a message.
#[derive(Debug, PartialEq, Eq)]
pub struct Error(String);

impl View for Error {
    type V = Seq<char>;

    closed spec fn view(&self) -> Seq<char> {
        self.0@
    }
}

impl Error {
    /// The error with the given message.
    pub fn new(message: String) -> (r: Error)
        ensures
            r@ == message@,
    {
        Error(message)
    }

    /// The message of the error, as it is displayed.
    pub fn message(&self) -> (r: &str)
        ensures
            r@ == self@,
    {
        self.0.as_str()
    }
}

} // verus!
