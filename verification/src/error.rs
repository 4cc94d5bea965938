//! The error envelope: a message with an optional chain of causes.

use vstd::prelude::*;
use crate::text::append;

verus! {

/// An error that says what went wrong and may wrap the error that caused it.
#[derive(Debug)]
pub struct Error {
    /// What went wrong?
    pub what: String,
    /// What was the cause of this error, if any?
    pub source: Option<Box<Error>>,
}

/// The text that separates an error's message from its cause's.
pub open spec fn caused_by() -> Seq<char> {
    "\nCaused by: "@
}

impl Error {
    /// The number of errors in the chain, this one included.
    pub open spec fn depth(self) -> nat
        decreases self,
    {
        match self.source {
            None => 1,
            Some(cause) => 1 + cause.depth(),
        }
    }

    /// The full text of the error: its own message and, on a new line after
    /// each, the text of every cause down the chain.
    pub open spec fn text(self) -> Seq<char>
        decreases self,
    {
        match self.source {
            None => self.what@,
            Some(cause) => self.what@ + caused_by() + cause.text(),
        }
    }

    /// An error without a cause.
    pub fn new(what: String) -> (e: Error)
        ensures
            e.what == what,
            e.source.is_none(),
            e.text() == what@,
    {
        Error { what, source: None }
    }

    /// An error that wraps its cause.
    pub fn with_source(what: String, cause: Error) -> (e: Error)
        ensures
            e.what == what,
            e.source == Some(Box::new(cause)),
            e.text() == what@ + caused_by() + cause.text(),
            e.depth() == 1 + cause.depth(),
    {
        Error { what, source: Some(Box::new(cause)) }
    }

    /// The cause of this error, if it has one.
    pub fn source(&self) -> (cause: Option<&Error>)
        ensures
            match cause {
                Some(inner) => self.source == Some(Box::new(*inner)),
                None => self.source.is_none(),
            },
    {
        match &self.source {
            Some(error) => Some(&**error),
            None => None,
        }
    }

    /// Renders the error with its whole chain of causes.
    pub fn message(&self) -> (out: String)
        ensures
            out@ == self.text(),
        decreases *self,
    {
        let mut out = self.what.clone();
        match &self.source {
            Some(cause) => {
                append(&mut out, "\nCaused by: ");
                let rest = cause.message();
                append(&mut out, rest.as_str());
            },
            None => {},
        }
        out
    }
}

} // verus!
