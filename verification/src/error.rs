//! What can go wrong in a run.

use vstd::prelude::*;

verus! {

/// A failure of a run, or of a part of it. `E` is the error with which the
/// program around this library reports that a device or a driver failed; the
/// library passes such errors on and never looks into them.
#[derive(Debug, PartialEq, Eq)]
pub enum Error<E> {
    /// A driver could not list its displays.
    Enumeration(E),
    /// A display could not be asked what it is and what it can do.
    Refresh(E),
    /// A display did not answer a read or a write.
    Transport(E),
    /// The bytes of a table do not have the form that its interpretation asks
    /// for.
    Interpretation,
    /// A value that was read back after a write is not the value written.
    Verification,
    /// The filters admit none of the displays.
    NoMatch,
}

impl<E> Error<E> {
    /// The library's own words for a failure that it finds itself; `None`
    /// where the failure came from outside and brings its own.
    pub open spec fn text(self) -> Option<Seq<char>> {
        match self {
            Error::Interpretation => Some("table interpretation failed"@),
            Error::Verification => Some("Verification failed"@),
            Error::NoMatch => Some("no matching displays found"@),
            _ => None,
        }
    }

    /// The library's own words for a failure that it finds itself.
    pub fn message(&self) -> (message: Option<&'static str>)
        ensures
            match message {
                Some(message) => self.text() == Some(message@),
                None => self.text() is None,
            },
    {
        match self {
            Error::Interpretation => Some("table interpretation failed"),
            Error::Verification => Some("Verification failed"),
            Error::NoMatch => Some("no matching displays found"),
            _ => None,
        }
    }

    /// The outside error behind the failure, if it came from outside.
    pub open spec fn cause(self) -> Option<E> {
        match self {
            Error::Enumeration(e) => Some(e),
            Error::Refresh(e) => Some(e),
            Error::Transport(e) => Some(e),
            _ => None,
        }
    }

    /// The outside error behind the failure, if it came from outside.
    pub fn source(&self) -> (source: Option<&E>)
        ensures
            match source {
                Some(e) => self.cause() == Some(*e),
                None => self.cause() is None,
            },
    {
        match self {
            Error::Enumeration(e) => Some(e),
            Error::Refresh(e) => Some(e),
            Error::Transport(e) => Some(e),
            _ => None,
        }
    }
}

} // verus!
