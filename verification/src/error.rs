use vstd::prelude::*;

verus! {

/// The category of a stream failure. `Interrupted` is the conventional
/// transient condition that retry-on-interrupt loops react to; `Other` is
/// the category that fits no more specific name, and the one under which
/// this crate reports a flag-triggered interruption.
#[derive(Clone, Copy, Debug, PartialEq, Eq, Structural)]
pub enum ErrorKind {
    Interrupted,
    BrokenPipe,
    UnexpectedEof,
    WouldBlock,
    TimedOut,
    Other,
}

/// A stream failure: its category, and, where one was recorded, the
/// category of an underlying cause. A flag-triggered interruption carries
/// the plain interrupted condition as its cause, so diagnostic code can
/// still see that an interruption occurred.
#[derive(Clone, Copy, Debug)]
pub struct StreamError {
    pub kind: ErrorKind,
    pub cause: Option<ErrorKind>,
}

impl StreamError {
    /// An error of the given category with no underlying cause.
    pub fn from_kind(kind: ErrorKind) -> (r: StreamError)
        ensures
            r == (StreamError { kind, cause: None }),
    {
        StreamError { kind, cause: None }
    }

    /// The category of this error.
    pub fn kind(&self) -> (r: ErrorKind)
        ensures
            r == self.kind,
    {
        self.kind
    }

    /// The category of the underlying cause, if one was recorded.
    pub fn cause(&self) -> (r: Option<ErrorKind>)
        ensures
            r == self.cause,
    {
        self.cause
    }
}

} // verus!
