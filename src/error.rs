use vstd::prelude::*;

verus! {

/// The kinds of failure a run can end with.
#[derive(Clone, Copy, Debug, PartialEq, Eq, Structural)]
pub enum ErrorKind {
    Capture,
    Dialog,
    Auth,
    Upload,
    Post,
    Decode,
}

/// A failure of one step of a run, with the message shown to the user.
#[derive(Debug)]
pub struct LiveblogError {
    pub kind: ErrorKind,
    pub message: String,
}

impl LiveblogError {
    pub fn new(kind: ErrorKind, message: String) -> (r: LiveblogError)
        ensures
            r.kind == kind,
            r.message@ == message@,
    {
        LiveblogError { kind, message }
    }

    /// The text shown in the error notification and on standard error.
    pub fn to_string(&self) -> (r: String)
        ensures
            r@ == self.message@,
    {
        self.message.clone()
    }
}

} // verus!
