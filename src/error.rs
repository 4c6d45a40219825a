use vstd::prelude::*;

verus! {

/// The kinds of failure that the daemon reports.
#[derive(Clone, Copy, Debug, PartialEq, Eq, Structural)]
pub enum DiziErrorKind {
    IOError,
    DecodingError,
    InvalidParameters,
    UnrecognizedCommand,
    ChannelError,
    EnvVarNotPresent,
}

/// An error: its kind and a message for the user.
#[derive(Clone, Debug)]
pub struct DiziError {
    pub kind: DiziErrorKind,
    pub msg: String,
}

impl DiziError {
    pub fn new(kind: DiziErrorKind, msg: String) -> (r: DiziError)
        ensures
            r.kind == kind,
            r.msg == msg,
    {
        DiziError { kind, msg }
    }

    pub fn kind(&self) -> (r: DiziErrorKind)
        ensures
            r == self.kind,
    {
        self.kind
    }

    pub fn message(&self) -> (r: &String)
        ensures
            r == &self.msg,
    {
        &self.msg
    }
}

pub type DiziResult<T> = Result<T, DiziError>;

} // verus!
