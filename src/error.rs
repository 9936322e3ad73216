use vstd::prelude::*;

verus! {

/// The one kind of failure: the text handed in is not what the grammar allows.
#[derive(Debug, Clone, Copy, PartialEq, Eq, Structural)]
pub enum ErrorKind {
    InvalidInput,
}

/// A failed parse, with the piece of text that caused it.
#[derive(Debug, Clone)]
pub struct Error {
    pub kind: ErrorKind,
    pub context: String,
}

impl Error {
    pub fn invalid_input(context: &str) -> (r: Error)
        ensures
            r.kind == ErrorKind::InvalidInput,
            r.context@ == context@,
    {
        Error { kind: ErrorKind::InvalidInput, context: context.to_owned() }
    }

    pub fn kind(&self) -> (r: ErrorKind)
        ensures
            r == self.kind,
    {
        self.kind
    }

    /// The offending text: a line, a value or an attribute name.
    pub fn context(&self) -> (r: &str)
        ensures
            r@ == self.context@,
    {
        self.context.as_str()
    }
}

} // verus!
