use vstd::prelude::*;

verus! {

/// The kind of failure that ends an analysis run.
#[derive(Clone, Copy, Debug, PartialEq, Eq, Structural)]
pub enum ErrorKind {
    /// The input could not be opened or read, or the chart could not be written.
    Io,
    /// The column is absent, or one of its values is not a number.
    Schema,
    /// The column holds fewer than two values.
    InsufficientData,
    /// A drawing step of the chart could not be finished.
    Render,
}

/// A failed run: what went wrong and on which input (a file path or a column name).
#[derive(Debug)]
pub struct AnalysisError {
    pub kind: ErrorKind,
    pub subject: String,
}

/// The words that name a kind of failure in a message.
pub open spec fn kind_label(kind: ErrorKind) -> Seq<char> {
    match kind {
        ErrorKind::Io => "I/O"@,
        ErrorKind::Schema => "schema"@,
        ErrorKind::InsufficientData => "insufficient data"@,
        ErrorKind::Render => "render"@,
    }
}

/// The message shown for a failure: its kind, then the input it concerns, quoted.
pub open spec fn message_of(kind: ErrorKind, subject: Seq<char>) -> Seq<char> {
    kind_label(kind) + " error on '"@ + subject + "'"@
}

impl ErrorKind {
    pub fn label(&self) -> (r: &'static str)
        ensures
            r@ == kind_label(*self),
    {
        match self {
            ErrorKind::Io => "I/O",
            ErrorKind::Schema => "schema",
            ErrorKind::InsufficientData => "insufficient data",
            ErrorKind::Render => "render",
        }
    }
}

impl AnalysisError {
    pub fn new(kind: ErrorKind, subject: &str) -> (r: AnalysisError)
        ensures
            r.kind == kind,
            r.subject@ == subject@,
    {
        AnalysisError { kind, subject: String::from_str(subject) }
    }

    /// A readable line that names the kind of failure and the failing input.
    pub fn message(&self) -> (r: String)
        ensures
            r@ == message_of(self.kind, self.subject@),
    {
        let mut s = String::from_str(self.kind.label());
        s.append(" error on '");
        s.append(self.subject.as_str());
        s.append("'");
        s
    }
}

} // verus!
