//! What goes wrong, and how a refusal of the stack is reported.
use vstd::prelude::*;

verus! {

/// The kinds of error that the sockets report.
#[derive(Debug, Clone, Copy, PartialEq, Eq, Structural)]
pub enum ErrorKind {
    /// The stack refused the operation; the message says why.
    Other,
    /// There is no single local address to report.
    AddrNotAvailable,
    /// The connection could not be made.
    ConnectionAborted,
    /// The connection ended without an orderly close.
    ConnectionReset,
    /// Nothing more can be written.
    BrokenPipe,
}

/// An error: its kind, and a message where the kind does not say it all.
#[derive(Debug, PartialEq, Eq)]
pub struct Error {
    pub kind: ErrorKind,
    pub message: Option<String>,
}

/// An error as a mathematical value.
pub struct ErrorView {
    pub kind: ErrorKind,
    pub message: Option<Seq<char>>,
}

impl View for Error {
    type V = ErrorView;

    open spec fn view(&self) -> ErrorView {
        ErrorView {
            kind: self.kind,
            message: match self.message {
                Some(message) => Some(message@),
                None => None,
            },
        }
    }
}

impl ErrorView {
    /// An error with a message.
    pub open spec fn saying(kind: ErrorKind, message: Seq<char>) -> ErrorView {
        ErrorView { kind, message: Some(message) }
    }

    /// An error that is only a kind.
    pub open spec fn bare(kind: ErrorKind) -> ErrorView {
        ErrorView { kind, message: None }
    }
}

impl Error {
    /// An error with a message.
    pub fn new(kind: ErrorKind, message: &str) -> (r: Error)
        ensures
            r@ == ErrorView::saying(kind, message@),
    {
        Error { kind, message: Some(message.to_string()) }
    }

    /// An error that is only a kind.
    pub fn bare(kind: ErrorKind) -> (r: Error)
        ensures
            r@ == ErrorView::bare(kind),
    {
        Error { kind, message: None }
    }
}

/// A result with its error taken as a mathematical value.
pub open spec fn viewed<T>(result: Result<T, Error>) -> Result<T, ErrorView> {
    match result {
        Ok(value) => Ok(value),
        Err(error) => Err(error@),
    }
}

/// A reason for which an operation is refused.
pub trait Refusal {
    /// The reason in words.
    spec fn text(&self) -> Seq<char>;

    /// The reason in words.
    fn describe(&self) -> (r: &str)
        ensures
            r@ == self.text(),
    ;
}

impl ErrorKind {
    /// The kind in words.
    pub open spec fn text(self) -> Seq<char> {
        match self {
            ErrorKind::Other => "other error"@,
            ErrorKind::AddrNotAvailable => "address not available"@,
            ErrorKind::ConnectionAborted => "connection aborted"@,
            ErrorKind::ConnectionReset => "connection reset"@,
            ErrorKind::BrokenPipe => "broken pipe"@,
        }
    }

    /// The kind in words.
    pub fn describe(&self) -> (r: &'static str)
        ensures
            r@ == self.text(),
    {
        match self {
            ErrorKind::Other => "other error",
            ErrorKind::AddrNotAvailable => "address not available",
            ErrorKind::ConnectionAborted => "connection aborted",
            ErrorKind::ConnectionReset => "connection reset",
            ErrorKind::BrokenPipe => "broken pipe",
        }
    }
}

/// An error can be reported once more: its words are its message, or its kind where it has none.
impl Refusal for Error {
    open spec fn text(&self) -> Seq<char> {
        match self.message {
            Some(message) => message@,
            None => self.kind.text(),
        }
    }

    fn describe(&self) -> (r: &str) {
        match &self.message {
            Some(message) => message.as_str(),
            None => self.kind.describe(),
        }
    }
}

/// Reports a refusal: an error of kind `Other` that gives the reason in words.
pub fn map_err<E: Refusal>(e: E) -> (r: Error)
    ensures
        r@ == ErrorView::saying(ErrorKind::Other, e.text()),
{
    Error::new(ErrorKind::Other, e.describe())
}

} // verus!
