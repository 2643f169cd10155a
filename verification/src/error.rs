//! Errors of the host side.

use vstd::prelude::*;

verus! {

/// Classes of failed input and output.
#[derive(Debug, Clone, Copy, PartialEq, Eq, Structural)]
pub enum IoKind {
    /// Something does not exist.
    NotFound,
    /// An argument is not acceptable in the present state.
    InvalidInput,
    /// Data is malformed.
    InvalidData,
    /// The other side is gone.
    BrokenPipe,
    /// Time ran out.
    TimedOut,
    /// The data ended too early.
    UnexpectedEof,
    /// The other side does not support the request.
    Unsupported,
    /// Permission was denied.
    PermissionDenied,
    /// Anything else.
    Other,
}

/// What can go wrong on the host side.
#[derive(Debug, Clone)]
pub enum Error {
    /// The hypervisor returned a negative code.
    Krun {
        /// The operation that failed.
        op: &'static str,
        /// The code it returned.
        code: i32,
    },
    /// A string for the hypervisor holds a NUL character.
    Nul,
    /// Input or output failed.
    Io(IoKind, String),
    /// No VM matches.
    NotFound(String),
    /// More than one VM matches, or a name is taken.
    Ambiguous(String),
    /// The registry refused a record.
    Db(String),
}

/// An error as plain data.
pub enum ErrorView {
    /// The hypervisor returned a negative code.
    Krun {
        /// The operation that failed.
        op: Seq<char>,
        /// The code it returned.
        code: i32,
    },
    /// A string for the hypervisor holds a NUL character.
    Nul,
    /// Input or output failed.
    Io(IoKind, Seq<char>),
    /// No VM matches.
    NotFound(Seq<char>),
    /// More than one VM matches, or a name is taken.
    Ambiguous(Seq<char>),
    /// The registry refused a record.
    Db(Seq<char>),
}

impl View for Error {
    type V = ErrorView;

    open spec fn view(&self) -> ErrorView {
        match self {
            Error::Krun { op, code } => ErrorView::Krun { op: op@, code: *code },
            Error::Nul => ErrorView::Nul,
            Error::Io(kind, m) => ErrorView::Io(*kind, m@),
            Error::NotFound(m) => ErrorView::NotFound(m@),
            Error::Ambiguous(m) => ErrorView::Ambiguous(m@),
            Error::Db(m) => ErrorView::Db(m@),
        }
    }
}

} // verus!
