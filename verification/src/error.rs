use vstd::prelude::*;

verus! {

/// Errors produced by the library's decisions.
#[derive(Debug, Clone, PartialEq, Eq)]
pub enum Error {
    /// A configuration that cannot be used as given.
    InvalidConfig(String),
    /// A failure of the DNS layer.
    DNSError(String),
    /// An input/output failure, by its message.
    Io(String),
    /// Any other failure, by its message.
    Other(String),
}

/// An error as a mathematical value: its kind and its message.
pub ghost enum ErrorView {
    InvalidConfig(Seq<char>),
    DNSError(Seq<char>),
    Io(Seq<char>),
    Other(Seq<char>),
}

impl View for Error {
    type V = ErrorView;

    open spec fn view(&self) -> ErrorView {
        match self {
            Error::InvalidConfig(m) => ErrorView::InvalidConfig(m@),
            Error::DNSError(m) => ErrorView::DNSError(m@),
            Error::Io(m) => ErrorView::Io(m@),
            Error::Other(m) => ErrorView::Other(m@),
        }
    }
}

impl Error {
    /// The message carried by the error.
    pub open spec fn text(self) -> Seq<char> {
        match self {
            Error::InvalidConfig(m) => m@,
            Error::DNSError(m) => m@,
            Error::Io(m) => m@,
            Error::Other(m) => m@,
        }
    }

    /// Returns the message carried by the error.
    pub fn message(&self) -> (m: String)
        ensures
            m@ == self.text(),
    {
        match self {
            Error::InvalidConfig(m) => m.clone(),
            Error::DNSError(m) => m.clone(),
            Error::Io(m) => m.clone(),
            Error::Other(m) => m.clone(),
        }
    }
}

} // verus!
