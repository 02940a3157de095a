use vstd::prelude::*;
use vstd::string::StringExecFns;

verus! {

/// The kind of a bridge error, without its text.
#[derive(Clone, Copy, Debug, PartialEq, Eq, Structural)]
pub enum ErrorKind {
    PermissionDenied,
    InvalidInput,
    NotConnected,
    TimedOut,
    Other,
}

/// An error of the bridge or of the foreign platform under it.
#[derive(Debug)]
pub enum BridgeError {
    /// The platform refused the call for want of a permission; holds the exception's message.
    PermissionDenied(String),
    /// The platform rejected an argument; holds the exception's message.
    InvalidInput(String),
    /// The socket is not (or no longer) connected.
    NotConnected,
    /// No data arrived before the read timeout elapsed.
    TimedOut,
    /// Any other failure; holds a description such as `"<class>: <message>"`.
    Other(String),
}

/// The mathematical value of a [`BridgeError`].
pub ghost enum ErrorView {
    PermissionDenied(Seq<char>),
    InvalidInput(Seq<char>),
    NotConnected,
    TimedOut,
    Other(Seq<char>),
}

impl View for BridgeError {
    type V = ErrorView;

    open spec fn view(&self) -> ErrorView {
        match self {
            BridgeError::PermissionDenied(m) => ErrorView::PermissionDenied(m@),
            BridgeError::InvalidInput(m) => ErrorView::InvalidInput(m@),
            BridgeError::NotConnected => ErrorView::NotConnected,
            BridgeError::TimedOut => ErrorView::TimedOut,
            BridgeError::Other(m) => ErrorView::Other(m@),
        }
    }
}

pub open spec fn kind_of(e: ErrorView) -> ErrorKind {
    match e {
        ErrorView::PermissionDenied(_) => ErrorKind::PermissionDenied,
        ErrorView::InvalidInput(_) => ErrorKind::InvalidInput,
        ErrorView::NotConnected => ErrorKind::NotConnected,
        ErrorView::TimedOut => ErrorKind::TimedOut,
        ErrorView::Other(_) => ErrorKind::Other,
    }
}

impl BridgeError {
    /// The kind of this error.
    pub fn kind(&self) -> (k: ErrorKind)
        ensures
            k == kind_of(self@),
    {
        match self {
            BridgeError::PermissionDenied(_) => ErrorKind::PermissionDenied,
            BridgeError::InvalidInput(_) => ErrorKind::InvalidInput,
            BridgeError::NotConnected => ErrorKind::NotConnected,
            BridgeError::TimedOut => ErrorKind::TimedOut,
            BridgeError::Other(_) => ErrorKind::Other,
        }
    }

    /// An error of kind `Other` that carries `text`.
    pub fn other(text: &str) -> (e: BridgeError)
        ensures
            e@ == ErrorView::Other(text@),
    {
        BridgeError::Other(String::from_str(text))
    }
}

} // verus!
