//! The failure taxonomy of the driver.

use vstd::prelude::*;
use vstd::string::*;

verus! {

/// Why an operation on an instrument failed.
///
/// `Serial`, `Io` and `Json` carry the rendered message of a failure that
/// arose in the transport or the serializer around the driver.
#[derive(Debug, Clone, PartialEq, Eq)]
pub enum Error {
    Serial(String),
    Io(String),
    Parse(String),
    Device(String),
    Timeout,
    InvalidCommand(String),
    Connection(String),
    Config(String),
    Json(String),
}

/// An `Error` with its messages as character sequences.
pub enum ErrorView {
    Serial(Seq<char>),
    Io(Seq<char>),
    Parse(Seq<char>),
    Device(Seq<char>),
    Timeout,
    InvalidCommand(Seq<char>),
    Connection(Seq<char>),
    Config(Seq<char>),
    Json(Seq<char>),
}

impl View for Error {
    type V = ErrorView;

    open spec fn view(&self) -> ErrorView {
        match *self {
            Error::Serial(m) => ErrorView::Serial(m@),
            Error::Io(m) => ErrorView::Io(m@),
            Error::Parse(m) => ErrorView::Parse(m@),
            Error::Device(m) => ErrorView::Device(m@),
            Error::Timeout => ErrorView::Timeout,
            Error::InvalidCommand(m) => ErrorView::InvalidCommand(m@),
            Error::Connection(m) => ErrorView::Connection(m@),
            Error::Config(m) => ErrorView::Config(m@),
            Error::Json(m) => ErrorView::Json(m@),
        }
    }
}

/// Whether a result is the expected one, comparing values and errors by view.
pub open spec fn agrees<T: View>(result: Result<T, Error>, expected: Result<T::V, ErrorView>) -> bool {
    match expected {
        Ok(v) => result matches Ok(x) && x@ == v,
        Err(ev) => result matches Err(e) && e@ == ev,
    }
}

/// The text that `Error::message` renders for an error.
pub open spec fn error_text(e: ErrorView) -> Seq<char> {
    match e {
        ErrorView::Serial(m) => "Serial communication error: "@ + m,
        ErrorView::Io(m) => "IO error: "@ + m,
        ErrorView::Parse(m) => "Parse error: "@ + m,
        ErrorView::Device(m) => "Device error: "@ + m,
        ErrorView::Timeout => "Timeout error"@,
        ErrorView::InvalidCommand(m) => "Invalid command: "@ + m,
        ErrorView::Connection(m) => "Connection error: "@ + m,
        ErrorView::Config(m) => "Configuration error: "@ + m,
        ErrorView::Json(m) => "JSON serialization error: "@ + m,
    }
}

impl Error {
    /// Human-readable rendering: the class of the failure, then its detail.
    pub fn message(&self) -> (text: String)
        ensures
            text@ == error_text(self@),
    {
        match self {
            Error::Serial(m) => String::from_str("Serial communication error: ").concat(m.as_str()),
            Error::Io(m) => String::from_str("IO error: ").concat(m.as_str()),
            Error::Parse(m) => String::from_str("Parse error: ").concat(m.as_str()),
            Error::Device(m) => String::from_str("Device error: ").concat(m.as_str()),
            Error::Timeout => String::from_str("Timeout error"),
            Error::InvalidCommand(m) => String::from_str("Invalid command: ").concat(m.as_str()),
            Error::Connection(m) => String::from_str("Connection error: ").concat(m.as_str()),
            Error::Config(m) => String::from_str("Configuration error: ").concat(m.as_str()),
            Error::Json(m) => String::from_str("JSON serialization error: ").concat(m.as_str()),
        }
    }
}

} // verus!
