use vstd::prelude::*;

verus! {

/// How an exchange with the device failed at the I/O level.
///
/// `TimedOut` covers sync, negotiation and retry loops that ran out of time;
/// `InvalidData` covers unrecoverable framing or protocol violations; `Other`
/// is for failures of the underlying transport that the driver reports.
#[derive(Debug, Clone, Copy, PartialEq, Eq, Structural)]
pub enum IoErrorKind {
    TimedOut,
    InvalidData,
    Other,
}

/// An I/O-level error: its kind plus a human-readable description.
#[derive(Debug, Clone, PartialEq, Eq)]
pub struct IoError {
    pub kind: IoErrorKind,
    pub message: String,
}

impl IoError {
    pub fn new(kind: IoErrorKind, message: String) -> (r: IoError)
        ensures
            r.kind == kind,
            r.message@ == message@,
    {
        IoError { kind, message }
    }
}

/// The error taxonomy of the library.
///
/// `UnsupportedCommand` names a command absent from the device table;
/// `UnsupportedMode` an access direction the command forbids;
/// `InvalidArgument` a value/unit kind mismatch or an enum string absent from
/// a mapping; `UnknownEnumVariant` a byte pattern absent from a mapping during
/// decoding; `Io` a transport-level failure.
#[derive(Debug, Clone, PartialEq, Eq)]
pub enum Error {
    UnsupportedCommand(String),
    UnsupportedMode(String),
    InvalidArgument(String),
    UnknownEnumVariant(String),
    Io(IoError),
}

impl Error {
    /// The error's human-readable description.
    pub fn message(&self) -> (r: String)
        ensures
            r@ == match self {
                Error::UnsupportedCommand(s) => s@,
                Error::UnsupportedMode(s) => s@,
                Error::InvalidArgument(s) => s@,
                Error::UnknownEnumVariant(s) => s@,
                Error::Io(e) => e.message@,
            },
    {
        match self {
            Error::UnsupportedCommand(s) => s.clone(),
            Error::UnsupportedMode(s) => s.clone(),
            Error::InvalidArgument(s) => s.clone(),
            Error::UnknownEnumVariant(s) => s.clone(),
            Error::Io(e) => e.message.clone(),
        }
    }
}

} // verus!
