//! The closed vocabulary of error class tags.
//!
//! A tag names the user-visible exception kind an error value corresponds to.
//! The set is fixed: it is the contract surface with the embedding engine, and
//! must not grow without the engine also learning the new tag.

use vstd::prelude::*;

verus! {

/// One user-visible exception kind.  `GenericError` is the generic fallback
/// tag (rendered as `"Error"`); it is distinct from an *unclassified* value,
/// which the registry reports as `None`.
#[derive(Debug, Clone, Copy, PartialEq, Eq, Structural)]
pub enum ErrorClass {
    NotFound,
    PermissionDenied,
    ConnectionRefused,
    ConnectionReset,
    ConnectionAborted,
    NotConnected,
    AddrInUse,
    AddrNotAvailable,
    BrokenPipe,
    AlreadyExists,
    TypeError,
    RangeError,
    SyntaxError,
    UriError,
    InvalidData,
    TimedOut,
    Interrupted,
    WriteZero,
    UnexpectedEof,
    WouldBlock,
    FilesystemLoop,
    IsADirectory,
    NetworkUnreachable,
    NotADirectory,
    Busy,
    BadResource,
    NotSupported,
    Http,
    DomExceptionInvalidCharacterError,
    DomExceptionNotSupportedError,
    DomExceptionQuotaExceededError,
    DomExceptionOperationError,
    DomExceptionNetworkError,
    GenericError,
}

impl ErrorClass {
    /// The identifier string for this tag, exactly as the embedding engine
    /// receives it.
    pub open spec fn text(self) -> Seq<char> {
        match self {
            ErrorClass::NotFound => "NotFound"@,
            ErrorClass::PermissionDenied => "PermissionDenied"@,
            ErrorClass::ConnectionRefused => "ConnectionRefused"@,
            ErrorClass::ConnectionReset => "ConnectionReset"@,
            ErrorClass::ConnectionAborted => "ConnectionAborted"@,
            ErrorClass::NotConnected => "NotConnected"@,
            ErrorClass::AddrInUse => "AddrInUse"@,
            ErrorClass::AddrNotAvailable => "AddrNotAvailable"@,
            ErrorClass::BrokenPipe => "BrokenPipe"@,
            ErrorClass::AlreadyExists => "AlreadyExists"@,
            ErrorClass::TypeError => "TypeError"@,
            ErrorClass::RangeError => "RangeError"@,
            ErrorClass::SyntaxError => "SyntaxError"@,
            ErrorClass::UriError => "URIError"@,
            ErrorClass::InvalidData => "InvalidData"@,
            ErrorClass::TimedOut => "TimedOut"@,
            ErrorClass::Interrupted => "Interrupted"@,
            ErrorClass::WriteZero => "WriteZero"@,
            ErrorClass::UnexpectedEof => "UnexpectedEof"@,
            ErrorClass::WouldBlock => "WouldBlock"@,
            ErrorClass::FilesystemLoop => "FilesystemLoop"@,
            ErrorClass::IsADirectory => "IsADirectory"@,
            ErrorClass::NetworkUnreachable => "NetworkUnreachable"@,
            ErrorClass::NotADirectory => "NotADirectory"@,
            ErrorClass::Busy => "Busy"@,
            ErrorClass::BadResource => "BadResource"@,
            ErrorClass::NotSupported => "NotSupported"@,
            ErrorClass::Http => "Http"@,
            ErrorClass::DomExceptionInvalidCharacterError => "DOMExceptionInvalidCharacterError"@,
            ErrorClass::DomExceptionNotSupportedError => "DOMExceptionNotSupportedError"@,
            ErrorClass::DomExceptionQuotaExceededError => "DOMExceptionQuotaExceededError"@,
            ErrorClass::DomExceptionOperationError => "DOMExceptionOperationError"@,
            ErrorClass::DomExceptionNetworkError => "DOMExceptionNetworkError"@,
            ErrorClass::GenericError => "Error"@,
        }
    }

    /// Returns the tag's identifier string.
    pub fn as_str(&self) -> (s: &'static str)
        ensures
            s@ == self.text(),
    {
        match self {
            ErrorClass::NotFound => "NotFound",
            ErrorClass::PermissionDenied => "PermissionDenied",
            ErrorClass::ConnectionRefused => "ConnectionRefused",
            ErrorClass::ConnectionReset => "ConnectionReset",
            ErrorClass::ConnectionAborted => "ConnectionAborted",
            ErrorClass::NotConnected => "NotConnected",
            ErrorClass::AddrInUse => "AddrInUse",
            ErrorClass::AddrNotAvailable => "AddrNotAvailable",
            ErrorClass::BrokenPipe => "BrokenPipe",
            ErrorClass::AlreadyExists => "AlreadyExists",
            ErrorClass::TypeError => "TypeError",
            ErrorClass::RangeError => "RangeError",
            ErrorClass::SyntaxError => "SyntaxError",
            ErrorClass::UriError => "URIError",
            ErrorClass::InvalidData => "InvalidData",
            ErrorClass::TimedOut => "TimedOut",
            ErrorClass::Interrupted => "Interrupted",
            ErrorClass::WriteZero => "WriteZero",
            ErrorClass::UnexpectedEof => "UnexpectedEof",
            ErrorClass::WouldBlock => "WouldBlock",
            ErrorClass::FilesystemLoop => "FilesystemLoop",
            ErrorClass::IsADirectory => "IsADirectory",
            ErrorClass::NetworkUnreachable => "NetworkUnreachable",
            ErrorClass::NotADirectory => "NotADirectory",
            ErrorClass::Busy => "Busy",
            ErrorClass::BadResource => "BadResource",
            ErrorClass::NotSupported => "NotSupported",
            ErrorClass::Http => "Http",
            ErrorClass::DomExceptionInvalidCharacterError => "DOMExceptionInvalidCharacterError",
            ErrorClass::DomExceptionNotSupportedError => "DOMExceptionNotSupportedError",
            ErrorClass::DomExceptionQuotaExceededError => "DOMExceptionQuotaExceededError",
            ErrorClass::DomExceptionOperationError => "DOMExceptionOperationError",
            ErrorClass::DomExceptionNetworkError => "DOMExceptionNetworkError",
            ErrorClass::GenericError => "Error",
        }
    }
}

} // verus!
