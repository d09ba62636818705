//! The remaining single-purpose domain classifiers: environment variables,
//! filesystem watching, pattern compilation, structured-data parsing, and
//! canvas images.

use vstd::prelude::*;
use crate::tags::ErrorClass;
use crate::os_code::{IoErrorKind, io_class, get_io_error_class};

verus! {

/// A failure while reading an environment variable.
#[derive(Debug, Clone, Copy, PartialEq, Eq, Structural)]
pub enum EnvVarError {
    NotPresent,
    NotUnicode,
}

/// The tag for each environment-variable failure.
pub open spec fn env_var_class(e: EnvVarError) -> ErrorClass {
    match e {
        EnvVarError::NotPresent => ErrorClass::NotFound,
        EnvVarError::NotUnicode => ErrorClass::InvalidData,
    }
}

/// Classifies an environment-variable failure.
pub fn get_env_var_error_class(e: &EnvVarError) -> (c: ErrorClass)
    ensures
        c == env_var_class(*e),
{
    match e {
        EnvVarError::NotPresent => ErrorClass::NotFound,
        EnvVarError::NotUnicode => ErrorClass::InvalidData,
    }
}

/// A failure of the filesystem watcher.
#[derive(Debug, Clone, PartialEq, Eq)]
pub enum NotifyError {
    Generic,
    /// An underlying I/O failure; delegated to the OS I/O classifier.
    Io(IoErrorKind),
    PathNotFound,
    WatchNotFound,
    InvalidConfig,
    MaxFilesWatch,
}

/// The tag for each watcher failure.
pub open spec fn notify_class(e: NotifyError) -> ErrorClass {
    match e {
        NotifyError::Generic => ErrorClass::GenericError,
        NotifyError::Io(k) => io_class(k),
        NotifyError::PathNotFound => ErrorClass::NotFound,
        NotifyError::WatchNotFound => ErrorClass::NotFound,
        NotifyError::InvalidConfig => ErrorClass::InvalidData,
        NotifyError::MaxFilesWatch => ErrorClass::GenericError,
    }
}

/// Classifies a watcher failure.
pub fn get_notify_error_class(e: &NotifyError) -> (c: ErrorClass)
    ensures
        c == notify_class(*e),
{
    match e {
        NotifyError::Generic => ErrorClass::GenericError,
        NotifyError::Io(k) => get_io_error_class(k),
        NotifyError::PathNotFound => ErrorClass::NotFound,
        NotifyError::WatchNotFound => ErrorClass::NotFound,
        NotifyError::InvalidConfig => ErrorClass::InvalidData,
        NotifyError::MaxFilesWatch => ErrorClass::GenericError,
    }
}

/// A failure while compiling a search pattern.
#[derive(Debug, Clone, Copy, PartialEq, Eq, Structural)]
pub enum RegexError {
    /// The pattern does not parse.
    Syntax,
    /// The compiled automaton exceeds the configured size limit.
    CompiledTooBig,
    /// Any failure kind the pattern library may add later.
    Other,
}

/// The tag for each pattern-compilation failure.
pub open spec fn regex_class(e: RegexError) -> ErrorClass {
    match e {
        RegexError::Syntax => ErrorClass::SyntaxError,
        RegexError::CompiledTooBig => ErrorClass::RangeError,
        RegexError::Other => ErrorClass::GenericError,
    }
}

/// Classifies a pattern-compilation failure.
pub fn get_regex_error_class(e: &RegexError) -> (c: ErrorClass)
    ensures
        c == regex_class(*e),
{
    match e {
        RegexError::Syntax => ErrorClass::SyntaxError,
        RegexError::CompiledTooBig => ErrorClass::RangeError,
        RegexError::Other => ErrorClass::GenericError,
    }
}

/// Declares regex::Error, the pattern library's failure value; opaque here,
/// read only through [`classify_regex_failure`].
#[verifier::external_type_specification]
#[verifier::external_body]
pub struct ExRegexCrateError(regex::Error);

/// The model of a pattern-compilation failure: which kind it is.  A function
/// of the failure value alone - the conversion below reads nothing else.
pub uninterp spec fn regex_model_of(e: regex::Error) -> RegexError;

/// Relies on matching the variants of regex::Error: one arm per variant, the
/// wildcard covering kinds the library may add (the enum is non-exhaustive).
#[verifier::external_body]
fn regex_error_model(e: &regex::Error) -> (m: RegexError)
    ensures
        m == regex_model_of(*e),
{
    match e {
        regex::Error::Syntax(_) => RegexError::Syntax,
        regex::Error::CompiledTooBig(_) => RegexError::CompiledTooBig,
        _ => RegexError::Other,
    }
}

/// Classifies a pattern failure as the pattern library reports it: exactly
/// the pattern tag table, applied to the failure's model.
pub fn classify_regex_failure(e: &regex::Error) -> (c: ErrorClass)
    ensures
        c == regex_class(regex_model_of(*e)),
{
    let m = regex_error_model(e);
    get_regex_error_class(&m)
}

/// The reported category of a structured-data parse failure.
#[derive(Debug, Clone, PartialEq, Eq)]
pub enum SerdeJsonError {
    /// The failure originated in I/O; delegated to the OS I/O classifier.
    Io(IoErrorKind),
    /// The input is not syntactically valid.
    Syntax,
    /// The input is valid syntax but semantically wrong.
    Data,
    /// The input ended prematurely.
    Eof,
}

/// The tag for each parse-failure category.
pub open spec fn serde_json_class(e: SerdeJsonError) -> ErrorClass {
    match e {
        SerdeJsonError::Io(k) => io_class(k),
        SerdeJsonError::Syntax => ErrorClass::SyntaxError,
        SerdeJsonError::Data => ErrorClass::InvalidData,
        SerdeJsonError::Eof => ErrorClass::UnexpectedEof,
    }
}

/// Classifies a structured-data parse failure.
pub fn get_serde_json_error_class(e: &SerdeJsonError) -> (c: ErrorClass)
    ensures
        c == serde_json_class(*e),
{
    match e {
        SerdeJsonError::Io(k) => get_io_error_class(k),
        SerdeJsonError::Syntax => ErrorClass::SyntaxError,
        SerdeJsonError::Data => ErrorClass::InvalidData,
        SerdeJsonError::Eof => ErrorClass::UnexpectedEof,
    }
}

/// A failure while decoding or encoding a canvas image.
#[derive(Debug, Clone, Copy, PartialEq, Eq, Structural)]
pub enum CanvasError {
    UnsupportedColorType,
    Image,
}

/// The tag for each canvas failure.
pub open spec fn canvas_class(e: CanvasError) -> ErrorClass {
    match e {
        CanvasError::UnsupportedColorType => ErrorClass::TypeError,
        CanvasError::Image => ErrorClass::GenericError,
    }
}

/// Classifies a canvas failure.
pub fn get_canvas_error(e: &CanvasError) -> (c: ErrorClass)
    ensures
        c == canvas_class(*e),
{
    match e {
        CanvasError::UnsupportedColorType => ErrorClass::TypeError,
        CanvasError::Image => ErrorClass::GenericError,
    }
}

} // verus!
