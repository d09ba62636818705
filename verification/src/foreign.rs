//! Domain classifiers for the foreign-function interface: value
//! representation, dynamic-library loading and symbol lookup, static symbol
//! binding, callbacks, and calls.

use vstd::prelude::*;
use crate::tags::ErrorClass;
use crate::os_code::{IoErrorKind, io_class, get_io_error_class};
use crate::registry::{class_or_generic, classify_or_generic};
use crate::value::ErrorValue;

verus! {

/// A failure while loading a dynamic library or resolving its symbols
/// through the loader itself.
#[derive(Debug, Clone, PartialEq, Eq)]
pub enum DlopenError {
    /// The library name held an interior nul character.
    NullCharacter,
    /// The library could not be opened; delegated to the OS I/O classifier.
    OpeningLibrary(IoErrorKind),
    /// A symbol could not be read; delegated to the OS I/O classifier.
    SymbolGetting(IoErrorKind),
    /// An address did not fall inside the library; delegated likewise.
    AddrNotMatchingDll(IoErrorKind),
    /// The symbol resolved to null.
    NullSymbol,
}

/// The tag for each dynamic-library loader failure.
pub open spec fn dlopen_class(e: DlopenError) -> ErrorClass {
    match e {
        DlopenError::NullCharacter => ErrorClass::InvalidData,
        DlopenError::OpeningLibrary(k) => io_class(k),
        DlopenError::SymbolGetting(k) => io_class(k),
        DlopenError::AddrNotMatchingDll(k) => io_class(k),
        DlopenError::NullSymbol => ErrorClass::NotFound,
    }
}

/// Classifies a dynamic-library loader failure.
pub fn get_dlopen_error_class(e: &DlopenError) -> (c: ErrorClass)
    ensures
        c == dlopen_class(*e),
{
    match e {
        DlopenError::NullCharacter => ErrorClass::InvalidData,
        DlopenError::OpeningLibrary(k) => get_io_error_class(k),
        DlopenError::SymbolGetting(k) => get_io_error_class(k),
        DlopenError::AddrNotMatchingDll(k) => get_io_error_class(k),
        DlopenError::NullSymbol => ErrorClass::NotFound,
    }
}

/// A failure while reading or writing a foreign value representation.
#[derive(Debug, PartialEq, Eq)]
pub enum ReprError {
    InvalidOffset,
    InvalidArrayBuffer,
    DestinationLengthTooShort,
    InvalidCString,
    CStringTooLong,
    InvalidBool,
    InvalidU8,
    InvalidI8,
    InvalidU16,
    InvalidI16,
    InvalidU32,
    InvalidI32,
    InvalidU64,
    InvalidI64,
    InvalidF32,
    InvalidF64,
    InvalidPointer,
    /// A permission check failed; the wrapped cause is reclassified through
    /// the registry.
    Permission(Box<ErrorValue>),
}

/// The tag for each representation failure: invalid argument shapes map to
/// the type-error tag, short destinations to the range-error tag, and a
/// wrapped permission failure is reclassified.
pub open spec fn repr_class(e: ReprError) -> ErrorClass
    decreases e, 0int,
{
    match e {
        ReprError::DestinationLengthTooShort => ErrorClass::RangeError,
        ReprError::Permission(b) => class_or_generic(*b),
        _ => ErrorClass::TypeError,
    }
}

/// Classifies a representation failure.
pub fn get_ffi_repr_error_class(e: &ReprError) -> (c: ErrorClass)
    ensures
        c == repr_class(*e),
    decreases *e, 0int,
{
    match e {
        ReprError::DestinationLengthTooShort => ErrorClass::RangeError,
        ReprError::Permission(b) => classify_or_generic(&**b),
        _ => ErrorClass::TypeError,
    }
}

/// A failure while opening a foreign library and registering its symbols.
#[derive(Debug, PartialEq, Eq)]
pub enum DlfcnError {
    RegisterSymbol,
    Dlopen,
    /// A permission check failed; the wrapped cause is reclassified.
    Permission(Box<ErrorValue>),
    /// Some other wrapped cause, reclassified through the registry.
    Other(Box<ErrorValue>),
}

/// The tag for each library-open failure.
pub open spec fn dlfcn_class(e: DlfcnError) -> ErrorClass
    decreases e, 0int,
{
    match e {
        DlfcnError::RegisterSymbol => ErrorClass::GenericError,
        DlfcnError::Dlopen => ErrorClass::GenericError,
        DlfcnError::Permission(b) => class_or_generic(*b),
        DlfcnError::Other(b) => class_or_generic(*b),
    }
}

/// Classifies a library-open failure.
pub fn get_ffi_dlfcn_error_class(e: &DlfcnError) -> (c: ErrorClass)
    ensures
        c == dlfcn_class(*e),
    decreases *e, 0int,
{
    match e {
        DlfcnError::RegisterSymbol => ErrorClass::GenericError,
        DlfcnError::Dlopen => ErrorClass::GenericError,
        DlfcnError::Permission(b) => classify_or_generic(&**b),
        DlfcnError::Other(b) => classify_or_generic(&**b),
    }
}

/// A failure while binding a static foreign symbol.
#[derive(Debug, PartialEq, Eq)]
pub enum StaticError {
    /// An underlying library-open failure.
    Dlfcn(DlfcnError),
    InvalidTypeVoid,
    InvalidTypeStruct,
    /// A failure of the backing resource, reclassified through the registry.
    Resource(Box<ErrorValue>),
}

/// The tag for each static-symbol failure.
pub open spec fn ffi_static_class(e: StaticError) -> ErrorClass
    decreases e, 0int,
{
    match e {
        StaticError::Dlfcn(d) => dlfcn_class(d),
        StaticError::InvalidTypeVoid => ErrorClass::TypeError,
        StaticError::InvalidTypeStruct => ErrorClass::TypeError,
        StaticError::Resource(b) => class_or_generic(*b),
    }
}

/// Classifies a static-symbol failure.
pub fn get_ffi_static_error_class(e: &StaticError) -> (c: ErrorClass)
    ensures
        c == ffi_static_class(*e),
    decreases *e, 0int,
{
    match e {
        StaticError::Dlfcn(d) => get_ffi_dlfcn_error_class(d),
        StaticError::InvalidTypeVoid => ErrorClass::TypeError,
        StaticError::InvalidTypeStruct => ErrorClass::TypeError,
        StaticError::Resource(b) => classify_or_generic(&**b),
    }
}

/// A failure while running a foreign callback.
#[derive(Debug, PartialEq, Eq)]
pub enum CallbackError {
    /// A failure of the backing resource, reclassified through the registry.
    Resource(Box<ErrorValue>),
    /// Some other wrapped cause, reclassified through the registry.
    Other(Box<ErrorValue>),
    /// A permission check failed; the wrapped cause is reclassified.
    Permission(Box<ErrorValue>),
}

/// The tag for each callback failure: every variant wraps a cause, and every
/// cause is reclassified through the registry.
pub open spec fn callback_class(e: CallbackError) -> ErrorClass
    decreases e, 0int,
{
    match e {
        CallbackError::Resource(b) => class_or_generic(*b),
        CallbackError::Other(b) => class_or_generic(*b),
        CallbackError::Permission(b) => class_or_generic(*b),
    }
}

/// Classifies a callback failure.
pub fn get_ffi_callback_error_class(e: &CallbackError) -> (c: ErrorClass)
    ensures
        c == callback_class(*e),
    decreases *e, 0int,
{
    match e {
        CallbackError::Resource(b) => classify_or_generic(&**b),
        CallbackError::Other(b) => classify_or_generic(&**b),
        CallbackError::Permission(b) => classify_or_generic(&**b),
    }
}

/// A failure while making a foreign call.
#[derive(Debug, PartialEq, Eq)]
pub enum CallError {
    /// The arguments could not be lowered to the foreign representation.
    Ir,
    NonblockingCallFailure,
    InvalidSymbol,
    /// A permission check failed; the wrapped cause is reclassified.
    Permission(Box<ErrorValue>),
    /// An underlying callback failure.
    Callback(CallbackError),
}

/// The tag for each call failure.
pub open spec fn call_class(e: CallError) -> ErrorClass
    decreases e, 0int,
{
    match e {
        CallError::Ir => ErrorClass::TypeError,
        CallError::NonblockingCallFailure => ErrorClass::GenericError,
        CallError::InvalidSymbol => ErrorClass::TypeError,
        CallError::Permission(b) => class_or_generic(*b),
        CallError::Callback(cb) => callback_class(cb),
    }
}

/// Classifies a call failure.
pub fn get_ffi_call_error_class(e: &CallError) -> (c: ErrorClass)
    ensures
        c == call_class(*e),
    decreases *e, 0int,
{
    match e {
        CallError::Ir => ErrorClass::TypeError,
        CallError::NonblockingCallFailure => ErrorClass::GenericError,
        CallError::InvalidSymbol => ErrorClass::TypeError,
        CallError::Permission(b) => classify_or_generic(&**b),
        CallError::Callback(cb) => get_ffi_callback_error_class(cb),
    }
}

} // verus!
