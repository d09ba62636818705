//! Domain classifiers for the key-value store: the top-level operation
//! errors and the nested check and mutation sub-errors.

use vstd::prelude::*;
use crate::tags::ErrorClass;
use crate::os_code::{IoErrorKind, io_class, get_io_error_class};
use crate::registry::{class_or_generic, classify_or_generic};
use crate::value::ErrorValue;

verus! {

/// A failure of a single atomic-check clause.
#[derive(Debug, Clone, PartialEq, Eq)]
pub enum KvCheckError {
    InvalidVersionstamp,
    /// An underlying I/O failure; delegated to the OS I/O classifier.
    Io(IoErrorKind),
}

/// The tag for each check failure.
pub open spec fn kv_check_class(e: KvCheckError) -> ErrorClass {
    match e {
        KvCheckError::InvalidVersionstamp => ErrorClass::TypeError,
        KvCheckError::Io(k) => io_class(k),
    }
}

/// Classifies a check failure.
pub fn get_kv_check_error_class(e: &KvCheckError) -> (c: ErrorClass)
    ensures
        c == kv_check_class(*e),
{
    match e {
        KvCheckError::InvalidVersionstamp => ErrorClass::TypeError,
        KvCheckError::Io(k) => get_io_error_class(k),
    }
}

/// A failure of a single mutation clause.
#[derive(Debug, Clone, PartialEq, Eq)]
pub enum KvMutationError {
    BigInt,
    /// An underlying I/O failure; delegated to the OS I/O classifier.
    Io(IoErrorKind),
    InvalidMutationWithValue,
    InvalidMutationWithoutValue,
}

/// The tag for each mutation failure.
pub open spec fn kv_mutation_class(e: KvMutationError) -> ErrorClass {
    match e {
        KvMutationError::BigInt => ErrorClass::GenericError,
        KvMutationError::Io(k) => io_class(k),
        KvMutationError::InvalidMutationWithValue => ErrorClass::TypeError,
        KvMutationError::InvalidMutationWithoutValue => ErrorClass::TypeError,
    }
}

/// Classifies a mutation failure.
pub fn get_kv_mutation_error_class(e: &KvMutationError) -> (c: ErrorClass)
    ensures
        c == kv_mutation_class(*e),
{
    match e {
        KvMutationError::BigInt => ErrorClass::GenericError,
        KvMutationError::Io(k) => get_io_error_class(k),
        KvMutationError::InvalidMutationWithValue => ErrorClass::TypeError,
        KvMutationError::InvalidMutationWithoutValue => ErrorClass::TypeError,
    }
}

/// A failure of a key-value store operation.
#[derive(Debug, PartialEq, Eq)]
pub enum KvError {
    /// A failure of the database handler; reclassified through the registry.
    DatabaseHandler(Box<ErrorValue>),
    /// A failure of the backing resource; reclassified through the registry.
    Resource(Box<ErrorValue>),
    /// A failure of the store itself; reclassified through the registry.
    Kv(Box<ErrorValue>),
    TooManyRanges,
    TooManyEntries,
    TooManyChecks,
    TooManyMutations,
    TooManyKeys,
    InvalidLimit,
    InvalidBoundaryKey,
    KeyTooLargeToRead,
    KeyTooLargeToWrite,
    TotalMutationTooLarge,
    TotalKeyTooLarge,
    /// An underlying I/O failure; delegated to the OS I/O classifier.
    Io(IoErrorKind),
    QueueMessageNotFound,
    StartKeyNotInKeyspace,
    EndKeyNotInKeyspace,
    StartKeyGreaterThanEndKey,
    /// A nested check failure.
    InvalidCheck(KvCheckError),
    /// A nested mutation failure.
    InvalidMutation(KvMutationError),
    /// A failed enqueue; delegated to the OS I/O classifier.
    InvalidEnqueue(IoErrorKind),
    EmptyKey,
    ValueTooLarge,
    EnqueuePayloadTooLarge,
    InvalidCursor,
    CursorOutOfBounds,
    InvalidRange,
}

/// The tag for each key-value failure: quantity and size limit violations
/// map to the type-error tag, wrapped causes are reclassified, and I/O
/// failures are delegated to the OS I/O classifier.
pub open spec fn kv_class(e: KvError) -> ErrorClass
    decreases e, 0int,
{
    match e {
        KvError::DatabaseHandler(b) => class_or_generic(*b),
        KvError::Resource(b) => class_or_generic(*b),
        KvError::Kv(b) => class_or_generic(*b),
        KvError::TooManyRanges => ErrorClass::TypeError,
        KvError::TooManyEntries => ErrorClass::TypeError,
        KvError::TooManyChecks => ErrorClass::TypeError,
        KvError::TooManyMutations => ErrorClass::TypeError,
        KvError::TooManyKeys => ErrorClass::TypeError,
        KvError::InvalidLimit => ErrorClass::TypeError,
        KvError::InvalidBoundaryKey => ErrorClass::TypeError,
        KvError::KeyTooLargeToRead => ErrorClass::TypeError,
        KvError::KeyTooLargeToWrite => ErrorClass::TypeError,
        KvError::TotalMutationTooLarge => ErrorClass::TypeError,
        KvError::TotalKeyTooLarge => ErrorClass::TypeError,
        KvError::Io(k) => io_class(k),
        KvError::QueueMessageNotFound => ErrorClass::TypeError,
        KvError::StartKeyNotInKeyspace => ErrorClass::TypeError,
        KvError::EndKeyNotInKeyspace => ErrorClass::TypeError,
        KvError::StartKeyGreaterThanEndKey => ErrorClass::TypeError,
        KvError::InvalidCheck(ce) => kv_check_class(ce),
        KvError::InvalidMutation(me) => kv_mutation_class(me),
        KvError::InvalidEnqueue(k) => io_class(k),
        KvError::EmptyKey => ErrorClass::TypeError,
        KvError::ValueTooLarge => ErrorClass::TypeError,
        KvError::EnqueuePayloadTooLarge => ErrorClass::TypeError,
        KvError::InvalidCursor => ErrorClass::TypeError,
        KvError::CursorOutOfBounds => ErrorClass::TypeError,
        KvError::InvalidRange => ErrorClass::TypeError,
    }
}

/// Classifies a key-value store failure.
pub fn get_kv_error(e: &KvError) -> (c: ErrorClass)
    ensures
        c == kv_class(*e),
    decreases *e, 0int,
{
    match e {
        KvError::DatabaseHandler(b) => classify_or_generic(&**b),
        KvError::Resource(b) => classify_or_generic(&**b),
        KvError::Kv(b) => classify_or_generic(&**b),
        KvError::TooManyRanges => ErrorClass::TypeError,
        KvError::TooManyEntries => ErrorClass::TypeError,
        KvError::TooManyChecks => ErrorClass::TypeError,
        KvError::TooManyMutations => ErrorClass::TypeError,
        KvError::TooManyKeys => ErrorClass::TypeError,
        KvError::InvalidLimit => ErrorClass::TypeError,
        KvError::InvalidBoundaryKey => ErrorClass::TypeError,
        KvError::KeyTooLargeToRead => ErrorClass::TypeError,
        KvError::KeyTooLargeToWrite => ErrorClass::TypeError,
        KvError::TotalMutationTooLarge => ErrorClass::TypeError,
        KvError::TotalKeyTooLarge => ErrorClass::TypeError,
        KvError::Io(k) => get_io_error_class(k),
        KvError::QueueMessageNotFound => ErrorClass::TypeError,
        KvError::StartKeyNotInKeyspace => ErrorClass::TypeError,
        KvError::EndKeyNotInKeyspace => ErrorClass::TypeError,
        KvError::StartKeyGreaterThanEndKey => ErrorClass::TypeError,
        KvError::InvalidCheck(ce) => get_kv_check_error_class(ce),
        KvError::InvalidMutation(me) => get_kv_mutation_error_class(me),
        KvError::InvalidEnqueue(k) => get_io_error_class(k),
        KvError::EmptyKey => ErrorClass::TypeError,
        KvError::ValueTooLarge => ErrorClass::TypeError,
        KvError::EnqueuePayloadTooLarge => ErrorClass::TypeError,
        KvError::InvalidCursor => ErrorClass::TypeError,
        KvError::CursorOutOfBounds => ErrorClass::TypeError,
        KvError::InvalidRange => ErrorClass::TypeError,
    }
}

} // verus!
