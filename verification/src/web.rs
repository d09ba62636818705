//! Domain classifiers for the web-platform subsystems: base primitives,
//! compression streams, message ports, stream resources, blobs, and web
//! storage.

use vstd::prelude::*;
use crate::tags::ErrorClass;
use crate::os_code::{IoErrorKind, io_class, get_io_error_class};
use crate::registry::{class_or_generic, classify_or_generic};
use crate::value::ErrorValue;

verus! {

/// A failure of the web-platform base primitives.
#[derive(Debug, Clone, PartialEq, Eq)]
pub enum WebError {
    Base64Decode,
    InvalidEncodingLabel,
    BufferTooLong,
    ValueTooLarge,
    BufferTooSmall,
    DataInvalid,
    DataError,
}

/// The tag for each web-platform base failure.
pub open spec fn web_class(e: WebError) -> ErrorClass {
    match e {
        WebError::Base64Decode => ErrorClass::DomExceptionInvalidCharacterError,
        WebError::InvalidEncodingLabel => ErrorClass::RangeError,
        WebError::BufferTooLong => ErrorClass::TypeError,
        WebError::ValueTooLarge => ErrorClass::RangeError,
        WebError::BufferTooSmall => ErrorClass::RangeError,
        WebError::DataInvalid => ErrorClass::TypeError,
        WebError::DataError => ErrorClass::GenericError,
    }
}

/// Classifies a web-platform base failure.
pub fn get_web_error_class(e: &WebError) -> (c: ErrorClass)
    ensures
        c == web_class(*e),
{
    match e {
        WebError::Base64Decode => ErrorClass::DomExceptionInvalidCharacterError,
        WebError::InvalidEncodingLabel => ErrorClass::RangeError,
        WebError::BufferTooLong => ErrorClass::TypeError,
        WebError::ValueTooLarge => ErrorClass::RangeError,
        WebError::BufferTooSmall => ErrorClass::RangeError,
        WebError::DataInvalid => ErrorClass::TypeError,
        WebError::DataError => ErrorClass::GenericError,
    }
}

/// A failure of a compression stream.
#[derive(Debug, Clone, PartialEq, Eq)]
pub enum CompressionError {
    UnsupportedFormat,
    ResourceClosed,
    IoTypeError,
    /// An underlying I/O failure; delegated to the OS I/O classifier.
    Io(IoErrorKind),
}

/// The tag for each compression failure.
pub open spec fn compression_class(e: CompressionError) -> ErrorClass {
    match e {
        CompressionError::UnsupportedFormat => ErrorClass::TypeError,
        CompressionError::ResourceClosed => ErrorClass::TypeError,
        CompressionError::IoTypeError => ErrorClass::TypeError,
        CompressionError::Io(k) => io_class(k),
    }
}

/// Classifies a compression failure.
pub fn get_web_compression_error_class(e: &CompressionError) -> (c: ErrorClass)
    ensures
        c == compression_class(*e),
{
    match e {
        CompressionError::UnsupportedFormat => ErrorClass::TypeError,
        CompressionError::ResourceClosed => ErrorClass::TypeError,
        CompressionError::IoTypeError => ErrorClass::TypeError,
        CompressionError::Io(k) => get_io_error_class(k),
    }
}

/// A failure of a message port.
#[derive(Debug, PartialEq, Eq)]
pub enum MessagePortError {
    InvalidTransfer,
    NotReady,
    TransferSelf,
    /// The operation was canceled; reported as an interrupted I/O condition.
    Canceled,
    /// A failure of the backing resource; the wrapped value is reclassified
    /// through the registry.
    Resource(Box<ErrorValue>),
}

/// The tag for each message-port failure.
pub open spec fn message_port_class(e: MessagePortError) -> ErrorClass
    decreases e, 0int,
{
    match e {
        MessagePortError::InvalidTransfer => ErrorClass::TypeError,
        MessagePortError::NotReady => ErrorClass::TypeError,
        MessagePortError::TransferSelf => ErrorClass::TypeError,
        MessagePortError::Canceled => io_class(IoErrorKind::Interrupted),
        MessagePortError::Resource(b) => class_or_generic(*b),
    }
}

/// Classifies a message-port failure.
pub fn get_web_message_port_error_class(e: &MessagePortError) -> (c: ErrorClass)
    ensures
        c == message_port_class(*e),
    decreases *e, 0int,
{
    match e {
        MessagePortError::InvalidTransfer => ErrorClass::TypeError,
        MessagePortError::NotReady => ErrorClass::TypeError,
        MessagePortError::TransferSelf => ErrorClass::TypeError,
        MessagePortError::Canceled => get_io_error_class(&IoErrorKind::Interrupted),
        MessagePortError::Resource(b) => classify_or_generic(&**b),
    }
}

/// A failure of a readable/writable stream resource.
#[derive(Debug, Clone, PartialEq, Eq)]
pub enum StreamResourceError {
    /// The operation was canceled; reported as an interrupted I/O condition.
    Canceled,
    /// A failure raised by script code inside the stream.
    Js,
}

/// The tag for each stream-resource failure.
pub open spec fn stream_resource_class(e: StreamResourceError) -> ErrorClass {
    match e {
        StreamResourceError::Canceled => io_class(IoErrorKind::Interrupted),
        StreamResourceError::Js => ErrorClass::TypeError,
    }
}

/// Classifies a stream-resource failure.
pub fn get_web_stream_resource_error_class(e: &StreamResourceError) -> (c: ErrorClass)
    ensures
        c == stream_resource_class(*e),
{
    match e {
        StreamResourceError::Canceled => get_io_error_class(&IoErrorKind::Interrupted),
        StreamResourceError::Js => ErrorClass::TypeError,
    }
}

/// A failure of the blob store.
#[derive(Debug, Clone, PartialEq, Eq)]
pub enum BlobError {
    BlobPartNotFound,
    SizeLargerThanBlobPart,
    BlobUrlsNotSupported,
    Url,
}

/// The tag for each blob failure.
pub open spec fn blob_class(e: BlobError) -> ErrorClass {
    match e {
        BlobError::BlobPartNotFound => ErrorClass::TypeError,
        BlobError::SizeLargerThanBlobPart => ErrorClass::TypeError,
        BlobError::BlobUrlsNotSupported => ErrorClass::TypeError,
        BlobError::Url => ErrorClass::GenericError,
    }
}

/// Classifies a blob failure.
pub fn get_web_blob_error_class(e: &BlobError) -> (c: ErrorClass)
    ensures
        c == blob_class(*e),
{
    match e {
        BlobError::BlobPartNotFound => ErrorClass::TypeError,
        BlobError::SizeLargerThanBlobPart => ErrorClass::TypeError,
        BlobError::BlobUrlsNotSupported => ErrorClass::TypeError,
        BlobError::Url => ErrorClass::GenericError,
    }
}

/// A failure of web storage.
#[derive(Debug, Clone, PartialEq, Eq)]
pub enum WebStorageError {
    ContextNotSupported,
    /// A failure of the embedded database backend.  It has no more precise
    /// user-visible kind, so it maps to the generic tag.
    Sqlite,
    /// An underlying I/O failure; delegated to the OS I/O classifier.
    Io(IoErrorKind),
    StorageExceeded,
}

/// The tag for each web-storage failure.
pub open spec fn webstorage_class(e: WebStorageError) -> ErrorClass {
    match e {
        WebStorageError::ContextNotSupported => ErrorClass::DomExceptionNotSupportedError,
        WebStorageError::Sqlite => ErrorClass::GenericError,
        WebStorageError::Io(k) => io_class(k),
        WebStorageError::StorageExceeded => ErrorClass::DomExceptionQuotaExceededError,
    }
}

/// Classifies a web-storage failure.
pub fn get_webstorage_class_name(e: &WebStorageError) -> (c: ErrorClass)
    ensures
        c == webstorage_class(*e),
{
    match e {
        WebStorageError::ContextNotSupported => ErrorClass::DomExceptionNotSupportedError,
        WebStorageError::Sqlite => ErrorClass::GenericError,
        WebStorageError::Io(k) => get_io_error_class(k),
        WebStorageError::StorageExceeded => ErrorClass::DomExceptionQuotaExceededError,
    }
}

} // verus!
