//! Domain classifiers for the subsystems whose failures mostly wrap a
//! resource error or a generic boxed cause: scheduled tasks, the cache, and
//! broadcast channels.
//!
//! Resource-wrapping variants here consult only the custom-class hook of the
//! wrapped value - the wrapped value is a resource, and a resource reports
//! its own tag or none.  Generic `Other` causes are reclassified through the
//! full registry.

use vstd::prelude::*;
use crate::tags::ErrorClass;
use crate::registry::{class_or_generic, classify_or_generic};
use crate::value::{ErrorValue, custom_or_generic, try_custom_class_or_generic};

verus! {

/// A failure of the scheduled-task (cron-style) subsystem.
#[derive(Debug, PartialEq, Eq)]
pub enum CronError {
    /// A failure of the backing resource; classified by the wrapped value's
    /// own custom class, if any.
    Resource(Box<ErrorValue>),
    NameExceeded,
    NameInvalid,
    AlreadyExists,
    TooManyCrons,
    InvalidCron,
    InvalidBackoff,
    AcquireError,
    /// Some other wrapped cause, reclassified through the registry.
    Other(Box<ErrorValue>),
}

/// The tag for each scheduled-task failure: validation failures map to the
/// type-error tag.
pub open spec fn cron_class(e: CronError) -> ErrorClass
    decreases e, 0int,
{
    match e {
        CronError::Resource(b) => custom_or_generic(*b),
        CronError::NameExceeded => ErrorClass::TypeError,
        CronError::NameInvalid => ErrorClass::TypeError,
        CronError::AlreadyExists => ErrorClass::TypeError,
        CronError::TooManyCrons => ErrorClass::TypeError,
        CronError::InvalidCron => ErrorClass::TypeError,
        CronError::InvalidBackoff => ErrorClass::TypeError,
        CronError::AcquireError => ErrorClass::GenericError,
        CronError::Other(b) => class_or_generic(*b),
    }
}

/// Classifies a scheduled-task failure.
pub fn get_cron_error_class(e: &CronError) -> (c: ErrorClass)
    ensures
        c == cron_class(*e),
    decreases *e, 0int,
{
    match e {
        CronError::Resource(b) => try_custom_class_or_generic(&**b),
        CronError::NameExceeded => ErrorClass::TypeError,
        CronError::NameInvalid => ErrorClass::TypeError,
        CronError::AlreadyExists => ErrorClass::TypeError,
        CronError::TooManyCrons => ErrorClass::TypeError,
        CronError::InvalidCron => ErrorClass::TypeError,
        CronError::InvalidBackoff => ErrorClass::TypeError,
        CronError::AcquireError => ErrorClass::GenericError,
        CronError::Other(b) => classify_or_generic(&**b),
    }
}

/// A failure of the response cache.
#[derive(Debug, PartialEq, Eq)]
pub enum CacheError {
    /// A failure of the embedded database backend.
    Sqlite,
    /// A background task could not be joined.
    JoinError,
    /// A failure of the backing resource; classified by the wrapped value's
    /// own custom class, if any.
    Resource(Box<ErrorValue>),
    /// Some other wrapped cause, reclassified through the registry.
    Other(Box<ErrorValue>),
    /// An underlying I/O failure; delegated to the OS I/O classifier.
    Io(crate::os_code::IoErrorKind),
}

/// The tag for each cache failure.
pub open spec fn cache_class(e: CacheError) -> ErrorClass
    decreases e, 0int,
{
    match e {
        CacheError::Sqlite => ErrorClass::GenericError,
        CacheError::JoinError => ErrorClass::GenericError,
        CacheError::Resource(b) => custom_or_generic(*b),
        CacheError::Other(b) => class_or_generic(*b),
        CacheError::Io(k) => crate::os_code::io_class(k),
    }
}

/// Classifies a cache failure.
pub fn get_cache_error(e: &CacheError) -> (c: ErrorClass)
    ensures
        c == cache_class(*e),
    decreases *e, 0int,
{
    match e {
        CacheError::Sqlite => ErrorClass::GenericError,
        CacheError::JoinError => ErrorClass::GenericError,
        CacheError::Resource(b) => try_custom_class_or_generic(&**b),
        CacheError::Other(b) => classify_or_generic(&**b),
        CacheError::Io(k) => crate::os_code::get_io_error_class(k),
    }
}

/// A failure of a broadcast channel.
#[derive(Debug, PartialEq, Eq)]
pub enum BroadcastChannelError {
    /// A failure of the backing resource; classified by the wrapped value's
    /// own custom class.  A resource without one yields the generic tag: the
    /// classifier is total and never gives up on a recognized variant.
    Resource(Box<ErrorValue>),
    MpscSendError,
    BroadcastSendError,
    /// Some other wrapped cause, reclassified through the registry.
    Other(Box<ErrorValue>),
}

/// The tag for each broadcast-channel failure.
pub open spec fn broadcast_class(e: BroadcastChannelError) -> ErrorClass
    decreases e, 0int,
{
    match e {
        BroadcastChannelError::Resource(b) => custom_or_generic(*b),
        BroadcastChannelError::MpscSendError => ErrorClass::GenericError,
        BroadcastChannelError::BroadcastSendError => ErrorClass::GenericError,
        BroadcastChannelError::Other(b) => class_or_generic(*b),
    }
}

/// Classifies a broadcast-channel failure.
pub fn get_broadcast_channel_error(e: &BroadcastChannelError) -> (c: ErrorClass)
    ensures
        c == broadcast_class(*e),
    decreases *e, 0int,
{
    match e {
        BroadcastChannelError::Resource(b) => try_custom_class_or_generic(&**b),
        BroadcastChannelError::MpscSendError => ErrorClass::GenericError,
        BroadcastChannelError::BroadcastSendError => ErrorClass::GenericError,
        BroadcastChannelError::Other(b) => classify_or_generic(&**b),
    }
}

} // verus!
