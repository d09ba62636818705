//! The opaque error value as the registry receives it, and the
//! custom-classification hook.

use vstd::prelude::*;
use crate::tags::ErrorClass;
use crate::os_code::{IoErrorKind, OsErrno};
use crate::web::{WebError, CompressionError, MessagePortError, StreamResourceError, BlobError,
    WebStorageError};
use crate::foreign::{DlopenError, ReprError, DlfcnError, StaticError, CallbackError, CallError};
use crate::kv_store::KvError;
use crate::network::{TlsError, NetError, NetMapError};
use crate::resources::{CronError, CacheError, BroadcastChannelError};
use crate::simple::{EnvVarError, NotifyError, RegexError, SerdeJsonError, CanvasError};

verus! {

/// The concrete shape of a failure value: which subsystem produced it and,
/// for the recognized subsystems, the structure the classifier reads.
/// `Unknown` stands for a value of a type no classifier is registered for.
///
/// Subsystems plug in here one variant at a time; existing variants are
/// never touched when one is added.
#[derive(Debug, PartialEq, Eq)]
pub enum ErrorShape {
    /// Recognized by the GPU subsystem's own classifier.
    Gpu,
    /// Recognized by the websocket subsystem's network-error naming.
    WebSocketNetwork,
    Web(WebError),
    Compression(CompressionError),
    MessagePort(MessagePortError),
    StreamResource(StreamResourceError),
    Blob(BlobError),
    /// A foreign-value lowering failure: always a type error.
    FfiIr,
    FfiRepr(ReprError),
    FfiDlfcn(DlfcnError),
    FfiStatic(StaticError),
    FfiCallback(CallbackError),
    FfiCall(CallError),
    Tls(TlsError),
    Cron(CronError),
    Canvas(CanvasError),
    Cache(CacheError),
    Kv(KvError),
    Net(NetError),
    NetMap(NetMapError),
    BroadcastChannel(BroadcastChannelError),
    WebStorage(WebStorageError),
    /// A URL-pattern failure: always a type error.
    UrlPattern,
    Dlopen(DlopenError),
    /// An HTTP transport failure.
    Hyper,
    /// An HTTP client transport failure.
    HyperUtil,
    /// An HTTP transport failure of the legacy client.
    HyperLegacy,
    /// An async operation was canceled; reported as an interrupted I/O
    /// condition.
    Canceled,
    EnvVar(EnvVarError),
    Io(IoErrorKind),
    /// A module-specifier resolution failure: always a URI error.
    ModuleResolution,
    Notify(NotifyError),
    Regex(RegexError),
    SerdeJson(SerdeJsonError),
    /// A URL parse failure: always a URI error.
    UrlParse,
    /// A key-value embedded-database backend failure: always a type error.
    KvSqliteBackend,
    OsCode(OsErrno),
    /// A value of a type with no registered classifier.
    Unknown,
}

/// An opaque failure value: its concrete shape, and the classification, if
/// any, that the value itself carries.  Any resource may self-report a tag;
/// the registry consults that report before every built-in check.
#[derive(Debug, PartialEq, Eq)]
pub struct ErrorValue {
    /// The tag the value reports through the custom-class hook, if any.
    pub custom: Option<ErrorClass>,
    /// The concrete subsystem shape of the value.
    pub shape: ErrorShape,
}

impl ErrorValue {
    /// A failure value that carries no custom classification.
    pub fn of_shape(shape: ErrorShape) -> (e: ErrorValue)
        ensures
            e == (ErrorValue { custom: None, shape }),
    {
        ErrorValue { custom: None, shape }
    }

    /// A failure value that self-reports the given tag.
    pub fn with_custom(class: ErrorClass, shape: ErrorShape) -> (e: ErrorValue)
        ensures
            e == (ErrorValue { custom: Some(class), shape }),
    {
        ErrorValue { custom: Some(class), shape }
    }
}

/// The custom/resource classification hook: the tag the value itself
/// carries, if any.  Consulted before every built-in check, and separately
/// wherever a domain classifier unwraps a resource.
pub fn try_custom_class(e: &ErrorValue) -> (r: Option<ErrorClass>)
    ensures
        r == e.custom,
{
    e.custom
}

/// The custom class of a wrapped resource value, or the generic tag when the
/// resource reports none.
pub open spec fn custom_or_generic(e: ErrorValue) -> ErrorClass {
    match e.custom {
        Some(c) => c,
        None => ErrorClass::GenericError,
    }
}

/// Classifies a wrapped resource value by its custom class alone.
pub fn try_custom_class_or_generic(e: &ErrorValue) -> (c: ErrorClass)
    ensures
        c == custom_or_generic(*e),
{
    match try_custom_class(e) {
        Some(c) => c,
        None => ErrorClass::GenericError,
    }
}

} // verus!
