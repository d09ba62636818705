//! The classification registry: the single entry point that receives an
//! opaque failure value and dispatches, in a fixed precedence order, to the
//! matching domain classifier.
//!
//! The order is: first the custom/resource-supplied classification hook,
//! then the built-in subsystem checks.  The built-in checks are mutually
//! exclusive by concrete shape, so their order does not affect the result;
//! it is fixed for determinism and ease of auditing.  A value no check
//! recognizes is reported as unclassified - the registry itself never fails.

use vstd::prelude::*;
use crate::tags::ErrorClass;
use crate::os_code::{IoErrorKind, io_class, errno_class, get_io_error_class, get_nix_error_class};
use crate::web::{web_class, compression_class, message_port_class, stream_resource_class,
    blob_class, webstorage_class, get_web_error_class, get_web_compression_error_class,
    get_web_message_port_error_class, get_web_stream_resource_error_class,
    get_web_blob_error_class, get_webstorage_class_name};
use crate::foreign::{dlopen_class, repr_class, dlfcn_class, ffi_static_class, callback_class,
    call_class, get_dlopen_error_class, get_ffi_repr_error_class, get_ffi_dlfcn_error_class,
    get_ffi_static_error_class, get_ffi_callback_error_class, get_ffi_call_error_class};
use crate::kv_store::{kv_class, get_kv_error};
use crate::network::{tls_class, net_class, net_map_class, get_tls_error_class, get_net_error,
    get_net_map_error};
use crate::resources::{cron_class, cache_class, broadcast_class, get_cron_error_class,
    get_cache_error, get_broadcast_channel_error};
use crate::simple::{env_var_class, notify_class, regex_class, serde_json_class, canvas_class,
    get_env_var_error_class, get_notify_error_class, get_regex_error_class,
    get_serde_json_error_class, get_canvas_error};
use crate::value::{ErrorValue, ErrorShape, try_custom_class};

verus! {

/// The classification of a failure value: the value's own custom class if it
/// carries one, otherwise the tag of the matching domain classifier, or
/// `None` for a value of a type no classifier is registered for.
pub open spec fn class_of(e: ErrorValue) -> Option<ErrorClass>
    decreases e, 0int,
{
    match e.custom {
        Some(c) => Some(c),
        None => match e.shape {
            ErrorShape::Gpu => Some(ErrorClass::DomExceptionOperationError),
            ErrorShape::WebSocketNetwork => Some(ErrorClass::DomExceptionNetworkError),
            ErrorShape::Web(w) => Some(web_class(w)),
            ErrorShape::Compression(c) => Some(compression_class(c)),
            ErrorShape::MessagePort(m) => Some(message_port_class(m)),
            ErrorShape::StreamResource(s) => Some(stream_resource_class(s)),
            ErrorShape::Blob(b) => Some(blob_class(b)),
            ErrorShape::FfiIr => Some(ErrorClass::TypeError),
            ErrorShape::FfiRepr(r) => Some(repr_class(r)),
            ErrorShape::FfiDlfcn(d) => Some(dlfcn_class(d)),
            ErrorShape::FfiStatic(s) => Some(ffi_static_class(s)),
            ErrorShape::FfiCallback(cb) => Some(callback_class(cb)),
            ErrorShape::FfiCall(c) => Some(call_class(c)),
            ErrorShape::Tls(t) => Some(tls_class(t)),
            ErrorShape::Cron(c) => Some(cron_class(c)),
            ErrorShape::Canvas(c) => Some(canvas_class(c)),
            ErrorShape::Cache(c) => Some(cache_class(c)),
            ErrorShape::Kv(k) => Some(kv_class(k)),
            ErrorShape::Net(n) => Some(net_class(n)),
            ErrorShape::NetMap(m) => Some(net_map_class(m)),
            ErrorShape::BroadcastChannel(b) => Some(broadcast_class(b)),
            ErrorShape::WebStorage(w) => Some(webstorage_class(w)),
            ErrorShape::UrlPattern => Some(ErrorClass::TypeError),
            ErrorShape::Dlopen(d) => Some(dlopen_class(d)),
            ErrorShape::Hyper => Some(ErrorClass::Http),
            ErrorShape::HyperUtil => Some(ErrorClass::Http),
            ErrorShape::HyperLegacy => Some(ErrorClass::Http),
            ErrorShape::Canceled => Some(io_class(IoErrorKind::Interrupted)),
            ErrorShape::EnvVar(v) => Some(env_var_class(v)),
            ErrorShape::Io(k) => Some(io_class(k)),
            ErrorShape::ModuleResolution => Some(ErrorClass::UriError),
            ErrorShape::Notify(n) => Some(notify_class(n)),
            ErrorShape::Regex(r) => Some(regex_class(r)),
            ErrorShape::SerdeJson(s) => Some(serde_json_class(s)),
            ErrorShape::UrlParse => Some(ErrorClass::UriError),
            ErrorShape::KvSqliteBackend => Some(ErrorClass::TypeError),
            ErrorShape::OsCode(o) => Some(errno_class(o)),
            ErrorShape::Unknown => None,
        },
    }
}

/// The classification of a wrapped cause: its tag where one is found, the
/// generic tag where the cause itself is unclassified.
pub open spec fn class_or_generic(e: ErrorValue) -> ErrorClass
    decreases e, 1int,
{
    match class_of(e) {
        Some(c) => c,
        None => ErrorClass::GenericError,
    }
}

/// Classifies an opaque failure value.
///
/// The custom/resource-supplied classification is consulted first; the fixed
/// sequence of built-in subsystem checks follows; a value nothing recognizes
/// yields `None`.  Total: never fails, whatever the input.
pub fn classify(e: &ErrorValue) -> (r: Option<ErrorClass>)
    ensures
        r == class_of(*e),
    decreases *e, 0int,
{
    match try_custom_class(e) {
        Some(c) => Some(c),
        None => match &e.shape {
            ErrorShape::Gpu => Some(ErrorClass::DomExceptionOperationError),
            ErrorShape::WebSocketNetwork => Some(ErrorClass::DomExceptionNetworkError),
            ErrorShape::Web(w) => Some(get_web_error_class(w)),
            ErrorShape::Compression(c) => Some(get_web_compression_error_class(c)),
            ErrorShape::MessagePort(m) => Some(get_web_message_port_error_class(m)),
            ErrorShape::StreamResource(s) => Some(get_web_stream_resource_error_class(s)),
            ErrorShape::Blob(b) => Some(get_web_blob_error_class(b)),
            ErrorShape::FfiIr => Some(ErrorClass::TypeError),
            ErrorShape::FfiRepr(r) => Some(get_ffi_repr_error_class(r)),
            ErrorShape::FfiDlfcn(d) => Some(get_ffi_dlfcn_error_class(d)),
            ErrorShape::FfiStatic(s) => Some(get_ffi_static_error_class(s)),
            ErrorShape::FfiCallback(cb) => Some(get_ffi_callback_error_class(cb)),
            ErrorShape::FfiCall(c) => Some(get_ffi_call_error_class(c)),
            ErrorShape::Tls(t) => Some(get_tls_error_class(t)),
            ErrorShape::Cron(c) => Some(get_cron_error_class(c)),
            ErrorShape::Canvas(c) => Some(get_canvas_error(c)),
            ErrorShape::Cache(c) => Some(get_cache_error(c)),
            ErrorShape::Kv(k) => Some(get_kv_error(k)),
            ErrorShape::Net(n) => Some(get_net_error(n)),
            ErrorShape::NetMap(m) => Some(get_net_map_error(m)),
            ErrorShape::BroadcastChannel(b) => Some(get_broadcast_channel_error(b)),
            ErrorShape::WebStorage(w) => Some(get_webstorage_class_name(w)),
            ErrorShape::UrlPattern => Some(ErrorClass::TypeError),
            ErrorShape::Dlopen(d) => Some(get_dlopen_error_class(d)),
            ErrorShape::Hyper => Some(ErrorClass::Http),
            ErrorShape::HyperUtil => Some(ErrorClass::Http),
            ErrorShape::HyperLegacy => Some(ErrorClass::Http),
            ErrorShape::Canceled => Some(get_io_error_class(&IoErrorKind::Interrupted)),
            ErrorShape::EnvVar(v) => Some(get_env_var_error_class(v)),
            ErrorShape::Io(k) => Some(get_io_error_class(k)),
            ErrorShape::ModuleResolution => Some(ErrorClass::UriError),
            ErrorShape::Notify(n) => Some(get_notify_error_class(n)),
            ErrorShape::Regex(r) => Some(get_regex_error_class(r)),
            ErrorShape::SerdeJson(s) => Some(get_serde_json_error_class(s)),
            ErrorShape::UrlParse => Some(ErrorClass::UriError),
            ErrorShape::KvSqliteBackend => Some(ErrorClass::TypeError),
            ErrorShape::OsCode(o) => Some(get_nix_error_class(o)),
            ErrorShape::Unknown => None,
        },
    }
}

/// Classifies a wrapped cause, falling back to the generic tag where the
/// cause itself is unclassified.
pub fn classify_or_generic(e: &ErrorValue) -> (c: ErrorClass)
    ensures
        c == class_or_generic(*e),
    decreases *e, 1int,
{
    match classify(e) {
        Some(c) => c,
        None => ErrorClass::GenericError,
    }
}

/// Classifies an opaque failure value and renders the tag as the identifier
/// string the embedding engine consumes.
pub fn get_error_class_name(e: &ErrorValue) -> (r: Option<&'static str>)
    ensures
        match (r, class_of(*e)) {
            (Some(s), Some(c)) => s@ == c.text(),
            (None, None) => true,
            _ => false,
        },
{
    match classify(e) {
        Some(c) => Some(c.as_str()),
        None => None,
    }
}

} // verus!
