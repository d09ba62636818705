//! The classifier's laws, stated and proved once over the whole registry:
//! totality, determinism, precedence of the custom hook, and delegation of
//! wrapped OS conditions.

use vstd::prelude::*;
use crate::tags::ErrorClass;
use crate::os_code::{IoErrorKind, io_class};
use crate::foreign::ReprError;
use crate::kv_store::KvError;
use crate::network::NetError;
use crate::registry::{class_of, class_or_generic};
use crate::value::{ErrorValue, ErrorShape};

verus! {

/// Totality: a value is unclassified exactly when it carries no custom class
/// and its shape is one no classifier is registered for.  In particular,
/// every variant of every known domain type yields a tag - the classifier
/// never gives up on a value it recognizes, and it never fails.
pub proof fn lemma_totality(e: ErrorValue)
    ensures
        class_of(e) is None <==> (e.custom is None && e.shape is Unknown),
{
}

/// Determinism: classification is a pure function of the value - equivalent
/// values always yield the same result, however often they are classified.
pub proof fn lemma_determinism(a: ErrorValue, b: ErrorValue)
    requires
        a == b,
    ensures
        class_of(a) == class_of(b),
{
}

/// Precedence: a value that carries a custom classification receives it,
/// whatever its shape - the custom/resource hook is consulted before every
/// built-in check and wins.
pub proof fn lemma_custom_class_precedence(e: ErrorValue)
    requires
        e.custom is Some,
    ensures
        class_of(e) == e.custom,
{
}

/// Delegation: a networking failure wrapping an OS I/O condition classifies
/// exactly as the OS I/O classifier maps that condition.
pub proof fn lemma_net_delegates_to_io(k: IoErrorKind)
    ensures
        class_of((ErrorValue { custom: None, shape: ErrorShape::Net(NetError::Io(k)) }))
            == Some(io_class(k)),
{
}

/// Delegation: a key-value store failure wrapping an OS I/O condition
/// classifies exactly as the OS I/O classifier maps that condition.
pub proof fn lemma_kv_delegates_to_io(k: IoErrorKind)
    ensures
        class_of((ErrorValue { custom: None, shape: ErrorShape::Kv(KvError::Io(k)) }))
            == Some(io_class(k)),
{
}

/// Delegation: a foreign-function permission failure wrapping any cause
/// classifies as the cause itself does, with the generic tag where the cause
/// is unclassified.
pub proof fn lemma_ffi_permission_delegates(b: Box<ErrorValue>)
    ensures
        class_of(
            (ErrorValue { custom: None, shape: ErrorShape::FfiRepr(ReprError::Permission(b)) }),
        ) == Some(class_or_generic(*b)),
{
}

/// An OS permission-denied condition wrapped inside a networking failure is
/// reported as permission denied.
pub proof fn lemma_permission_denied_through_net()
    ensures
        class_of(
            (ErrorValue {
                custom: None,
                shape: ErrorShape::Net(NetError::Io(IoErrorKind::PermissionDenied)),
            }),
        ) == Some(ErrorClass::PermissionDenied),
{
}

/// An OS permission-denied condition wrapped inside a foreign-function
/// failure is reported as permission denied.
pub proof fn lemma_permission_denied_through_ffi(b: Box<ErrorValue>)
    requires
        *b == (ErrorValue { custom: None, shape: ErrorShape::Io(IoErrorKind::PermissionDenied) }),
    ensures
        class_of(
            (ErrorValue { custom: None, shape: ErrorShape::FfiRepr(ReprError::Permission(b)) }),
        ) == Some(ErrorClass::PermissionDenied),
{
    lemma_ffi_permission_delegates(b);
    assert(class_of(*b) == Some(ErrorClass::PermissionDenied));
}

/// An OS permission-denied condition wrapped inside a key-value store
/// failure is reported as permission denied.
pub proof fn lemma_permission_denied_through_kv()
    ensures
        class_of(
            (ErrorValue {
                custom: None,
                shape: ErrorShape::Kv(KvError::Io(IoErrorKind::PermissionDenied)),
            }),
        ) == Some(ErrorClass::PermissionDenied),
{
}

} // verus!
