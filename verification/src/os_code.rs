//! The operating-system level leaf classifiers: I/O condition codes and POSIX
//! errno values.
//!
//! Many wrapping subsystems delegate here instead of duplicating the mapping,
//! so these two tables are the most widely shared pieces of the taxonomy.

use vstd::prelude::*;
use crate::tags::ErrorClass;

verus! {

/// The condition reported by a failed OS I/O operation, as the classifier
/// reads it: one of the distinctly modeled codes, or - for platform-reported
/// kinds that carry no distinct code - the descriptive text under which the
/// platform reports the condition.
#[derive(Debug, Clone, PartialEq, Eq)]
pub enum IoErrorKind {
    NotFound,
    PermissionDenied,
    ConnectionRefused,
    ConnectionReset,
    ConnectionAborted,
    NotConnected,
    AddrInUse,
    AddrNotAvailable,
    BrokenPipe,
    AlreadyExists,
    InvalidInput,
    InvalidData,
    TimedOut,
    Interrupted,
    WriteZero,
    UnexpectedEof,
    Other,
    WouldBlock,
    /// A kind known only by its descriptive text.
    Uncommon(String),
}

/// Classification of an I/O kind reported only as descriptive text.  The
/// common conditions are still routed to their dedicated tags; anything else
/// falls back to the generic tag.
pub open spec fn uncommon_kind_class(name: Seq<char>) -> ErrorClass {
    if name == "FilesystemLoop"@ {
        ErrorClass::FilesystemLoop
    } else if name == "IsADirectory"@ {
        ErrorClass::IsADirectory
    } else if name == "NetworkUnreachable"@ {
        ErrorClass::NetworkUnreachable
    } else if name == "NotADirectory"@ {
        ErrorClass::NotADirectory
    } else {
        ErrorClass::GenericError
    }
}

/// The tag for each OS I/O condition.  Note that an invalid-input condition
/// is deliberately mapped to the scripting type-error tag, not to the
/// invalid-data tag.
pub open spec fn io_class(k: IoErrorKind) -> ErrorClass {
    match k {
        IoErrorKind::NotFound => ErrorClass::NotFound,
        IoErrorKind::PermissionDenied => ErrorClass::PermissionDenied,
        IoErrorKind::ConnectionRefused => ErrorClass::ConnectionRefused,
        IoErrorKind::ConnectionReset => ErrorClass::ConnectionReset,
        IoErrorKind::ConnectionAborted => ErrorClass::ConnectionAborted,
        IoErrorKind::NotConnected => ErrorClass::NotConnected,
        IoErrorKind::AddrInUse => ErrorClass::AddrInUse,
        IoErrorKind::AddrNotAvailable => ErrorClass::AddrNotAvailable,
        IoErrorKind::BrokenPipe => ErrorClass::BrokenPipe,
        IoErrorKind::AlreadyExists => ErrorClass::AlreadyExists,
        IoErrorKind::InvalidInput => ErrorClass::TypeError,
        IoErrorKind::InvalidData => ErrorClass::InvalidData,
        IoErrorKind::TimedOut => ErrorClass::TimedOut,
        IoErrorKind::Interrupted => ErrorClass::Interrupted,
        IoErrorKind::WriteZero => ErrorClass::WriteZero,
        IoErrorKind::UnexpectedEof => ErrorClass::UnexpectedEof,
        IoErrorKind::Other => ErrorClass::GenericError,
        IoErrorKind::WouldBlock => ErrorClass::WouldBlock,
        IoErrorKind::Uncommon(name) => uncommon_kind_class(name@),
    }
}

/// Classifies an OS I/O condition.
pub fn get_io_error_class(k: &IoErrorKind) -> (c: ErrorClass)
    ensures
        c == io_class(*k),
{
    match k {
        IoErrorKind::NotFound => ErrorClass::NotFound,
        IoErrorKind::PermissionDenied => ErrorClass::PermissionDenied,
        IoErrorKind::ConnectionRefused => ErrorClass::ConnectionRefused,
        IoErrorKind::ConnectionReset => ErrorClass::ConnectionReset,
        IoErrorKind::ConnectionAborted => ErrorClass::ConnectionAborted,
        IoErrorKind::NotConnected => ErrorClass::NotConnected,
        IoErrorKind::AddrInUse => ErrorClass::AddrInUse,
        IoErrorKind::AddrNotAvailable => ErrorClass::AddrNotAvailable,
        IoErrorKind::BrokenPipe => ErrorClass::BrokenPipe,
        IoErrorKind::AlreadyExists => ErrorClass::AlreadyExists,
        IoErrorKind::InvalidInput => ErrorClass::TypeError,
        IoErrorKind::InvalidData => ErrorClass::InvalidData,
        IoErrorKind::TimedOut => ErrorClass::TimedOut,
        IoErrorKind::Interrupted => ErrorClass::Interrupted,
        IoErrorKind::WriteZero => ErrorClass::WriteZero,
        IoErrorKind::UnexpectedEof => ErrorClass::UnexpectedEof,
        IoErrorKind::Other => ErrorClass::GenericError,
        IoErrorKind::WouldBlock => ErrorClass::WouldBlock,
        IoErrorKind::Uncommon(name) => get_uncommon_kind_class(name),
    }
}

/// Classifies an I/O kind known only by its descriptive text.
pub fn get_uncommon_kind_class(name: &String) -> (c: ErrorClass)
    ensures
        c == uncommon_kind_class(name@),
{
    if *name == "FilesystemLoop".to_owned() {
        ErrorClass::FilesystemLoop
    } else if *name == "IsADirectory".to_owned() {
        ErrorClass::IsADirectory
    } else if *name == "NetworkUnreachable".to_owned() {
        ErrorClass::NetworkUnreachable
    } else if *name == "NotADirectory".to_owned() {
        ErrorClass::NotADirectory
    } else {
        ErrorClass::GenericError
    }
}

/// A POSIX errno value, as far as the classifier distinguishes them: the
/// codes with a dedicated tag, the "unknown errno" marker, and `Other` for
/// every remaining code.
#[derive(Debug, Clone, Copy, PartialEq, Eq, Structural)]
pub enum OsErrno {
    Echild,
    Einval,
    Enoent,
    Enotty,
    Eperm,
    Esrch,
    Eloop,
    Enotdir,
    Enetunreach,
    Eisdir,
    /// Operation not supported.  The runtime's own OS abstraction is not
    /// expected to surface this code, but the classifier stays total and
    /// routes it to its natural tag rather than treating it as unreachable.
    Enotsup,
    UnknownErrno,
    Other,
}

/// The tag for each POSIX errno value.
pub open spec fn errno_class(e: OsErrno) -> ErrorClass {
    match e {
        OsErrno::Echild => ErrorClass::NotFound,
        OsErrno::Einval => ErrorClass::TypeError,
        OsErrno::Enoent => ErrorClass::NotFound,
        OsErrno::Enotty => ErrorClass::BadResource,
        OsErrno::Eperm => ErrorClass::PermissionDenied,
        OsErrno::Esrch => ErrorClass::NotFound,
        OsErrno::Eloop => ErrorClass::FilesystemLoop,
        OsErrno::Enotdir => ErrorClass::NotADirectory,
        OsErrno::Enetunreach => ErrorClass::NetworkUnreachable,
        OsErrno::Eisdir => ErrorClass::IsADirectory,
        OsErrno::Enotsup => ErrorClass::NotSupported,
        OsErrno::UnknownErrno => ErrorClass::GenericError,
        OsErrno::Other => ErrorClass::GenericError,
    }
}

/// Classifies a POSIX errno value.
pub fn get_nix_error_class(e: &OsErrno) -> (c: ErrorClass)
    ensures
        c == errno_class(*e),
{
    match e {
        OsErrno::Echild => ErrorClass::NotFound,
        OsErrno::Einval => ErrorClass::TypeError,
        OsErrno::Enoent => ErrorClass::NotFound,
        OsErrno::Enotty => ErrorClass::BadResource,
        OsErrno::Eperm => ErrorClass::PermissionDenied,
        OsErrno::Esrch => ErrorClass::NotFound,
        OsErrno::Eloop => ErrorClass::FilesystemLoop,
        OsErrno::Enotdir => ErrorClass::NotADirectory,
        OsErrno::Enetunreach => ErrorClass::NetworkUnreachable,
        OsErrno::Eisdir => ErrorClass::IsADirectory,
        OsErrno::Enotsup => ErrorClass::NotSupported,
        OsErrno::UnknownErrno => ErrorClass::GenericError,
        OsErrno::Other => ErrorClass::GenericError,
    }
}

/// Declares nix::errno::Errno, the errno value as the OS bindings report it;
/// opaque here, read only through [`classify_os_errno`].
#[verifier::external_type_specification]
#[verifier::external_body]
pub struct ExNixErrno(nix::errno::Errno);

/// The model of a reported errno value: which of the distinguished codes it
/// is.  A function of the code alone - the conversion below reads nothing
/// else.
pub uninterp spec fn errno_model_of(e: nix::errno::Errno) -> OsErrno;

/// Relies on matching the variants of nix::errno::Errno: each arm only names
/// the code it stands for; codes without a dedicated tag become `Other`.
#[verifier::external_body]
fn errno_model(e: &nix::errno::Errno) -> (m: OsErrno)
    ensures
        m == errno_model_of(*e),
{
    match *e {
        nix::errno::Errno::ECHILD => OsErrno::Echild,
        nix::errno::Errno::EINVAL => OsErrno::Einval,
        nix::errno::Errno::ENOENT => OsErrno::Enoent,
        nix::errno::Errno::ENOTTY => OsErrno::Enotty,
        nix::errno::Errno::EPERM => OsErrno::Eperm,
        nix::errno::Errno::ESRCH => OsErrno::Esrch,
        nix::errno::Errno::ELOOP => OsErrno::Eloop,
        nix::errno::Errno::ENOTDIR => OsErrno::Enotdir,
        nix::errno::Errno::ENETUNREACH => OsErrno::Enetunreach,
        nix::errno::Errno::EISDIR => OsErrno::Eisdir,
        nix::errno::Errno::ENOTSUP => OsErrno::Enotsup,
        nix::errno::Errno::UnknownErrno => OsErrno::UnknownErrno,
        _ => OsErrno::Other,
    }
}

/// Classifies an errno value as the OS reports it: exactly the errno tag
/// table, applied to the code's model.
pub fn classify_os_errno(e: &nix::errno::Errno) -> (c: ErrorClass)
    ensures
        c == errno_class(errno_model_of(*e)),
{
    let m = errno_model(e);
    get_nix_error_class(&m)
}

} // verus!
