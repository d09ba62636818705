//! Domain classifiers for networking: TLS failures, socket and listener
//! lifecycle failures, DNS states, and the stream-mapping layer.

use vstd::prelude::*;
use crate::tags::ErrorClass;
use crate::os_code::{IoErrorKind, io_class, get_io_error_class};
use crate::registry::{class_or_generic, classify_or_generic};
use crate::value::ErrorValue;

verus! {

/// A TLS failure.
#[derive(Debug, Clone, PartialEq, Eq)]
pub enum TlsError {
    /// A failure inside the TLS library itself.
    Rustls,
    /// A certificate file could not be read into the store; delegated to the
    /// OS I/O classifier.
    UnableAddPemFileToCert(IoErrorKind),
    CertInvalid,
    CertsNotFound,
    KeysNotFound,
    KeyDecode,
}

/// The tag for each TLS failure: certificate and key problems are invalid
/// data, certificate-store I/O is delegated, and everything else is generic.
pub open spec fn tls_class(e: TlsError) -> ErrorClass {
    match e {
        TlsError::Rustls => ErrorClass::GenericError,
        TlsError::UnableAddPemFileToCert(k) => io_class(k),
        TlsError::CertInvalid => ErrorClass::InvalidData,
        TlsError::CertsNotFound => ErrorClass::InvalidData,
        TlsError::KeysNotFound => ErrorClass::InvalidData,
        TlsError::KeyDecode => ErrorClass::InvalidData,
    }
}

/// Classifies a TLS failure.
pub fn get_tls_error_class(e: &TlsError) -> (c: ErrorClass)
    ensures
        c == tls_class(*e),
{
    match e {
        TlsError::Rustls => ErrorClass::GenericError,
        TlsError::UnableAddPemFileToCert(k) => get_io_error_class(k),
        TlsError::CertInvalid => ErrorClass::InvalidData,
        TlsError::CertsNotFound => ErrorClass::InvalidData,
        TlsError::KeysNotFound => ErrorClass::InvalidData,
        TlsError::KeyDecode => ErrorClass::InvalidData,
    }
}

/// A failure of the layer that maps raw streams to resources.
#[derive(Debug, Clone, PartialEq, Eq)]
pub enum NetMapError {
    /// An underlying I/O failure; delegated to the OS I/O classifier.
    Io(IoErrorKind),
    NoResources,
}

/// The tag for each stream-mapping failure.
pub open spec fn net_map_class(e: NetMapError) -> ErrorClass {
    match e {
        NetMapError::Io(k) => io_class(k),
        NetMapError::NoResources => ErrorClass::GenericError,
    }
}

/// Classifies a stream-mapping failure.
pub fn get_net_map_error(e: &NetMapError) -> (c: ErrorClass)
    ensures
        c == net_map_class(*e),
{
    match e {
        NetMapError::Io(k) => get_io_error_class(k),
        NetMapError::NoResources => ErrorClass::GenericError,
    }
}

/// A networking failure.
#[derive(Debug, PartialEq, Eq)]
pub enum NetError {
    ListenerClosed,
    ListenerBusy,
    SocketClosed,
    SocketClosedNotConnected,
    SocketBusy,
    /// An underlying I/O failure; delegated to the OS I/O classifier.
    Io(IoErrorKind),
    AcceptTaskOngoing,
    /// A root-certificate store failure, reclassified through the registry.
    RootCertStore(Box<ErrorValue>),
    /// A permission check failed; the wrapped cause is reclassified.
    Permission(Box<ErrorValue>),
    /// A failure of the backing resource, reclassified through the registry.
    Resource(Box<ErrorValue>),
    NoResolvedAddress,
    AddrParse,
    /// An underlying stream-mapping failure.
    Mapping(NetMapError),
    /// The operation was canceled; reported as an interrupted I/O condition.
    Canceled,
    DnsNotFound,
    DnsNotConnected,
    DnsTimedOut,
    Dns,
    UnsupportedRecordType,
    InvalidUtf8,
    UnexpectedKeyType,
    InvalidHostname,
    TcpStreamBusy,
    Rustls,
    /// An underlying TLS failure.
    Tls(TlsError),
    ListenTlsRequiresKey,
    Reunite,
}

/// The tag for each networking failure.
pub open spec fn net_class(e: NetError) -> ErrorClass
    decreases e, 0int,
{
    match e {
        NetError::ListenerClosed => ErrorClass::BadResource,
        NetError::ListenerBusy => ErrorClass::Busy,
        NetError::SocketClosed => ErrorClass::BadResource,
        NetError::SocketClosedNotConnected => ErrorClass::NotConnected,
        NetError::SocketBusy => ErrorClass::Busy,
        NetError::Io(k) => io_class(k),
        NetError::AcceptTaskOngoing => ErrorClass::Busy,
        NetError::RootCertStore(b) => class_or_generic(*b),
        NetError::Permission(b) => class_or_generic(*b),
        NetError::Resource(b) => class_or_generic(*b),
        NetError::NoResolvedAddress => ErrorClass::GenericError,
        NetError::AddrParse => ErrorClass::GenericError,
        NetError::Mapping(m) => net_map_class(m),
        NetError::Canceled => io_class(IoErrorKind::Interrupted),
        NetError::DnsNotFound => ErrorClass::NotFound,
        NetError::DnsNotConnected => ErrorClass::NotConnected,
        NetError::DnsTimedOut => ErrorClass::TimedOut,
        NetError::Dns => ErrorClass::GenericError,
        NetError::UnsupportedRecordType => ErrorClass::NotSupported,
        NetError::InvalidUtf8 => ErrorClass::InvalidData,
        NetError::UnexpectedKeyType => ErrorClass::GenericError,
        NetError::InvalidHostname => ErrorClass::TypeError,
        NetError::TcpStreamBusy => ErrorClass::Busy,
        NetError::Rustls => ErrorClass::GenericError,
        NetError::Tls(t) => tls_class(t),
        NetError::ListenTlsRequiresKey => ErrorClass::InvalidData,
        NetError::Reunite => ErrorClass::GenericError,
    }
}

/// Classifies a networking failure.
pub fn get_net_error(e: &NetError) -> (c: ErrorClass)
    ensures
        c == net_class(*e),
    decreases *e, 0int,
{
    match e {
        NetError::ListenerClosed => ErrorClass::BadResource,
        NetError::ListenerBusy => ErrorClass::Busy,
        NetError::SocketClosed => ErrorClass::BadResource,
        NetError::SocketClosedNotConnected => ErrorClass::NotConnected,
        NetError::SocketBusy => ErrorClass::Busy,
        NetError::Io(k) => get_io_error_class(k),
        NetError::AcceptTaskOngoing => ErrorClass::Busy,
        NetError::RootCertStore(b) => classify_or_generic(&**b),
        NetError::Permission(b) => classify_or_generic(&**b),
        NetError::Resource(b) => classify_or_generic(&**b),
        NetError::NoResolvedAddress => ErrorClass::GenericError,
        NetError::AddrParse => ErrorClass::GenericError,
        NetError::Mapping(m) => get_net_map_error(m),
        NetError::Canceled => get_io_error_class(&IoErrorKind::Interrupted),
        NetError::DnsNotFound => ErrorClass::NotFound,
        NetError::DnsNotConnected => ErrorClass::NotConnected,
        NetError::DnsTimedOut => ErrorClass::TimedOut,
        NetError::Dns => ErrorClass::GenericError,
        NetError::UnsupportedRecordType => ErrorClass::NotSupported,
        NetError::InvalidUtf8 => ErrorClass::InvalidData,
        NetError::UnexpectedKeyType => ErrorClass::GenericError,
        NetError::InvalidHostname => ErrorClass::TypeError,
        NetError::TcpStreamBusy => ErrorClass::Busy,
        NetError::Rustls => ErrorClass::GenericError,
        NetError::Tls(t) => get_tls_error_class(t),
        NetError::ListenTlsRequiresKey => ErrorClass::InvalidData,
        NetError::Reunite => ErrorClass::GenericError,
    }
}

} // verus!
