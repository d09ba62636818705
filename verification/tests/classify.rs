use errclass::foreign::{CallError, CallbackError, DlfcnError, DlopenError, ReprError, StaticError};
use errclass::kv_store::{KvCheckError, KvError, KvMutationError};
use errclass::network::{NetError, NetMapError, TlsError};
use errclass::os_code::{IoErrorKind, OsErrno};
use errclass::registry::{classify, classify_or_generic, get_error_class_name};
use errclass::resources::{BroadcastChannelError, CacheError, CronError};
use errclass::simple::{CanvasError, EnvVarError, NotifyError, RegexError, SerdeJsonError};
use errclass::tags::ErrorClass;
use errclass::value::{try_custom_class, ErrorShape, ErrorValue};
use errclass::web::{
    BlobError, CompressionError, MessagePortError, StreamResourceError, WebError, WebStorageError,
};

fn tag_of(shape: ErrorShape) -> Option<ErrorClass> {
    classify(&ErrorValue::of_shape(shape))
}

fn assert_all_classified(shapes: Vec<ErrorShape>) {
    for shape in shapes {
        let e = ErrorValue::of_shape(shape);
        let r = classify(&e);
        assert!(r.is_some(), "left unclassified: {:?}", e);
    }
}

#[test]
fn totality_web() {
    assert_all_classified(vec![
        ErrorShape::Web(WebError::Base64Decode),
        ErrorShape::Web(WebError::InvalidEncodingLabel),
        ErrorShape::Web(WebError::BufferTooLong),
        ErrorShape::Web(WebError::ValueTooLarge),
        ErrorShape::Web(WebError::BufferTooSmall),
        ErrorShape::Web(WebError::DataInvalid),
        ErrorShape::Web(WebError::DataError),
        ErrorShape::Compression(CompressionError::UnsupportedFormat),
        ErrorShape::Compression(CompressionError::ResourceClosed),
        ErrorShape::Compression(CompressionError::IoTypeError),
        ErrorShape::Compression(CompressionError::Io(IoErrorKind::TimedOut)),
        ErrorShape::MessagePort(MessagePortError::InvalidTransfer),
        ErrorShape::MessagePort(MessagePortError::NotReady),
        ErrorShape::MessagePort(MessagePortError::TransferSelf),
        ErrorShape::MessagePort(MessagePortError::Canceled),
        ErrorShape::MessagePort(MessagePortError::Resource(Box::new(ErrorValue::of_shape(
            ErrorShape::Unknown,
        )))),
        ErrorShape::StreamResource(StreamResourceError::Canceled),
        ErrorShape::StreamResource(StreamResourceError::Js),
        ErrorShape::Blob(BlobError::BlobPartNotFound),
        ErrorShape::Blob(BlobError::SizeLargerThanBlobPart),
        ErrorShape::Blob(BlobError::BlobUrlsNotSupported),
        ErrorShape::Blob(BlobError::Url),
        ErrorShape::WebStorage(WebStorageError::ContextNotSupported),
        ErrorShape::WebStorage(WebStorageError::Sqlite),
        ErrorShape::WebStorage(WebStorageError::Io(IoErrorKind::NotFound)),
        ErrorShape::WebStorage(WebStorageError::StorageExceeded),
    ]);
}

#[test]
fn totality_ffi() {
    let unknown = || Box::new(ErrorValue::of_shape(ErrorShape::Unknown));
    assert_all_classified(vec![
        ErrorShape::FfiIr,
        ErrorShape::FfiRepr(ReprError::InvalidOffset),
        ErrorShape::FfiRepr(ReprError::InvalidArrayBuffer),
        ErrorShape::FfiRepr(ReprError::DestinationLengthTooShort),
        ErrorShape::FfiRepr(ReprError::InvalidCString),
        ErrorShape::FfiRepr(ReprError::CStringTooLong),
        ErrorShape::FfiRepr(ReprError::InvalidBool),
        ErrorShape::FfiRepr(ReprError::InvalidU8),
        ErrorShape::FfiRepr(ReprError::InvalidI8),
        ErrorShape::FfiRepr(ReprError::InvalidU16),
        ErrorShape::FfiRepr(ReprError::InvalidI16),
        ErrorShape::FfiRepr(ReprError::InvalidU32),
        ErrorShape::FfiRepr(ReprError::InvalidI32),
        ErrorShape::FfiRepr(ReprError::InvalidU64),
        ErrorShape::FfiRepr(ReprError::InvalidI64),
        ErrorShape::FfiRepr(ReprError::InvalidF32),
        ErrorShape::FfiRepr(ReprError::InvalidF64),
        ErrorShape::FfiRepr(ReprError::InvalidPointer),
        ErrorShape::FfiRepr(ReprError::Permission(unknown())),
        ErrorShape::FfiDlfcn(DlfcnError::RegisterSymbol),
        ErrorShape::FfiDlfcn(DlfcnError::Dlopen),
        ErrorShape::FfiDlfcn(DlfcnError::Permission(unknown())),
        ErrorShape::FfiDlfcn(DlfcnError::Other(unknown())),
        ErrorShape::FfiStatic(StaticError::Dlfcn(DlfcnError::Dlopen)),
        ErrorShape::FfiStatic(StaticError::InvalidTypeVoid),
        ErrorShape::FfiStatic(StaticError::InvalidTypeStruct),
        ErrorShape::FfiStatic(StaticError::Resource(unknown())),
        ErrorShape::FfiCallback(CallbackError::Resource(unknown())),
        ErrorShape::FfiCallback(CallbackError::Other(unknown())),
        ErrorShape::FfiCallback(CallbackError::Permission(unknown())),
        ErrorShape::FfiCall(CallError::Ir),
        ErrorShape::FfiCall(CallError::NonblockingCallFailure),
        ErrorShape::FfiCall(CallError::InvalidSymbol),
        ErrorShape::FfiCall(CallError::Permission(unknown())),
        ErrorShape::FfiCall(CallError::Callback(CallbackError::Other(unknown()))),
        ErrorShape::Dlopen(DlopenError::NullCharacter),
        ErrorShape::Dlopen(DlopenError::OpeningLibrary(IoErrorKind::NotFound)),
        ErrorShape::Dlopen(DlopenError::SymbolGetting(IoErrorKind::Other)),
        ErrorShape::Dlopen(DlopenError::AddrNotMatchingDll(IoErrorKind::Other)),
        ErrorShape::Dlopen(DlopenError::NullSymbol),
    ]);
}

#[test]
fn totality_kv() {
    let unknown = || Box::new(ErrorValue::of_shape(ErrorShape::Unknown));
    assert_all_classified(vec![
        ErrorShape::Kv(KvError::DatabaseHandler(unknown())),
        ErrorShape::Kv(KvError::Resource(unknown())),
        ErrorShape::Kv(KvError::Kv(unknown())),
        ErrorShape::Kv(KvError::TooManyRanges),
        ErrorShape::Kv(KvError::TooManyEntries),
        ErrorShape::Kv(KvError::TooManyChecks),
        ErrorShape::Kv(KvError::TooManyMutations),
        ErrorShape::Kv(KvError::TooManyKeys),
        ErrorShape::Kv(KvError::InvalidLimit),
        ErrorShape::Kv(KvError::InvalidBoundaryKey),
        ErrorShape::Kv(KvError::KeyTooLargeToRead),
        ErrorShape::Kv(KvError::KeyTooLargeToWrite),
        ErrorShape::Kv(KvError::TotalMutationTooLarge),
        ErrorShape::Kv(KvError::TotalKeyTooLarge),
        ErrorShape::Kv(KvError::Io(IoErrorKind::WouldBlock)),
        ErrorShape::Kv(KvError::QueueMessageNotFound),
        ErrorShape::Kv(KvError::StartKeyNotInKeyspace),
        ErrorShape::Kv(KvError::EndKeyNotInKeyspace),
        ErrorShape::Kv(KvError::StartKeyGreaterThanEndKey),
        ErrorShape::Kv(KvError::InvalidCheck(KvCheckError::InvalidVersionstamp)),
        ErrorShape::Kv(KvError::InvalidCheck(KvCheckError::Io(IoErrorKind::Other))),
        ErrorShape::Kv(KvError::InvalidMutation(KvMutationError::BigInt)),
        ErrorShape::Kv(KvError::InvalidMutation(KvMutationError::Io(IoErrorKind::Other))),
        ErrorShape::Kv(KvError::InvalidMutation(KvMutationError::InvalidMutationWithValue)),
        ErrorShape::Kv(KvError::InvalidMutation(KvMutationError::InvalidMutationWithoutValue)),
        ErrorShape::Kv(KvError::InvalidEnqueue(IoErrorKind::Other)),
        ErrorShape::Kv(KvError::EmptyKey),
        ErrorShape::Kv(KvError::ValueTooLarge),
        ErrorShape::Kv(KvError::EnqueuePayloadTooLarge),
        ErrorShape::Kv(KvError::InvalidCursor),
        ErrorShape::Kv(KvError::CursorOutOfBounds),
        ErrorShape::Kv(KvError::InvalidRange),
        ErrorShape::KvSqliteBackend,
    ]);
}

#[test]
fn totality_net() {
    let unknown = || Box::new(ErrorValue::of_shape(ErrorShape::Unknown));
    assert_all_classified(vec![
        ErrorShape::Net(NetError::ListenerClosed),
        ErrorShape::Net(NetError::ListenerBusy),
        ErrorShape::Net(NetError::SocketClosed),
        ErrorShape::Net(NetError::SocketClosedNotConnected),
        ErrorShape::Net(NetError::SocketBusy),
        ErrorShape::Net(NetError::Io(IoErrorKind::ConnectionReset)),
        ErrorShape::Net(NetError::AcceptTaskOngoing),
        ErrorShape::Net(NetError::RootCertStore(unknown())),
        ErrorShape::Net(NetError::Permission(unknown())),
        ErrorShape::Net(NetError::Resource(unknown())),
        ErrorShape::Net(NetError::NoResolvedAddress),
        ErrorShape::Net(NetError::AddrParse),
        ErrorShape::Net(NetError::Mapping(NetMapError::Io(IoErrorKind::Other))),
        ErrorShape::Net(NetError::Mapping(NetMapError::NoResources)),
        ErrorShape::Net(NetError::Canceled),
        ErrorShape::Net(NetError::DnsNotFound),
        ErrorShape::Net(NetError::DnsNotConnected),
        ErrorShape::Net(NetError::DnsTimedOut),
        ErrorShape::Net(NetError::Dns),
        ErrorShape::Net(NetError::UnsupportedRecordType),
        ErrorShape::Net(NetError::InvalidUtf8),
        ErrorShape::Net(NetError::UnexpectedKeyType),
        ErrorShape::Net(NetError::InvalidHostname),
        ErrorShape::Net(NetError::TcpStreamBusy),
        ErrorShape::Net(NetError::Rustls),
        ErrorShape::Net(NetError::Tls(TlsError::Rustls)),
        ErrorShape::Net(NetError::ListenTlsRequiresKey),
        ErrorShape::Net(NetError::Reunite),
        ErrorShape::NetMap(NetMapError::Io(IoErrorKind::BrokenPipe)),
        ErrorShape::NetMap(NetMapError::NoResources),
        ErrorShape::Tls(TlsError::Rustls),
        ErrorShape::Tls(TlsError::UnableAddPemFileToCert(IoErrorKind::NotFound)),
        ErrorShape::Tls(TlsError::CertInvalid),
        ErrorShape::Tls(TlsError::CertsNotFound),
        ErrorShape::Tls(TlsError::KeysNotFound),
        ErrorShape::Tls(TlsError::KeyDecode),
    ]);
}

#[test]
fn totality_resources_and_simple() {
    let unknown = || Box::new(ErrorValue::of_shape(ErrorShape::Unknown));
    assert_all_classified(vec![
        ErrorShape::Gpu,
        ErrorShape::WebSocketNetwork,
        ErrorShape::Cron(CronError::Resource(unknown())),
        ErrorShape::Cron(CronError::NameExceeded),
        ErrorShape::Cron(CronError::NameInvalid),
        ErrorShape::Cron(CronError::AlreadyExists),
        ErrorShape::Cron(CronError::TooManyCrons),
        ErrorShape::Cron(CronError::InvalidCron),
        ErrorShape::Cron(CronError::InvalidBackoff),
        ErrorShape::Cron(CronError::AcquireError),
        ErrorShape::Cron(CronError::Other(unknown())),
        ErrorShape::Cache(CacheError::Sqlite),
        ErrorShape::Cache(CacheError::JoinError),
        ErrorShape::Cache(CacheError::Resource(unknown())),
        ErrorShape::Cache(CacheError::Other(unknown())),
        ErrorShape::Cache(CacheError::Io(IoErrorKind::AlreadyExists)),
        ErrorShape::BroadcastChannel(BroadcastChannelError::Resource(unknown())),
        ErrorShape::BroadcastChannel(BroadcastChannelError::MpscSendError),
        ErrorShape::BroadcastChannel(BroadcastChannelError::BroadcastSendError),
        ErrorShape::BroadcastChannel(BroadcastChannelError::Other(unknown())),
        ErrorShape::Canvas(CanvasError::UnsupportedColorType),
        ErrorShape::Canvas(CanvasError::Image),
        ErrorShape::UrlPattern,
        ErrorShape::Hyper,
        ErrorShape::HyperUtil,
        ErrorShape::HyperLegacy,
        ErrorShape::Canceled,
        ErrorShape::EnvVar(EnvVarError::NotPresent),
        ErrorShape::EnvVar(EnvVarError::NotUnicode),
        ErrorShape::ModuleResolution,
        ErrorShape::Notify(NotifyError::Generic),
        ErrorShape::Notify(NotifyError::Io(IoErrorKind::PermissionDenied)),
        ErrorShape::Notify(NotifyError::PathNotFound),
        ErrorShape::Notify(NotifyError::WatchNotFound),
        ErrorShape::Notify(NotifyError::InvalidConfig),
        ErrorShape::Notify(NotifyError::MaxFilesWatch),
        ErrorShape::Regex(RegexError::Syntax),
        ErrorShape::Regex(RegexError::CompiledTooBig),
        ErrorShape::Regex(RegexError::Other),
        ErrorShape::SerdeJson(SerdeJsonError::Io(IoErrorKind::Other)),
        ErrorShape::SerdeJson(SerdeJsonError::Syntax),
        ErrorShape::SerdeJson(SerdeJsonError::Data),
        ErrorShape::SerdeJson(SerdeJsonError::Eof),
        ErrorShape::UrlParse,
        ErrorShape::OsCode(OsErrno::Echild),
        ErrorShape::OsCode(OsErrno::Einval),
        ErrorShape::OsCode(OsErrno::Enoent),
        ErrorShape::OsCode(OsErrno::Enotty),
        ErrorShape::OsCode(OsErrno::Eperm),
        ErrorShape::OsCode(OsErrno::Esrch),
        ErrorShape::OsCode(OsErrno::Eloop),
        ErrorShape::OsCode(OsErrno::Enotdir),
        ErrorShape::OsCode(OsErrno::Enetunreach),
        ErrorShape::OsCode(OsErrno::Eisdir),
        ErrorShape::OsCode(OsErrno::Enotsup),
        ErrorShape::OsCode(OsErrno::UnknownErrno),
        ErrorShape::OsCode(OsErrno::Other),
        ErrorShape::Io(IoErrorKind::Uncommon("SomethingNew".to_owned())),
    ]);
}

#[test]
fn unknown_type_is_unclassified() {
    let e = ErrorValue::of_shape(ErrorShape::Unknown);
    assert_eq!(classify(&e), None);
    assert_eq!(get_error_class_name(&e), None);
    assert_eq!(classify_or_generic(&e), ErrorClass::GenericError);
}

#[test]
fn determinism_repeated_calls() {
    let e = ErrorValue::of_shape(ErrorShape::Net(NetError::Tls(TlsError::CertsNotFound)));
    let first = classify(&e);
    let second = classify(&e);
    assert_eq!(first, second);
    let again = ErrorValue::of_shape(ErrorShape::Net(NetError::Tls(TlsError::CertsNotFound)));
    assert_eq!(classify(&again), first);
}

#[test]
fn custom_classification_wins_over_builtin() {
    let e = ErrorValue::with_custom(
        ErrorClass::DomExceptionQuotaExceededError,
        ErrorShape::Net(NetError::Io(IoErrorKind::NotFound)),
    );
    assert_eq!(classify(&e), Some(ErrorClass::DomExceptionQuotaExceededError));
    assert_eq!(try_custom_class(&e), Some(ErrorClass::DomExceptionQuotaExceededError));
}

#[test]
fn custom_classification_wins_over_unknown() {
    let e = ErrorValue::with_custom(ErrorClass::BadResource, ErrorShape::Unknown);
    assert_eq!(classify(&e), Some(ErrorClass::BadResource));
}

#[test]
fn permission_denied_through_net() {
    assert_eq!(
        tag_of(ErrorShape::Net(NetError::Io(IoErrorKind::PermissionDenied))),
        Some(ErrorClass::PermissionDenied)
    );
}

#[test]
fn permission_denied_through_ffi() {
    let inner = Box::new(ErrorValue::of_shape(ErrorShape::Io(IoErrorKind::PermissionDenied)));
    assert_eq!(
        tag_of(ErrorShape::FfiRepr(ReprError::Permission(inner))),
        Some(ErrorClass::PermissionDenied)
    );
}

#[test]
fn permission_denied_through_kv() {
    assert_eq!(
        tag_of(ErrorShape::Kv(KvError::Io(IoErrorKind::PermissionDenied))),
        Some(ErrorClass::PermissionDenied)
    );
}

#[test]
fn resource_wrapping_consults_custom_class_only() {
    // A cron resource failure takes the wrapped resource's own class...
    let tagged = Box::new(ErrorValue::with_custom(
        ErrorClass::TimedOut,
        ErrorShape::Unknown,
    ));
    assert_eq!(tag_of(ErrorShape::Cron(CronError::Resource(tagged))), Some(ErrorClass::TimedOut));
    // ...and falls back to the generic tag where the resource reports none,
    // even when a built-in check would recognize the wrapped shape.
    let untagged = Box::new(ErrorValue::of_shape(ErrorShape::Io(IoErrorKind::NotFound)));
    assert_eq!(
        tag_of(ErrorShape::Cron(CronError::Resource(untagged))),
        Some(ErrorClass::GenericError)
    );
}

#[test]
fn generic_cause_wrapping_reclassifies_through_registry() {
    let cause = Box::new(ErrorValue::of_shape(ErrorShape::Io(IoErrorKind::NotFound)));
    assert_eq!(tag_of(ErrorShape::Cron(CronError::Other(cause))), Some(ErrorClass::NotFound));
    let unknown = Box::new(ErrorValue::of_shape(ErrorShape::Unknown));
    assert_eq!(
        tag_of(ErrorShape::Cache(CacheError::Other(unknown))),
        Some(ErrorClass::GenericError)
    );
}

#[test]
fn deep_nesting_bottoms_out() {
    let leaf = ErrorValue::of_shape(ErrorShape::Io(IoErrorKind::TimedOut));
    let mid = ErrorValue::of_shape(ErrorShape::FfiCallback(CallbackError::Other(Box::new(leaf))));
    let top = ErrorValue::of_shape(ErrorShape::FfiCall(CallError::Callback(
        CallbackError::Permission(Box::new(mid)),
    )));
    // Each unwrap step reclassifies the wrapped cause through the registry,
    // bottoming out at the I/O leaf.
    assert_eq!(classify(&top), Some(ErrorClass::TimedOut));
}
