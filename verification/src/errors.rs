//! Error types returned by methods in this crate.
//!
//! Every fallible operation reports a [`TibrvError`] carrying one kind out
//! of the closed set [`ErrorKind`]. Native middleware status codes are
//! mirrored by [`Status`] and are classified into error kinds at the point
//! where an operation fails.

use vstd::prelude::*;

verus! {

/// A status code as reported by the native middleware.
///
/// The middleware reports every outcome through one of these codes;
/// `Okay` mirrors the success code, all others describe a failure.
#[derive(Clone, Copy, Debug, PartialEq, Eq, Structural)]
pub enum Status {
    Okay,
    InitFailure,
    InvalidTransport,
    InvalidArg,
    NotInitialized,
    ArgConflict,
    ServiceNotFound,
    NetworkNotFound,
    DaemonNotFound,
    NoMemory,
    InvalidSubject,
    DaemonNotConnected,
    VersionMismatch,
    SubjectCollision,
    VcNotConnected,
    NotPermitted,
    InvalidName,
    InvalidType,
    InvalidSize,
    InvalidCount,
    NotFound,
    IdInUse,
    IdConflict,
    ConversionFailed,
    ReservedHandler,
    EncoderFailed,
    DecoderFailed,
    InvalidMsg,
    InvalidField,
    InvalidInstance,
    CorruptMsg,
    EncodingMismatch,
    Timeout,
    Intr,
    InvalidDispatchable,
    InvalidDispatcher,
    InvalidEvent,
    InvalidCallback,
    InvalidQueue,
    InvalidQueueGroup,
    InvalidTimeInterval,
    InvalidIoSource,
    InvalidIoCondition,
    SocketLimit,
    OsError,
    InsufficientBuffer,
    Eof,
    InvalidFile,
    FileNotFound,
    IoFailed,
    NotFileOwner,
    UserpassMismatch,
    TooManyNeighbors,
    AlreadyExists,
    PortBusy,
    DeliveryFailed,
}

impl Status {
    /// The conventional upper-case name of this status code.
    pub open spec fn name_spec(self) -> Seq<char> {
        match self {
            Status::Okay => "TIBRV_OK"@,
            Status::InitFailure => "TIBRV_INIT_FAILURE"@,
            Status::InvalidTransport => "TIBRV_INVALID_TRANSPORT"@,
            Status::InvalidArg => "TIBRV_INVALID_ARG"@,
            Status::NotInitialized => "TIBRV_NOT_INITIALIZED"@,
            Status::ArgConflict => "TIBRV_ARG_CONFLICT"@,
            Status::ServiceNotFound => "TIBRV_SERVICE_NOT_FOUND"@,
            Status::NetworkNotFound => "TIBRV_NETWORK_NOT_FOUND"@,
            Status::DaemonNotFound => "TIBRV_DAEMON_NOT_FOUND"@,
            Status::NoMemory => "TIBRV_NO_MEMORY"@,
            Status::InvalidSubject => "TIBRV_INVALID_SUBJECT"@,
            Status::DaemonNotConnected => "TIBRV_DAEMON_NOT_CONNECTED"@,
            Status::VersionMismatch => "TIBRV_VERSION_MISMATCH"@,
            Status::SubjectCollision => "TIBRV_SUBJECT_COLLISION"@,
            Status::VcNotConnected => "TIBRV_VC_NOT_CONNECTED"@,
            Status::NotPermitted => "TIBRV_NOT_PERMITTED"@,
            Status::InvalidName => "TIBRV_INVALID_NAME"@,
            Status::InvalidType => "TIBRV_INVALID_TYPE"@,
            Status::InvalidSize => "TIBRV_INVALID_SIZE"@,
            Status::InvalidCount => "TIBRV_INVALID_COUNT"@,
            Status::NotFound => "TIBRV_NOT_FOUND"@,
            Status::IdInUse => "TIBRV_ID_IN_USE"@,
            Status::IdConflict => "TIBRV_ID_CONFLICT"@,
            Status::ConversionFailed => "TIBRV_CONVERSION_FAILED"@,
            Status::ReservedHandler => "TIBRV_RESERVED_HANDLER"@,
            Status::EncoderFailed => "TIBRV_ENCODER_FAILED"@,
            Status::DecoderFailed => "TIBRV_DECODER_FAILED"@,
            Status::InvalidMsg => "TIBRV_INVALID_MSG"@,
            Status::InvalidField => "TIBRV_INVALID_FIELD"@,
            Status::InvalidInstance => "TIBRV_INVALID_INSTANCE"@,
            Status::CorruptMsg => "TIBRV_CORRUPT_MSG"@,
            Status::EncodingMismatch => "TIBRV_ENCODING_MISMATCH"@,
            Status::Timeout => "TIBRV_TIMEOUT"@,
            Status::Intr => "TIBRV_INTR"@,
            Status::InvalidDispatchable => "TIBRV_INVALID_DISPATCHABLE"@,
            Status::InvalidDispatcher => "TIBRV_INVALID_DISPATCHER"@,
            Status::InvalidEvent => "TIBRV_INVALID_EVENT"@,
            Status::InvalidCallback => "TIBRV_INVALID_CALLBACK"@,
            Status::InvalidQueue => "TIBRV_INVALID_QUEUE"@,
            Status::InvalidQueueGroup => "TIBRV_INVALID_QUEUE_GROUP"@,
            Status::InvalidTimeInterval => "TIBRV_INVALID_TIME_INTERVAL"@,
            Status::InvalidIoSource => "TIBRV_INVALID_IO_SOURCE"@,
            Status::InvalidIoCondition => "TIBRV_INVALID_IO_CONDITION"@,
            Status::SocketLimit => "TIBRV_SOCKET_LIMIT"@,
            Status::OsError => "TIBRV_OS_ERROR"@,
            Status::InsufficientBuffer => "TIBRV_INSUFFICIENT_BUFFER"@,
            Status::Eof => "TIBRV_EOF"@,
            Status::InvalidFile => "TIBRV_INVALID_FILE"@,
            Status::FileNotFound => "TIBRV_FILE_NOT_FOUND"@,
            Status::IoFailed => "TIBRV_IO_FAILED"@,
            Status::NotFileOwner => "TIBRV_NOT_FILE_OWNER"@,
            Status::UserpassMismatch => "TIBRV_USERPASS_MISMATCH"@,
            Status::TooManyNeighbors => "TIBRV_TOO_MANY_NEIGHBORS"@,
            Status::AlreadyExists => "TIBRV_ALREADY_EXISTS"@,
            Status::PortBusy => "TIBRV_PORT_BUSY"@,
            Status::DeliveryFailed => "TIBRV_DELIVERY_FAILED"@,
        }
    }

    /// The conventional upper-case name of this status code.
    pub fn name(&self) -> (r: &'static str)
        ensures
            r@ == self.name_spec(),
    {
        match self {
            Status::Okay => "TIBRV_OK",
            Status::InitFailure => "TIBRV_INIT_FAILURE",
            Status::InvalidTransport => "TIBRV_INVALID_TRANSPORT",
            Status::InvalidArg => "TIBRV_INVALID_ARG",
            Status::NotInitialized => "TIBRV_NOT_INITIALIZED",
            Status::ArgConflict => "TIBRV_ARG_CONFLICT",
            Status::ServiceNotFound => "TIBRV_SERVICE_NOT_FOUND",
            Status::NetworkNotFound => "TIBRV_NETWORK_NOT_FOUND",
            Status::DaemonNotFound => "TIBRV_DAEMON_NOT_FOUND",
            Status::NoMemory => "TIBRV_NO_MEMORY",
            Status::InvalidSubject => "TIBRV_INVALID_SUBJECT",
            Status::DaemonNotConnected => "TIBRV_DAEMON_NOT_CONNECTED",
            Status::VersionMismatch => "TIBRV_VERSION_MISMATCH",
            Status::SubjectCollision => "TIBRV_SUBJECT_COLLISION",
            Status::VcNotConnected => "TIBRV_VC_NOT_CONNECTED",
            Status::NotPermitted => "TIBRV_NOT_PERMITTED",
            Status::InvalidName => "TIBRV_INVALID_NAME",
            Status::InvalidType => "TIBRV_INVALID_TYPE",
            Status::InvalidSize => "TIBRV_INVALID_SIZE",
            Status::InvalidCount => "TIBRV_INVALID_COUNT",
            Status::NotFound => "TIBRV_NOT_FOUND",
            Status::IdInUse => "TIBRV_ID_IN_USE",
            Status::IdConflict => "TIBRV_ID_CONFLICT",
            Status::ConversionFailed => "TIBRV_CONVERSION_FAILED",
            Status::ReservedHandler => "TIBRV_RESERVED_HANDLER",
            Status::EncoderFailed => "TIBRV_ENCODER_FAILED",
            Status::DecoderFailed => "TIBRV_DECODER_FAILED",
            Status::InvalidMsg => "TIBRV_INVALID_MSG",
            Status::InvalidField => "TIBRV_INVALID_FIELD",
            Status::InvalidInstance => "TIBRV_INVALID_INSTANCE",
            Status::CorruptMsg => "TIBRV_CORRUPT_MSG",
            Status::EncodingMismatch => "TIBRV_ENCODING_MISMATCH",
            Status::Timeout => "TIBRV_TIMEOUT",
            Status::Intr => "TIBRV_INTR",
            Status::InvalidDispatchable => "TIBRV_INVALID_DISPATCHABLE",
            Status::InvalidDispatcher => "TIBRV_INVALID_DISPATCHER",
            Status::InvalidEvent => "TIBRV_INVALID_EVENT",
            Status::InvalidCallback => "TIBRV_INVALID_CALLBACK",
            Status::InvalidQueue => "TIBRV_INVALID_QUEUE",
            Status::InvalidQueueGroup => "TIBRV_INVALID_QUEUE_GROUP",
            Status::InvalidTimeInterval => "TIBRV_INVALID_TIME_INTERVAL",
            Status::InvalidIoSource => "TIBRV_INVALID_IO_SOURCE",
            Status::InvalidIoCondition => "TIBRV_INVALID_IO_CONDITION",
            Status::SocketLimit => "TIBRV_SOCKET_LIMIT",
            Status::OsError => "TIBRV_OS_ERROR",
            Status::InsufficientBuffer => "TIBRV_INSUFFICIENT_BUFFER",
            Status::Eof => "TIBRV_EOF",
            Status::InvalidFile => "TIBRV_INVALID_FILE",
            Status::FileNotFound => "TIBRV_FILE_NOT_FOUND",
            Status::IoFailed => "TIBRV_IO_FAILED",
            Status::NotFileOwner => "TIBRV_NOT_FILE_OWNER",
            Status::UserpassMismatch => "TIBRV_USERPASS_MISMATCH",
            Status::TooManyNeighbors => "TIBRV_TOO_MANY_NEIGHBORS",
            Status::AlreadyExists => "TIBRV_ALREADY_EXISTS",
            Status::PortBusy => "TIBRV_PORT_BUSY",
            Status::DeliveryFailed => "TIBRV_DELIVERY_FAILED",
        }
    }
}

/// A list of general error categories.
#[derive(Clone, Copy, Debug, PartialEq, Eq, Structural)]
pub enum ErrorKind {
    /// A provided string held content not representable as a native string.
    StrContentError,
    /// The native middleware machinery failed to initialize.
    RvInitFailure,
    /// The middleware rejected, or failed to connect to, the transport.
    TransportError,
    /// The producing end of an event queue closed early.
    QueueError,
    /// The readiness-bridge registration failed to complete properly.
    AsyncRegError,
    /// A multi-element field was passed to a scalar decoding method.
    NonVectorFieldError,
    /// A field was decoded into a type which did not match its tag.
    FieldTypeError,
    /// A field carried a type tag this library does not know.
    UnknownFieldTypeError(u8),
    /// Some other native status was reported.
    UnknownError(Status),
}

/// The classification of a failing native status code into an error
/// category: an initialization failure and the transport-resolution
/// failures have kinds of their own, every other code is carried through
/// as [`ErrorKind::UnknownError`].
pub open spec fn kind_of_status(status: Status) -> ErrorKind {
    match status {
        Status::InitFailure => ErrorKind::RvInitFailure,
        Status::InvalidTransport => ErrorKind::TransportError,
        Status::ServiceNotFound => ErrorKind::TransportError,
        Status::NetworkNotFound => ErrorKind::TransportError,
        Status::DaemonNotFound => ErrorKind::TransportError,
        Status::DaemonNotConnected => ErrorKind::TransportError,
        _ => ErrorKind::UnknownError(status),
    }
}

impl From<Status> for ErrorKind {
    fn from(status: Status) -> (r: ErrorKind) {
        match status {
            Status::InitFailure => ErrorKind::RvInitFailure,
            Status::InvalidTransport
            | Status::ServiceNotFound
            | Status::NetworkNotFound
            | Status::DaemonNotFound
            | Status::DaemonNotConnected => ErrorKind::TransportError,
            _ => ErrorKind::UnknownError(status),
        }
    }
}

impl vstd::std_specs::convert::FromSpecImpl<Status> for ErrorKind {
    open spec fn obeys_from_spec() -> bool {
        true
    }

    open spec fn from_spec(status: Status) -> ErrorKind {
        kind_of_status(status)
    }
}

/// The error type for operations on the types provided in this crate.
///
/// Errors mostly mirror the underlying middleware's status codes, but may
/// also be generated due to invalid input to the library wrappers.
#[derive(Clone, Copy, Debug, PartialEq, Eq, Structural)]
pub struct TibrvError {
    /// The category of this error.
    pub kind: ErrorKind,
}

impl TibrvError {
    /// The category of this error.
    pub fn kind(&self) -> (r: ErrorKind)
        ensures
            r == self.kind,
    {
        self.kind
    }
}

impl From<ErrorKind> for TibrvError {
    fn from(kind: ErrorKind) -> (r: TibrvError) {
        TibrvError { kind }
    }
}

impl vstd::std_specs::convert::FromSpecImpl<ErrorKind> for TibrvError {
    open spec fn obeys_from_spec() -> bool {
        true
    }

    open spec fn from_spec(kind: ErrorKind) -> TibrvError {
        TibrvError { kind }
    }
}

} // verus!
