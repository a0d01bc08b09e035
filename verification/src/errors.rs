//! The error type shared by all services, and its renderings: display text,
//! stable error code, HTTP status and gRPC status.

use crate::text::join;
use crate::text::decimal;
use crate::text::push_decimal;
use vstd::prelude::*;
use vstd::string::StringExecFns;

verus! {

/// The canonical gRPC status codes.
#[derive(Clone, Copy, Debug, PartialEq, Eq, Structural)]
pub enum StatusCode {
    Success,
    Cancelled,
    Unknown,
    InvalidArgument,
    DeadlineExceeded,
    NotFound,
    AlreadyExists,
    PermissionDenied,
    ResourceExhausted,
    FailedPrecondition,
    Aborted,
    OutOfRange,
    Unimplemented,
    Internal,
    Unavailable,
    DataLoss,
    Unauthenticated,
}

impl StatusCode {
    /// The number that gRPC assigns to the code.
    pub open spec fn number_spec(self) -> int {
        match self {
            StatusCode::Success => 0,
            StatusCode::Cancelled => 1,
            StatusCode::Unknown => 2,
            StatusCode::InvalidArgument => 3,
            StatusCode::DeadlineExceeded => 4,
            StatusCode::NotFound => 5,
            StatusCode::AlreadyExists => 6,
            StatusCode::PermissionDenied => 7,
            StatusCode::ResourceExhausted => 8,
            StatusCode::FailedPrecondition => 9,
            StatusCode::Aborted => 10,
            StatusCode::OutOfRange => 11,
            StatusCode::Unimplemented => 12,
            StatusCode::Internal => 13,
            StatusCode::Unavailable => 14,
            StatusCode::DataLoss => 15,
            StatusCode::Unauthenticated => 16,
        }
    }

    /// The number that gRPC assigns to the code.
    pub fn number(&self) -> (n: i32)
        ensures
            n == self.number_spec(),
    {
        match self {
            StatusCode::Success => 0,
            StatusCode::Cancelled => 1,
            StatusCode::Unknown => 2,
            StatusCode::InvalidArgument => 3,
            StatusCode::DeadlineExceeded => 4,
            StatusCode::NotFound => 5,
            StatusCode::AlreadyExists => 6,
            StatusCode::PermissionDenied => 7,
            StatusCode::ResourceExhausted => 8,
            StatusCode::FailedPrecondition => 9,
            StatusCode::Aborted => 10,
            StatusCode::OutOfRange => 11,
            StatusCode::Unimplemented => 12,
            StatusCode::Internal => 13,
            StatusCode::Unavailable => 14,
            StatusCode::DataLoss => 15,
            StatusCode::Unauthenticated => 16,
        }
    }

    /// The code that a number stands for; numbers outside the table are `Unknown`.
    pub fn from_number(n: i32) -> (code: StatusCode)
        ensures
            0 <= n <= 16 ==> code.number_spec() == n,
            !(0 <= n <= 16) ==> code == StatusCode::Unknown,
    {
        if n == 0 {
            StatusCode::Success
        } else if n == 1 {
            StatusCode::Cancelled
        } else if n == 3 {
            StatusCode::InvalidArgument
        } else if n == 4 {
            StatusCode::DeadlineExceeded
        } else if n == 5 {
            StatusCode::NotFound
        } else if n == 6 {
            StatusCode::AlreadyExists
        } else if n == 7 {
            StatusCode::PermissionDenied
        } else if n == 8 {
            StatusCode::ResourceExhausted
        } else if n == 9 {
            StatusCode::FailedPrecondition
        } else if n == 10 {
            StatusCode::Aborted
        } else if n == 11 {
            StatusCode::OutOfRange
        } else if n == 12 {
            StatusCode::Unimplemented
        } else if n == 13 {
            StatusCode::Internal
        } else if n == 14 {
            StatusCode::Unavailable
        } else if n == 15 {
            StatusCode::DataLoss
        } else if n == 16 {
            StatusCode::Unauthenticated
        } else {
            StatusCode::Unknown
        }
    }
}

/// A gRPC status: a code and a message for the caller.
#[derive(Clone, Debug, PartialEq, Eq)]
pub struct Status {
    pub code: StatusCode,
    pub message: String,
}

/// The mathematical value of a [`Status`].
pub struct StatusView {
    pub code: StatusCode,
    pub message: Seq<char>,
}

impl View for Status {
    type V = StatusView;

    open spec fn view(&self) -> StatusView {
        StatusView { code: self.code, message: self.message@ }
    }
}

/// The text that the gRPC library displays for a status with the given code
/// number and message and nothing else attached.
pub uninterp spec fn grpc_status_text(code: int, message: Seq<char>) -> Seq<char>;

/// Renders a status through `tonic`: builds a `tonic::Status` with
/// `Status::new` from the code with this number and the message, and returns
/// what its `Display` impl writes. The contract only gives that text a name;
/// it is a function of the code and the message because the status carries no
/// details, metadata or source.
#[verifier::external_body]
fn status_text(code: i32, message: &str) -> (text: String)
    ensures
        text@ == grpc_status_text(code as int, message@),
{
    tonic::Status::new(tonic::Code::from_i32(code), message).to_string()
}

impl Status {
    /// A status with the given code and message.
    pub fn new(code: StatusCode, message: String) -> (s: Status)
        ensures
            s@ == (StatusView { code, message: message@ }),
    {
        Status { code, message }
    }

    /// The text that the gRPC library displays for this status.
    pub open spec fn text(self) -> Seq<char> {
        grpc_status_text(self.code.number_spec(), self.message@)
    }

    /// The display text of the status, as the gRPC library writes it.
    pub fn to_string(&self) -> (r: String)
        ensures
            r@ == self.text(),
    {
        status_text(self.code.number(), self.message.as_str())
    }
}

/// Everything that can go wrong in a service.
///
/// Failures of the database, the cache, the message broker and the operating
/// system are carried as the text that the failing component displayed.
#[derive(Clone, Debug, PartialEq, Eq)]
pub enum VoipError {
    /// Configuration error
    Config(String),
    /// Service discovery error
    Discovery(String),
    /// Authentication error
    Auth(String),
    /// Authorization error
    Unauthorized(String),
    /// Validation error
    Validation(String),
    /// SIP protocol error
    Sip { code: u16, reason: String },
    /// Media processing error
    Media(String),
    /// Database error
    Database(String),
    /// Redis error
    Redis(String),
    /// gRPC error
    Grpc(Status),
    /// Message queue error: the broker was unreachable or the connection dropped
    Nats(String),
    /// HTTP error
    Http(String),
    /// I/O error
    Io(String),
    /// Timeout error
    Timeout(String),
    /// Rate limit exceeded
    RateLimit(String),
    /// Resource not found
    NotFound(String),
    /// Resource already exists
    AlreadyExists(String),
    /// Service unavailable
    Unavailable(String),
    /// Internal server error
    Internal(String),
    /// Any other error, by its message
    Other(String),
}

/// The mathematical value of a [`VoipError`].
pub enum VoipErrorView {
    Config(Seq<char>),
    Discovery(Seq<char>),
    Auth(Seq<char>),
    Unauthorized(Seq<char>),
    Validation(Seq<char>),
    Sip { code: u16, reason: Seq<char> },
    Media(Seq<char>),
    Database(Seq<char>),
    Redis(Seq<char>),
    Grpc(StatusView),
    Nats(Seq<char>),
    Http(Seq<char>),
    Io(Seq<char>),
    Timeout(Seq<char>),
    RateLimit(Seq<char>),
    NotFound(Seq<char>),
    AlreadyExists(Seq<char>),
    Unavailable(Seq<char>),
    Internal(Seq<char>),
    Other(Seq<char>),
}

impl View for VoipError {
    type V = VoipErrorView;

    open spec fn view(&self) -> VoipErrorView {
        match self {
            VoipError::Config(m) => VoipErrorView::Config(m@),
            VoipError::Discovery(m) => VoipErrorView::Discovery(m@),
            VoipError::Auth(m) => VoipErrorView::Auth(m@),
            VoipError::Unauthorized(m) => VoipErrorView::Unauthorized(m@),
            VoipError::Validation(m) => VoipErrorView::Validation(m@),
            VoipError::Sip { code, reason } => VoipErrorView::Sip { code: *code, reason: reason@ },
            VoipError::Media(m) => VoipErrorView::Media(m@),
            VoipError::Database(m) => VoipErrorView::Database(m@),
            VoipError::Redis(m) => VoipErrorView::Redis(m@),
            VoipError::Grpc(s) => VoipErrorView::Grpc(s@),
            VoipError::Nats(m) => VoipErrorView::Nats(m@),
            VoipError::Http(m) => VoipErrorView::Http(m@),
            VoipError::Io(m) => VoipErrorView::Io(m@),
            VoipError::Timeout(m) => VoipErrorView::Timeout(m@),
            VoipError::RateLimit(m) => VoipErrorView::RateLimit(m@),
            VoipError::NotFound(m) => VoipErrorView::NotFound(m@),
            VoipError::AlreadyExists(m) => VoipErrorView::AlreadyExists(m@),
            VoipError::Unavailable(m) => VoipErrorView::Unavailable(m@),
            VoipError::Internal(m) => VoipErrorView::Internal(m@),
            VoipError::Other(m) => VoipErrorView::Other(m@),
        }
    }
}

impl VoipErrorView {
    /// The display text of the error.
    pub open spec fn message(self) -> Seq<char> {
        match self {
            VoipErrorView::Config(m) => "Configuration error: "@ + m,
            VoipErrorView::Discovery(m) => "Service discovery error: "@ + m,
            VoipErrorView::Auth(m) => "Authentication failed: "@ + m,
            VoipErrorView::Unauthorized(m) => "Authorization failed: "@ + m,
            VoipErrorView::Validation(m) => "Validation error: "@ + m,
            VoipErrorView::Sip { code, reason } => "SIP error: code="@ + decimal(code as nat)
                + ", reason="@ + reason,
            VoipErrorView::Media(m) => "Media error: "@ + m,
            VoipErrorView::Database(m) => "Database error: "@ + m,
            VoipErrorView::Redis(m) => "Redis error: "@ + m,
            VoipErrorView::Grpc(s) => "gRPC error: "@ + grpc_status_text(
                s.code.number_spec(),
                s.message,
            ),
            VoipErrorView::Nats(m) => "NATS error: "@ + m,
            VoipErrorView::Http(m) => "HTTP error: "@ + m,
            VoipErrorView::Io(m) => "I/O error: "@ + m,
            VoipErrorView::Timeout(m) => "Operation timed out: "@ + m,
            VoipErrorView::RateLimit(m) => "Rate limit exceeded: "@ + m,
            VoipErrorView::NotFound(m) => "Resource not found: "@ + m,
            VoipErrorView::AlreadyExists(m) => "Resource already exists: "@ + m,
            VoipErrorView::Unavailable(m) => "Service unavailable: "@ + m,
            VoipErrorView::Internal(m) => "Internal error: "@ + m,
            VoipErrorView::Other(m) => m,
        }
    }

    /// The stable code of the error for structured logging.
    pub open spec fn error_code(self) -> Seq<char> {
        match self {
            VoipErrorView::Config(_) => "CONFIG_ERROR"@,
            VoipErrorView::Discovery(_) => "DISCOVERY_ERROR"@,
            VoipErrorView::Auth(_) => "AUTH_FAILED"@,
            VoipErrorView::Unauthorized(_) => "UNAUTHORIZED"@,
            VoipErrorView::Validation(_) => "VALIDATION_ERROR"@,
            VoipErrorView::Sip { .. } => "SIP_ERROR"@,
            VoipErrorView::Media(_) => "MEDIA_ERROR"@,
            VoipErrorView::Database(_) => "DATABASE_ERROR"@,
            VoipErrorView::Redis(_) => "REDIS_ERROR"@,
            VoipErrorView::Grpc(_) => "GRPC_ERROR"@,
            VoipErrorView::Nats(_) => "NATS_ERROR"@,
            VoipErrorView::Http(_) => "HTTP_ERROR"@,
            VoipErrorView::Io(_) => "IO_ERROR"@,
            VoipErrorView::Timeout(_) => "TIMEOUT"@,
            VoipErrorView::RateLimit(_) => "RATE_LIMIT_EXCEEDED"@,
            VoipErrorView::NotFound(_) => "NOT_FOUND"@,
            VoipErrorView::AlreadyExists(_) => "ALREADY_EXISTS"@,
            VoipErrorView::Unavailable(_) => "SERVICE_UNAVAILABLE"@,
            VoipErrorView::Internal(_) => "INTERNAL_ERROR"@,
            VoipErrorView::Other(_) => "UNKNOWN_ERROR"@,
        }
    }

    /// The HTTP status code that reports the error.
    pub open spec fn http_status(self) -> u16 {
        match self {
            VoipErrorView::Config(_) => 400,
            VoipErrorView::Validation(_) => 400,
            VoipErrorView::Auth(_) => 401,
            VoipErrorView::Unauthorized(_) => 403,
            VoipErrorView::NotFound(_) => 404,
            VoipErrorView::AlreadyExists(_) => 409,
            VoipErrorView::RateLimit(_) => 429,
            VoipErrorView::Timeout(_) => 408,
            VoipErrorView::Unavailable(_) => 503,
            VoipErrorView::Sip { code, .. } => code,
            _ => 500,
        }
    }

    /// The gRPC status that reports the error: the matching code with the
    /// error's own message, a carried status unchanged, and `Internal` with the
    /// display text for everything else.
    pub open spec fn status(self) -> StatusView {
        match self {
            VoipErrorView::Config(m) => StatusView { code: StatusCode::InvalidArgument, message: m },
            VoipErrorView::Validation(m) => StatusView {
                code: StatusCode::InvalidArgument,
                message: m,
            },
            VoipErrorView::Auth(m) => StatusView { code: StatusCode::Unauthenticated, message: m },
            VoipErrorView::Unauthorized(m) => StatusView {
                code: StatusCode::PermissionDenied,
                message: m,
            },
            VoipErrorView::NotFound(m) => StatusView { code: StatusCode::NotFound, message: m },
            VoipErrorView::AlreadyExists(m) => StatusView {
                code: StatusCode::AlreadyExists,
                message: m,
            },
            VoipErrorView::RateLimit(m) => StatusView {
                code: StatusCode::ResourceExhausted,
                message: m,
            },
            VoipErrorView::Timeout(m) => StatusView {
                code: StatusCode::DeadlineExceeded,
                message: m,
            },
            VoipErrorView::Unavailable(m) => StatusView { code: StatusCode::Unavailable, message: m },
            VoipErrorView::Grpc(s) => s,
            _ => StatusView { code: StatusCode::Internal, message: self.message() },
        }
    }
}

impl VoipError {
    /// Convert to gRPC status
    pub fn to_status(&self) -> (status: Status)
        ensures
            status@ == self@.status(),
    {
        match self {
            VoipError::Config(msg) => Status::new(StatusCode::InvalidArgument, msg.clone()),
            VoipError::Validation(msg) => Status::new(StatusCode::InvalidArgument, msg.clone()),
            VoipError::Auth(msg) => Status::new(StatusCode::Unauthenticated, msg.clone()),
            VoipError::Unauthorized(msg) => Status::new(StatusCode::PermissionDenied, msg.clone()),
            VoipError::NotFound(msg) => Status::new(StatusCode::NotFound, msg.clone()),
            VoipError::AlreadyExists(msg) => Status::new(StatusCode::AlreadyExists, msg.clone()),
            VoipError::RateLimit(msg) => Status::new(StatusCode::ResourceExhausted, msg.clone()),
            VoipError::Timeout(msg) => Status::new(StatusCode::DeadlineExceeded, msg.clone()),
            VoipError::Unavailable(msg) => Status::new(StatusCode::Unavailable, msg.clone()),
            VoipError::Grpc(status) => Status::new(status.code, status.message.clone()),
            _ => Status::new(StatusCode::Internal, self.to_string()),
        }
    }

    /// Convert to HTTP status code
    pub fn to_http_status(&self) -> (code: u16)
        ensures
            code == self@.http_status(),
    {
        match self {
            VoipError::Config(_) => 400,
            VoipError::Validation(_) => 400,
            VoipError::Auth(_) => 401,
            VoipError::Unauthorized(_) => 403,
            VoipError::NotFound(_) => 404,
            VoipError::AlreadyExists(_) => 409,
            VoipError::RateLimit(_) => 429,
            VoipError::Timeout(_) => 408,
            VoipError::Unavailable(_) => 503,
            VoipError::Sip { code, .. } => *code,
            _ => 500,
        }
    }

    /// Get error code for structured logging
    pub fn error_code(&self) -> (code: &'static str)
        ensures
            code@ == self@.error_code(),
    {
        match self {
            VoipError::Config(_) => "CONFIG_ERROR",
            VoipError::Discovery(_) => "DISCOVERY_ERROR",
            VoipError::Auth(_) => "AUTH_FAILED",
            VoipError::Unauthorized(_) => "UNAUTHORIZED",
            VoipError::Validation(_) => "VALIDATION_ERROR",
            VoipError::Sip { .. } => "SIP_ERROR",
            VoipError::Media(_) => "MEDIA_ERROR",
            VoipError::Database(_) => "DATABASE_ERROR",
            VoipError::Redis(_) => "REDIS_ERROR",
            VoipError::Grpc(_) => "GRPC_ERROR",
            VoipError::Nats(_) => "NATS_ERROR",
            VoipError::Http(_) => "HTTP_ERROR",
            VoipError::Io(_) => "IO_ERROR",
            VoipError::Timeout(_) => "TIMEOUT",
            VoipError::RateLimit(_) => "RATE_LIMIT_EXCEEDED",
            VoipError::NotFound(_) => "NOT_FOUND",
            VoipError::AlreadyExists(_) => "ALREADY_EXISTS",
            VoipError::Unavailable(_) => "SERVICE_UNAVAILABLE",
            VoipError::Internal(_) => "INTERNAL_ERROR",
            VoipError::Other(_) => "UNKNOWN_ERROR",
        }
    }

    /// The display text of the error.
    pub fn to_string(&self) -> (text: String)
        ensures
            text@ == self@.message(),
    {
        match self {
            VoipError::Config(m) => join("Configuration error: ", m.as_str()),
            VoipError::Discovery(m) => join("Service discovery error: ", m.as_str()),
            VoipError::Auth(m) => join("Authentication failed: ", m.as_str()),
            VoipError::Unauthorized(m) => join("Authorization failed: ", m.as_str()),
            VoipError::Validation(m) => join("Validation error: ", m.as_str()),
            VoipError::Sip { code, reason } => {
                let mut text = String::from_str("SIP error: code=");
                push_decimal(&mut text, *code as u64);
                text.append(", reason=");
                text.append(reason.as_str());
                text
            },
            VoipError::Media(m) => join("Media error: ", m.as_str()),
            VoipError::Database(m) => join("Database error: ", m.as_str()),
            VoipError::Redis(m) => join("Redis error: ", m.as_str()),
            VoipError::Grpc(status) => {
                let rendered = status.to_string();
                join("gRPC error: ", rendered.as_str())
            },
            VoipError::Nats(m) => join("NATS error: ", m.as_str()),
            VoipError::Http(m) => join("HTTP error: ", m.as_str()),
            VoipError::Io(m) => join("I/O error: ", m.as_str()),
            VoipError::Timeout(m) => join("Operation timed out: ", m.as_str()),
            VoipError::RateLimit(m) => join("Rate limit exceeded: ", m.as_str()),
            VoipError::NotFound(m) => join("Resource not found: ", m.as_str()),
            VoipError::AlreadyExists(m) => join("Resource already exists: ", m.as_str()),
            VoipError::Unavailable(m) => join("Service unavailable: ", m.as_str()),
            VoipError::Internal(m) => join("Internal error: ", m.as_str()),
            VoipError::Other(m) => m.clone(),
        }
    }
}

/// Extension trait for error context
pub trait ErrorContext<T> {
    /// Replaces a failure by an error that carries `msg`.
    fn context(self, msg: &str) -> Result<T, VoipError>;

    /// Replaces a failure by an error that carries the message `f` makes.
    fn with_context<F>(self, f: F) -> Result<T, VoipError> where F: FnOnce() -> String
        requires
            call_requires(f, ()),
    ;
}

impl<T> ErrorContext<T> for Result<T, VoipError> {
    fn context(self, msg: &str) -> (r: Result<T, VoipError>)
        ensures
            self matches Ok(v) ==> r == Ok::<T, VoipError>(v),
            self is Err ==> (r matches Err(e) && e@ == VoipErrorView::Other(msg@)),
    {
        match self {
            Ok(v) => Ok(v),
            Err(_) => Err(VoipError::Other(String::from_str(msg))),
        }
    }

    fn with_context<F>(self, f: F) -> (r: Result<T, VoipError>) where F: FnOnce() -> String
        ensures
            self matches Ok(v) ==> r == Ok::<T, VoipError>(v),
            self is Err ==> (r matches Err(VoipError::Other(m)) && call_ensures(f, (), m)),
    {
        match self {
            Ok(v) => Ok(v),
            Err(_) => Err(VoipError::Other(f())),
        }
    }
}

} // verus!
