//! Error kinds that the mediator reports, and the errors of the mailbox store.

use vstd::prelude::*;

verus! {

/// The kind of a failure, as it is surfaced to clients.
#[derive(Clone, Copy, Debug, PartialEq, Eq, Structural)]
pub enum ErrorKind {
    ConfigError,
    ParseError,
    UnpackError,
    MessageExpired,
    PackError,
    RequestDataError,
    AuthFailed,
    OverCapacity,
    OverSized,
    NotFound,
    InternalError,
}

impl ErrorKind {
    /// Whether a failure of this kind is the client's fault. Every kind but
    /// `InternalError` and `ConfigError` is.
    pub open spec fn is_client_fault(self) -> bool {
        self != ErrorKind::InternalError && self != ErrorKind::ConfigError
    }

    /// The HTTP status that a request aborted by a failure of this kind ends with.
    pub open spec fn spec_http_code(self) -> u16 {
        match self {
            ErrorKind::ConfigError => 500,
            ErrorKind::ParseError => 400,
            ErrorKind::UnpackError => 400,
            ErrorKind::MessageExpired => 400,
            ErrorKind::PackError => 400,
            ErrorKind::RequestDataError => 400,
            ErrorKind::AuthFailed => 401,
            ErrorKind::OverCapacity => 400,
            ErrorKind::OverSized => 400,
            ErrorKind::NotFound => 404,
            ErrorKind::InternalError => 500,
        }
    }

    /// The HTTP status for this kind: 4xx for the client's faults, 5xx otherwise.
    pub fn http_code(self) -> (code: u16)
        ensures
            code == self.spec_http_code(),
            self.is_client_fault() <==> 400 <= code < 500,
            !self.is_client_fault() <==> 500 <= code < 600,
    {
        match self {
            ErrorKind::ConfigError => 500,
            ErrorKind::ParseError => 400,
            ErrorKind::UnpackError => 400,
            ErrorKind::MessageExpired => 400,
            ErrorKind::PackError => 400,
            ErrorKind::RequestDataError => 400,
            ErrorKind::AuthFailed => 401,
            ErrorKind::OverCapacity => 400,
            ErrorKind::OverSized => 400,
            ErrorKind::NotFound => 404,
            ErrorKind::InternalError => 500,
        }
    }

    /// The name of this kind as clients see it.
    pub open spec fn spec_name(self) -> Seq<char> {
        match self {
            ErrorKind::ConfigError => "ConfigError"@,
            ErrorKind::ParseError => "ParseError"@,
            ErrorKind::UnpackError => "UnpackError"@,
            ErrorKind::MessageExpired => "MessageExpired"@,
            ErrorKind::PackError => "PackError"@,
            ErrorKind::RequestDataError => "RequestDataError"@,
            ErrorKind::AuthFailed => "AuthFailed"@,
            ErrorKind::OverCapacity => "OverCapacity"@,
            ErrorKind::OverSized => "OverSized"@,
            ErrorKind::NotFound => "NotFound"@,
            ErrorKind::InternalError => "InternalError"@,
        }
    }

    /// The name of this kind as clients see it.
    pub fn name(self) -> (s: String)
        ensures
            s@ == self.spec_name(),
    {
        match self {
            ErrorKind::ConfigError => "ConfigError".to_owned(),
            ErrorKind::ParseError => "ParseError".to_owned(),
            ErrorKind::UnpackError => "UnpackError".to_owned(),
            ErrorKind::MessageExpired => "MessageExpired".to_owned(),
            ErrorKind::PackError => "PackError".to_owned(),
            ErrorKind::RequestDataError => "RequestDataError".to_owned(),
            ErrorKind::AuthFailed => "AuthFailed".to_owned(),
            ErrorKind::OverCapacity => "OverCapacity".to_owned(),
            ErrorKind::OverSized => "OverSized".to_owned(),
            ErrorKind::NotFound => "NotFound".to_owned(),
            ErrorKind::InternalError => "InternalError".to_owned(),
        }
    }
}

/// A failure that aborts a request: its kind, the session it belongs to and a
/// short reason.
#[derive(Debug)]
pub struct MediatorError {
    pub kind: ErrorKind,
    pub session_id: String,
    pub reason: String,
}

impl MediatorError {
    /// A failure of `kind` within the session `session_id`.
    pub fn new(kind: ErrorKind, session_id: &str, reason: &str) -> (e: MediatorError)
        ensures
            e.kind == kind,
            e.session_id@ == session_id@,
            e.reason@ == reason@,
    {
        MediatorError { kind, session_id: session_id.to_owned(), reason: reason.to_owned() }
    }

    /// A failure raised before any session exists, as configuration errors are.
    pub fn without_session(kind: ErrorKind, reason: &str) -> (e: MediatorError)
        ensures
            e.kind == kind,
            e.session_id@ == "NA"@,
            e.reason@ == reason@,
    {
        MediatorError { kind, session_id: "NA".to_owned(), reason: reason.to_owned() }
    }
}

/// Why the mailbox store refused an operation.
#[derive(Clone, Copy, Debug, PartialEq, Eq, Structural)]
pub enum StoreError {
    /// The recipient's queue already holds the most messages it may.
    OverCapacity,
    /// The packed message is longer than the store accepts.
    OverSized,
    /// No such message in the caller's mailbox.
    NotFound,
    /// The store has run out of message ids or of representable time.
    InternalError,
}

impl StoreError {
    /// The kind under which this failure is reported.
    pub open spec fn spec_kind(self) -> ErrorKind {
        match self {
            StoreError::OverCapacity => ErrorKind::OverCapacity,
            StoreError::OverSized => ErrorKind::OverSized,
            StoreError::NotFound => ErrorKind::NotFound,
            StoreError::InternalError => ErrorKind::InternalError,
        }
    }

    /// The kind under which this failure is reported.
    pub fn kind(self) -> (k: ErrorKind)
        ensures
            k == self.spec_kind(),
    {
        match self {
            StoreError::OverCapacity => ErrorKind::OverCapacity,
            StoreError::OverSized => ErrorKind::OverSized,
            StoreError::NotFound => ErrorKind::NotFound,
            StoreError::InternalError => ErrorKind::InternalError,
        }
    }

    /// The text that stands for this failure in a per-recipient error list.
    pub fn to_text(self) -> (s: String)
        ensures
            s@ == self.spec_kind().spec_name(),
    {
        self.kind().name()
    }
}

} // verus!
