//! Errors of the billing engine, and the body of an error response.
use vstd::prelude::*;

verus! {

/// Why an organization could not be billed in a run.
#[derive(Debug, Clone, Copy, PartialEq, Eq, Structural)]
pub enum BillingError {
    /// The store could not be reached; the step may be retried.
    StoreUnavailable,
    /// A stored record is malformed; the organization is skipped.
    DataIntegrity,
    /// Usage exceeds a plan maximum with no addition purchased for it.
    PolicyViolation,
    /// An amount does not fit the representation of money.
    Internal,
}

/// The kind of an application error.
#[derive(Debug, Clone, Copy, PartialEq, Eq, Structural)]
#[non_exhaustive]
pub enum ErrorKind {
    Internal,
    InvalidData,
    NotFound,
    LogicalError,
    UnAuthorized,
    UnInitializedConnectionManager,
    BadInput,
    DatabaseError,
    DataIntergrityError,
    DataParseError,
}

/// The HTTP status code that an error of kind `k` answers with.
pub open spec fn status_of(k: ErrorKind) -> u16 {
    match k {
        ErrorKind::Internal => 500,
        ErrorKind::InvalidData => 400,
        ErrorKind::UnAuthorized => 401,
        ErrorKind::NotFound => 404,
        ErrorKind::UnInitializedConnectionManager => 500,
        ErrorKind::DataParseError => 500,
        ErrorKind::BadInput => 400,
        ErrorKind::DatabaseError => 500,
        ErrorKind::DataIntergrityError => 500,
        ErrorKind::LogicalError => 409,
    }
}

impl ErrorKind {
    /// The HTTP status code for this kind of error.
    pub fn status_code(&self) -> (r: u16)
        ensures
            r == status_of(*self),
    {
        match self {
            ErrorKind::Internal => 500,
            ErrorKind::InvalidData => 400,
            ErrorKind::UnAuthorized => 401,
            ErrorKind::NotFound => 404,
            ErrorKind::UnInitializedConnectionManager => 500,
            ErrorKind::DataParseError => 500,
            ErrorKind::BadInput => 400,
            ErrorKind::DatabaseError => 500,
            ErrorKind::DataIntergrityError => 500,
            ErrorKind::LogicalError => 409,
        }
    }
}

impl BillingError {
    /// The application error kind under which a billing error is reported.
    pub fn kind(&self) -> (r: ErrorKind)
        ensures
            *self == BillingError::StoreUnavailable ==> r == ErrorKind::DatabaseError,
            *self == BillingError::DataIntegrity ==> r == ErrorKind::DataIntergrityError,
            *self == BillingError::PolicyViolation ==> r == ErrorKind::LogicalError,
            *self == BillingError::Internal ==> r == ErrorKind::Internal,
    {
        match self {
            BillingError::StoreUnavailable => ErrorKind::DatabaseError,
            BillingError::DataIntegrity => ErrorKind::DataIntergrityError,
            BillingError::PolicyViolation => ErrorKind::LogicalError,
            BillingError::Internal => ErrorKind::Internal,
        }
    }
}

/// An application error: a message, a short code and a kind.
#[derive(Debug, Clone)]
pub struct Error {
    msg: String,
    code: String,
    kind: ErrorKind,
}

impl Error {
    pub closed spec fn msg_view(&self) -> Seq<char> {
        self.msg@
    }

    pub closed spec fn code_view(&self) -> Seq<char> {
        self.code@
    }

    pub closed spec fn kind_view(&self) -> ErrorKind {
        self.kind
    }

    /// An error with the code `NA`.
    pub fn new(msg: String, kind: ErrorKind) -> (r: Error)
        ensures
            r.msg_view() == msg@,
            r.code_view() == "NA"@,
            r.kind_view() == kind,
    {
        Error { msg, code: String::from_str("NA"), kind }
    }

    pub fn with_code(msg: String, code: String, kind: ErrorKind) -> (r: Error)
        ensures
            r.msg_view() == msg@,
            r.code_view() == code@,
            r.kind_view() == kind,
    {
        Error { msg, code, kind }
    }

    pub fn msg(&self) -> (r: &String)
        ensures
            r@ == self.msg_view(),
    {
        &self.msg
    }

    pub fn code(&self) -> (r: &str)
        ensures
            r@ == self.code_view(),
    {
        self.code.as_str()
    }

    pub fn kind(&self) -> (r: &ErrorKind)
        ensures
            *r == self.kind_view(),
    {
        &self.kind
    }
}

/// The body sent back for a failed request.
#[derive(Debug, Clone)]
pub struct ErrorResponse {
    pub msg: String,
    pub code: String,
}

impl ErrorResponse {
    pub fn new(code: String, msg: String) -> (r: ErrorResponse)
        ensures
            r.code@ == code@,
            r.msg@ == msg@,
    {
        ErrorResponse { code, msg }
    }
}

/// Attaching a message to the error of a `Result`.
pub trait Context<T>: Sized {
    /// Keeps a success; an error comes out carrying the message `msg`.
    fn context(self, msg: String) -> (r: Result<T, Error>)
        ensures
            r matches Err(e) ==> e.msg_view() == msg@;
}

impl<T> Context<T> for Result<T, ErrorKind> {
    fn context(self, msg: String) -> (r: Result<T, Error>) {
        match self {
            Ok(v) => Ok(v),
            Err(kind) => Err(Error::new(msg, kind)),
        }
    }
}

} // verus!
