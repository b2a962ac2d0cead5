//! Errors of request handling and the responses they turn into.
use vstd::prelude::*;

use crate::auth::AuthError;
use crate::opt_view;

verus! {

/// An error with its own status and message.
#[derive(Debug, Clone)]
pub struct ApiError {
    pub status: u16,
    pub message: String,
}

impl ApiError {
    /// An error answered with a status and a message.
    pub fn new(status: u16, message: &str) -> (r: Self)
        ensures
            r.status == status,
            r.message@ == message@,
    {
        ApiError { status, message: message.to_owned() }
    }
}

/// What went wrong while handling a JSON web token.
#[derive(Debug, Clone, Copy, PartialEq, Eq, Structural)]
pub enum JwtErrorKind {
    InvalidToken,
    InvalidSignature,
    InvalidEcdsaKey,
    InvalidRsaKey,
    RsaFailedSigning,
    InvalidAlgorithmName,
    InvalidKeyFormat,
    MissingRequiredClaim,
    ExpiredSignature,
    InvalidIssuer,
    InvalidAudience,
    InvalidSubject,
    ImmatureSignature,
    InvalidAlgorithm,
    MissingAlgorithm,
    Base64,
    Json,
    Utf8,
    Crypto,
    Other,
}

/// What went wrong while hashing or checking a password: a wrong password,
/// or anything else.
#[derive(Debug, Clone, Copy, PartialEq, Eq, Structural)]
pub enum ArgonError {
    Password,
    Other,
}

/// The kinds of error request handling ends in.
#[derive(Debug, Clone)]
pub enum ErrorKind {
    Status(u16),
    Api(ApiError),
    PoolError,
    PostgresError,
    Auth(AuthError),
    Jwt(JwtErrorKind),
    Argon(ArgonError),
    HeaderNotAscii { header_name: String },
    TokioJoin,
    Oauth,
    Json { status: u16, body: String },
    Query { status: u16, body: String },
}

/// The status and message a failed request is answered with.
#[derive(Debug, Clone)]
pub struct ResponseError {
    pub status: u16,
    pub message: Option<String>,
}

impl ErrorKind {
    /// 404.
    pub fn not_found() -> (r: Self)
        ensures
            r == ErrorKind::Status(404),
    {
        Self::Status(404)
    }

    /// 403.
    pub fn forbidden() -> (r: Self)
        ensures
            r == ErrorKind::Status(403),
    {
        Self::Status(403)
    }

    /// 500.
    pub fn internal() -> (r: Self)
        ensures
            r == ErrorKind::Status(500),
    {
        Self::Status(500)
    }
}

/// The answer to a password hashing error: a wrong password is
/// unauthorized, anything else an internal error.
pub open spec fn spec_argon_response(err: ArgonError) -> (u16, Option<Seq<char>>) {
    match err {
        ArgonError::Password => (401, Some("Invalid password"@)),
        ArgonError::Other => (500, None),
    }
}

/// The answer to a token error.
pub open spec fn spec_jwt_response(err: JwtErrorKind) -> (u16, Option<Seq<char>>) {
    match err {
        JwtErrorKind::InvalidToken => (401, Some("JWT: Malformed"@)),
        JwtErrorKind::InvalidSignature => (401, Some("JWT: Invalid signature"@)),
        JwtErrorKind::ExpiredSignature => (401, Some("JWT: Expired"@)),
        JwtErrorKind::InvalidIssuer => (401, Some("JWT: Invalid issuer"@)),
        JwtErrorKind::InvalidAudience => (401, Some("JWT: Invalid audience"@)),
        JwtErrorKind::InvalidSubject => (401, Some("JWT: Invalid subject"@)),
        JwtErrorKind::ImmatureSignature => (400, Some("JWT: Immature signature"@)),
        JwtErrorKind::InvalidAlgorithm => (400, Some("JWT: Invalid algorithm"@)),
        JwtErrorKind::Base64 => (400, Some("JWT: Invalid"@)),
        _ => (500, None),
    }
}

fn respond(status: u16, message: &str) -> (r: ResponseError)
    ensures
        r.status == status,
        opt_view(r.message) == Some(message@),
{
    ResponseError { status, message: Some(message.to_owned()) }
}

fn respond_status(status: u16) -> (r: ResponseError)
    ensures
        r.status == status,
        r.message is None,
{
    ResponseError { status, message: None }
}

/// The answer to an error of a password hash.
pub fn argon_error(err: &ArgonError) -> (r: ResponseError)
    ensures
        (r.status, opt_view(r.message)) == spec_argon_response(*err),
{
    match err {
        ArgonError::Password => respond(401, "Invalid password"),
        _ => respond_status(500),
    }
}

/// The answer to an error of a session token.
pub fn jwt_response(err: &JwtErrorKind) -> (r: ResponseError)
    ensures
        (r.status, opt_view(r.message)) == spec_jwt_response(*err),
{
    match err {
        JwtErrorKind::InvalidToken => respond(401, "JWT: Malformed"),
        JwtErrorKind::InvalidSignature => respond(401, "JWT: Invalid signature"),
        JwtErrorKind::InvalidEcdsaKey | JwtErrorKind::InvalidRsaKey | JwtErrorKind::RsaFailedSigning
        | JwtErrorKind::InvalidAlgorithmName | JwtErrorKind::MissingAlgorithm
        | JwtErrorKind::InvalidKeyFormat => respond_status(500),
        JwtErrorKind::MissingRequiredClaim => respond_status(500),
        JwtErrorKind::ExpiredSignature => respond(401, "JWT: Expired"),
        JwtErrorKind::InvalidIssuer => respond(401, "JWT: Invalid issuer"),
        JwtErrorKind::InvalidAudience => respond(401, "JWT: Invalid audience"),
        JwtErrorKind::InvalidSubject => respond(401, "JWT: Invalid subject"),
        JwtErrorKind::ImmatureSignature => respond(400, "JWT: Immature signature"),
        JwtErrorKind::InvalidAlgorithm => respond(400, "JWT: Invalid algorithm"),
        JwtErrorKind::Base64 => respond(400, "JWT: Invalid"),
        JwtErrorKind::Json => respond_status(500),
        JwtErrorKind::Utf8 => respond_status(500),
        JwtErrorKind::Crypto => respond_status(500),
        _ => respond_status(500),
    }
}

/// The answer to an error of request handling. Authentication errors are
/// unauthorized (but for missing claims, an internal error), header errors
/// bad requests, database and task errors internal errors; errors that carry
/// a status keep it.
pub open spec fn spec_response(kind: ErrorKind) -> (u16, Option<Seq<char>>) {
    match kind {
        ErrorKind::PoolError | ErrorKind::PostgresError | ErrorKind::TokioJoin => (500, None),
        ErrorKind::Status(status) => (status, None),
        ErrorKind::Jwt(err) => spec_jwt_response(err),
        ErrorKind::Argon(err) => spec_argon_response(err),
        ErrorKind::HeaderNotAscii { header_name } => (
            400,
            Some("Header '"@ + header_name@ + "' contains non-ascii chars"@),
        ),
        ErrorKind::Auth(auth) => match auth {
            AuthError::MissingCookie => (401, Some("Authentication cookie missing"@)),
            AuthError::InvalidSession => (401, Some("Invalid session"@)),
            AuthError::MissingHeader => (401, Some("Authorization header missing"@)),
            AuthError::InvalidHeader => (401, Some("Authorization header is invalid"@)),
            AuthError::InvalidCredentials => (401, Some("Invalid credentials"@)),
            AuthError::ClaimsMissingInInfo => (500, None),
        },
        ErrorKind::Api(err) => (err.status, Some(err.message@)),
        ErrorKind::Json { status, body } => (status, Some(body@)),
        ErrorKind::Query { status, body } => (status, Some(body@)),
        ErrorKind::Oauth => (500, None),
    }
}

impl ErrorKind {
    /// The status and message the error is answered with.
    pub fn response(&self) -> (r: ResponseError)
        requires
            !(self is Oauth),
        ensures
            (r.status, opt_view(r.message)) == spec_response(*self),
    {
        match self {
            ErrorKind::PoolError | ErrorKind::PostgresError | ErrorKind::TokioJoin => respond_status(500),
            ErrorKind::Status(status) => respond_status(*status),
            ErrorKind::Jwt(err) => jwt_response(err),
            ErrorKind::Argon(err) => argon_error(err),
            ErrorKind::HeaderNotAscii { header_name } => {
                let m = String::from_str("Header '").concat(header_name.as_str()).concat(
                    "' contains non-ascii chars",
                );
                ResponseError { status: 400, message: Some(m) }
            },
            ErrorKind::Auth(auth) => match auth {
                AuthError::MissingCookie => respond(401, "Authentication cookie missing"),
                AuthError::InvalidSession => respond(401, "Invalid session"),
                AuthError::MissingHeader => respond(401, "Authorization header missing"),
                AuthError::InvalidHeader => respond(401, "Authorization header is invalid"),
                AuthError::InvalidCredentials => respond(401, "Invalid credentials"),
                AuthError::ClaimsMissingInInfo => respond_status(500),
            },
            ErrorKind::Api(err) => ResponseError { status: err.status, message: Some(err.message.clone()) },
            ErrorKind::Json { status, body } => ResponseError { status: *status, message: Some(body.clone()) },
            ErrorKind::Query { status, body } => ResponseError {
                status: *status,
                message: Some(body.clone()),
            },
            ErrorKind::Oauth => respond_status(500),
        }
    }
}

/// Whether a status is a server error (500 to 599).
pub open spec fn spec_is_server_error(status: u16) -> bool {
    500 <= status <= 599
}

/// An error of request handling with the answer it turns into, and whether
/// that answer is a server error (for which a trace is kept).
#[derive(Debug, Clone)]
pub struct Error {
    pub kind: ErrorKind,
    pub response_error: ResponseError,
    pub is_server_error: bool,
}

impl Error {
    /// An error with the answer its kind gets; a server error (5xx) is
    /// marked as such.
    pub fn from_kind(kind: ErrorKind) -> (r: Self)
        requires
            !(kind is Oauth),
        ensures
            r.kind == kind,
            (r.response_error.status, opt_view(r.response_error.message)) == spec_response(kind),
            r.is_server_error == spec_is_server_error(r.response_error.status),
    {
        let response_error = kind.response();
        let status = response_error.status;
        let is_server_error = 500 <= status && status <= 599;
        Error { kind, response_error, is_server_error }
    }

    /// What went wrong.
    pub fn kind(&self) -> (r: &ErrorKind)
        ensures
            *r == self.kind,
    {
        &self.kind
    }
}

} // verus!
