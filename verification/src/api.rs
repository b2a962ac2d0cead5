//! Errors of the flow API and what it reads from requests.
use std::marker::PhantomData;

use vstd::prelude::*;

pub mod auth;
pub mod flow;
pub mod policy;

use crate::error::{ArgonError, JwtErrorKind};
use crate::model::error::SubmissionError;

verus! {

/// Name of the header that carries the CSRF token.
pub const CSRF_HEADER: &'static str = "x-csrf-token";

/// The kinds of error the flow API ends in; errors that come from outside
/// libraries are held by their message.
#[derive(Debug, Clone)]
pub enum ApiErrorKind {
    Axum(String),
    InvalidLoginData,
    SessionCookieMissing,
    InvalidSessionCookie,
    NotFound,
    MiscInternal(String),
    Unauthorized,
    Forbidden,
    Conflict,
    MissingMiddleware(String),
    PwHash(String),
    PoolError(String),
    PostgresError(String),
    SubmissionError(SubmissionError),
    JsonWebToken(JwtErrorKind),
    InternalEntityNotFound(String),
}

/// Whether an error is the server's fault (and is logged with a trace).
pub open spec fn spec_is_internal(kind: ApiErrorKind) -> bool {
    match kind {
        ApiErrorKind::InvalidLoginData | ApiErrorKind::NotFound | ApiErrorKind::SubmissionError(_)
        | ApiErrorKind::SessionCookieMissing | ApiErrorKind::InvalidSessionCookie
        | ApiErrorKind::Unauthorized | ApiErrorKind::Forbidden | ApiErrorKind::Conflict => false,
        _ => true,
    }
}

/// The status an error is answered with.
pub open spec fn spec_api_status(kind: ApiErrorKind) -> u16 {
    match kind {
        ApiErrorKind::InvalidLoginData => 401,
        ApiErrorKind::NotFound => 404,
        ApiErrorKind::SubmissionError(_) => 400,
        ApiErrorKind::SessionCookieMissing | ApiErrorKind::Unauthorized => 401,
        ApiErrorKind::InvalidSessionCookie => 401,
        ApiErrorKind::Forbidden => 403,
        ApiErrorKind::Conflict => 409,
        _ => 500,
    }
}

impl ApiErrorKind {
    /// Whether the error is the server's own (its trace is logged).
    pub fn is_internal(&self) -> (r: bool)
        ensures
            r == spec_is_internal(*self),
    {
        match self {
            ApiErrorKind::InvalidLoginData => false,
            ApiErrorKind::PwHash(_) => true,
            ApiErrorKind::NotFound => false,
            ApiErrorKind::MiscInternal(_) => true,
            ApiErrorKind::SubmissionError(_) => false,
            ApiErrorKind::SessionCookieMissing => false,
            ApiErrorKind::InvalidSessionCookie => false,
            ApiErrorKind::MissingMiddleware(_) => true,
            ApiErrorKind::Unauthorized => false,
            ApiErrorKind::JsonWebToken(_) => true,
            ApiErrorKind::Forbidden => false,
            ApiErrorKind::Conflict => false,
            ApiErrorKind::PoolError(_) => true,
            ApiErrorKind::PostgresError(_) => true,
            ApiErrorKind::Axum(_) => true,
            ApiErrorKind::InternalEntityNotFound(_) => true,
        }
    }

    /// The status the error is answered with; a submission error carries
    /// its details in the body.
    pub fn status(&self) -> (r: u16)
        ensures
            r == spec_api_status(*self),
    {
        match self {
            ApiErrorKind::Axum(_) | ApiErrorKind::PwHash(_) | ApiErrorKind::PoolError(_)
            | ApiErrorKind::PostgresError(_) | ApiErrorKind::MiscInternal(_)
            | ApiErrorKind::MissingMiddleware(_) | ApiErrorKind::InternalEntityNotFound(_)
            | ApiErrorKind::JsonWebToken(_) => 500,
            ApiErrorKind::InvalidLoginData => 401,
            ApiErrorKind::NotFound => 404,
            ApiErrorKind::SubmissionError(_) => 400,
            ApiErrorKind::SessionCookieMissing | ApiErrorKind::Unauthorized => 401,
            ApiErrorKind::InvalidSessionCookie => 401,
            ApiErrorKind::Forbidden => 403,
            ApiErrorKind::Conflict => 409,
        }
    }

    /// The error of a failed token operation: errors of keys, algorithms and
    /// cryptography are the server's, any other makes the session cookie
    /// invalid.
    pub fn from_jwt(kind: JwtErrorKind) -> (r: Self)
        ensures
            match kind {
                JwtErrorKind::InvalidEcdsaKey | JwtErrorKind::InvalidRsaKey
                | JwtErrorKind::RsaFailedSigning | JwtErrorKind::InvalidAlgorithmName
                | JwtErrorKind::InvalidKeyFormat | JwtErrorKind::InvalidAlgorithm
                | JwtErrorKind::MissingAlgorithm | JwtErrorKind::Crypto => r == ApiErrorKind::JsonWebToken(kind),
                _ => r == ApiErrorKind::InvalidSessionCookie,
            },
    {
        match kind {
            JwtErrorKind::InvalidEcdsaKey => ApiErrorKind::JsonWebToken(kind),
            JwtErrorKind::InvalidRsaKey => ApiErrorKind::JsonWebToken(kind),
            JwtErrorKind::RsaFailedSigning => ApiErrorKind::JsonWebToken(kind),
            JwtErrorKind::InvalidAlgorithmName => ApiErrorKind::JsonWebToken(kind),
            JwtErrorKind::InvalidKeyFormat => ApiErrorKind::JsonWebToken(kind),
            JwtErrorKind::InvalidAlgorithm => ApiErrorKind::JsonWebToken(kind),
            JwtErrorKind::MissingAlgorithm => ApiErrorKind::JsonWebToken(kind),
            JwtErrorKind::Crypto => ApiErrorKind::JsonWebToken(kind),
            _ => ApiErrorKind::InvalidSessionCookie,
        }
    }

    /// The error of a failed password check: a wrong password is invalid
    /// login data, anything else a hashing error with its message.
    pub fn from_argon(err: ArgonError, message: String) -> (r: Self)
        ensures
            err == ArgonError::Password ==> r == ApiErrorKind::InvalidLoginData,
            err == ArgonError::Other ==> r == ApiErrorKind::PwHash(message),
    {
        match err {
            ArgonError::Password => ApiErrorKind::InvalidLoginData,
            ArgonError::Other => ApiErrorKind::PwHash(message),
        }
    }

    /// The error of a failed database statement: a unique violation is a
    /// conflict, anything else a database error with its message.
    pub fn from_postgres(unique_violation: bool, message: String) -> (r: Self)
        ensures
            unique_violation ==> r == ApiErrorKind::Conflict,
            !unique_violation ==> r == ApiErrorKind::PostgresError(message),
    {
        if unique_violation {
            ApiErrorKind::Conflict
        } else {
            ApiErrorKind::PostgresError(message)
        }
    }

    /// The error of this kind.
    pub fn into_api(self) -> (r: ApiError)
        ensures
            r.kind == self,
            r.has_trace == spec_is_internal(self),
    {
        ApiError::from_kind(self)
    }
}

/// An error of the flow API, and whether a trace was taken (for internal
/// errors).
#[derive(Debug, Clone)]
pub struct ApiError {
    pub kind: ApiErrorKind,
    pub has_trace: bool,
}

impl ApiError {
    /// An error of a kind, with a trace when the error is internal.
    pub fn from_kind(kind: ApiErrorKind) -> (r: Self)
        ensures
            r.kind == kind,
            r.has_trace == spec_is_internal(kind),
    {
        let has_trace = kind.is_internal();
        ApiError { kind, has_trace }
    }
}

/// Where to go once a flow is completed.
#[derive(Debug, Clone)]
pub struct ExecutorQuery {
    pub next: Option<String>,
}

/// The query string of a flow request, which holds an encoded
/// `ExecutorQuery`.
#[derive(Debug, Clone)]
pub struct InternalExecutorQuery {
    pub query: String,
}

/// A slug taken from the path, for an object of type `D`.
pub struct SlugWrapper<D>(pub String, pub PhantomData<D>);

impl<D> SlugWrapper<D> {
    /// A slug taken from the path.
    pub fn new(slug: String) -> (r: Self)
        ensures
            r.0 == slug,
    {
        Self(slug, PhantomData)
    }
}

/// A query string read into `T`, rejected as an error of the API.
pub struct ApiQuery<T>(pub T);

/// A successful answer of the API carrying `T`.
pub struct ApiResponse<T>(pub T);

} // verus!
