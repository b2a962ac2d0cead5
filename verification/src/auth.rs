//! Sessions, their claims, and the roles that grant access.
use vstd::prelude::*;

use crate::csrf::HeaderValue;
use crate::opt_view;
use crate::error::ErrorKind;

verus! {

/// Name of the cookie that holds the session token.
pub const SESSION_COOKIE: &'static str = "session_token";

/// Name of the cookie that holds the refresh token.
pub const REFRESH_COOKIE: &'static str = "refresh_token";

/// Issuer of the session tokens.
pub const ISSUER: &'static str = "authust";

/// Seconds a session token stays valid.
pub const EXPIRATION_SECONDS: u64 = 120;

/// A role a user can hold.
#[derive(Debug, Clone, Copy, PartialEq, Eq, Structural)]
pub enum UserRole {
    Logs,
    Developer,
    Admin,
}

impl UserRole {
    /// The role's name (its display form).
    pub fn to_string(&self) -> (r: String)
        ensures
            r@ == match *self {
                UserRole::Logs => "logs"@,
                UserRole::Developer => "developer"@,
                UserRole::Admin => "admin"@,
            },
    {
        match self {
            UserRole::Logs => String::from_str("logs"),
            UserRole::Developer => String::from_str("developer"),
            UserRole::Admin => String::from_str("admin"),
        }
    }
}

/// The claims of a session token that are this server's own.
#[derive(Debug, Clone)]
pub struct AuthustClaims {
    pub roles: Vec<UserRole>,
}

/// The claims of a session token: issuer, expiry and start of validity (in
/// seconds since the Unix epoch), user and session (UUIDs as integers),
/// assurance level, and this server's claims.
#[derive(Debug, Clone)]
pub struct Claims {
    pub iss: String,
    pub exp: u64,
    pub nbf: u64,
    pub sub: u128,
    pub sid: u128,
    pub aal: u8,
    pub authust: AuthustClaims,
}

impl Claims {
    /// The claims of a session token issued at `now` (seconds since the Unix
    /// epoch): valid from now for `EXPIRATION_SECONDS`, at assurance level 0.
    pub fn new(user: u128, session: u128, authust: AuthustClaims, now: u64) -> (r: Self)
        requires
            now + EXPIRATION_SECONDS <= u64::MAX,
        ensures
            r.iss@ == ISSUER@,
            r.exp == now + EXPIRATION_SECONDS,
            r.nbf == now,
            r.sub == user,
            r.sid == session,
            r.aal == 0,
            r.authust == authust,
    {
        Claims {
            iss: String::from_str(ISSUER),
            exp: now + EXPIRATION_SECONDS,
            nbf: now,
            sub: user,
            sid: session,
            aal: 0,
            authust,
        }
    }
}

/// Why authentication failed.
#[derive(Debug, Clone, Copy, PartialEq, Eq, Structural)]
pub enum AuthError {
    MissingCookie,
    MissingHeader,
    InvalidHeader,
    InvalidSession,
    InvalidCredentials,
    ClaimsMissingInInfo,
}

/// The message of an authentication error (its display form).
pub open spec fn spec_auth_error_message(e: AuthError) -> Seq<char> {
    match e {
        AuthError::MissingCookie => "Authentication cookie missing"@,
        AuthError::MissingHeader => "Authorization header missing"@,
        AuthError::InvalidHeader => "Authorization header is invalid"@,
        AuthError::InvalidSession => "Invalid session"@,
        AuthError::InvalidCredentials => "Invalid credentials"@,
        AuthError::ClaimsMissingInInfo => "Claims missing in session info"@,
    }
}

impl AuthError {
    /// The error's message.
    pub fn to_string(&self) -> (r: String)
        ensures
            r@ == spec_auth_error_message(*self),
    {
        match self {
            AuthError::MissingCookie => String::from_str("Authentication cookie missing"),
            AuthError::MissingHeader => String::from_str("Authorization header missing"),
            AuthError::InvalidHeader => String::from_str("Authorization header is invalid"),
            AuthError::InvalidSession => String::from_str("Invalid session"),
            AuthError::InvalidCredentials => String::from_str("Invalid credentials"),
            AuthError::ClaimsMissingInInfo => String::from_str("Claims missing in session info"),
        }
    }
}

/// A session: its id, its user (UUIDs as integers) and, for token sessions,
/// the token's claims.
#[derive(Debug, Clone)]
pub struct SessionInfo {
    pub id: u128,
    pub user: u128,
    pub claims: Option<Claims>,
}

/// Whether a session grants a role: its claims list the role, or the admin
/// role, which grants every role.
pub open spec fn spec_has_role(claims: Option<Claims>, role: UserRole) -> bool {
    match claims {
        Some(c) => c.authust.roles@.contains(role) || c.authust.roles@.contains(UserRole::Admin),
        None => false,
    }
}

/// Whether a list of roles holds a role.
pub fn contains_role(roles: &Vec<UserRole>, role: UserRole) -> (r: bool)
    ensures
        r == roles@.contains(role),
{
    let mut i: usize = 0;
    while i < roles.len()
        invariant
            i <= roles.len(),
            forall|j: int| 0 <= j < i ==> roles@[j] != role,
        decreases roles.len() - i,
    {
        if roles[i] == role {
            return true;
        }
        i = i + 1;
    }
    false
}

impl SessionInfo {
    /// Whether the session's claims grant the role; admins hold every role.
    pub fn has_role(&self, role: UserRole) -> (r: bool)
        ensures
            r == spec_has_role(self.claims, role),
    {
        if let Some(claims) = &self.claims {
            if contains_role(&claims.authust.roles, role) || contains_role(
                &claims.authust.roles,
                UserRole::Admin,
            ) {
                return true;
            }
        }
        false
    }

    /// Grants access when the session has the role, and refuses it as
    /// forbidden otherwise.
    pub fn check_role(&self, role: UserRole) -> (r: Result<(), ErrorKind>)
        ensures
            spec_has_role(self.claims, role) ==> r is Ok,
            !spec_has_role(self.claims, role) ==> r == Err::<(), ErrorKind>(ErrorKind::Status(403)),
    {
        if self.has_role(role) {
            Ok(())
        } else {
            Err(ErrorKind::forbidden())
        }
    }

    /// Refuses (403) a session that is not an admin.
    pub fn check_admin(&self) -> (r: Result<(), ErrorKind>)
        ensures
            spec_has_role(self.claims, UserRole::Admin) ==> r is Ok,
            !spec_has_role(self.claims, UserRole::Admin) ==> r == Err::<(), ErrorKind>(
                ErrorKind::Status(403),
            ),
    {
        self.check_role(UserRole::Admin)
    }

    /// Refuses (403) a session without the developer role.
    pub fn check_developer(&self) -> (r: Result<(), ErrorKind>)
        ensures
            spec_has_role(self.claims, UserRole::Developer) ==> r is Ok,
            !spec_has_role(self.claims, UserRole::Developer) ==> r == Err::<(), ErrorKind>(
                ErrorKind::Status(403),
            ),
    {
        self.check_role(UserRole::Developer)
    }
}

/// The admin role grants every role.
pub proof fn lemma_admin_has_every_role(claims: Claims, role: UserRole)
    requires
        claims.authust.roles@.contains(UserRole::Admin),
    ensures
        spec_has_role(Some(claims), role),
{
}

/// The pattern of an `Authorization` header that carries a bearer token: the
/// word `Bearer`, a space, and at least 16 of `a-z`, `A-Z`, `0-9`, `-`, `_`,
/// `=`, `.`; the token is captured.
pub const BEARER_AUTH_PATTERN: &'static str = "^Bearer ([a-zA-Z0-9-_=.]{16,})$";

/// Whether a character may stand in a bearer token.
pub open spec fn bearer_char(c: char) -> bool {
    ('a' <= c <= 'z') || ('A' <= c <= 'Z') || ('0' <= c <= '9') || c == '-' || c == '_' || c
        == '=' || c == '.'
}

/// The token of an `Authorization` header value: what follows `Bearer `,
/// when that is at least 16 token characters and nothing else.
pub open spec fn spec_bearer_token(h: Seq<char>) -> Option<Seq<char>> {
    if h.len() >= 23 && h.take(7) == "Bearer "@ && forall|i: int|
        7 <= i < h.len() ==> #[trigger] bearer_char(h[i]) {
        Some(h.skip(7))
    } else {
        None
    }
}

/// Captures the token of an `Authorization` header with `regex`
/// (`Regex::new(BEARER_AUTH_PATTERN)`, then `captures` and its first group).
/// The pattern is anchored at both ends, so it matches exactly the texts
/// `Bearer ` followed by 16 or more characters of its class, and the group
/// is what follows `Bearer `.
#[verifier::external_body]
fn regex_bearer_capture(pattern: &str, haystack: &str) -> (r: Option<String>)
    requires
        pattern@ == BEARER_AUTH_PATTERN@,
    ensures
        opt_view(r) == spec_bearer_token(haystack@),
{
    regex::Regex::new(pattern).unwrap().captures(haystack).and_then(|c| c.get(1)).map(
        |m| m.as_str().to_string(),
    )
}

/// The bearer token of a request's `Authorization` header: a missing header
/// and one that is not text or not a bearer token are refused.
pub fn bearer_token(header: &HeaderValue) -> (r: Result<String, AuthError>)
    ensures
        match *header {
            HeaderValue::Missing => r == Err::<String, AuthError>(AuthError::MissingHeader),
            HeaderValue::NotText => r == Err::<String, AuthError>(AuthError::InvalidHeader),
            HeaderValue::Text(h) => match spec_bearer_token(h@) {
                Some(t) => r matches Ok(token) && token@ == t,
                None => r == Err::<String, AuthError>(AuthError::InvalidHeader),
            },
        },
{
    match header {
        HeaderValue::Missing => Err(AuthError::MissingHeader),
        HeaderValue::NotText => Err(AuthError::InvalidHeader),
        HeaderValue::Text(h) => match regex_bearer_capture(BEARER_AUTH_PATTERN, h.as_str()) {
            Some(token) => Ok(token),
            None => Err(AuthError::InvalidHeader),
        },
    }
}

/// A session without the admin role holds exactly the roles its claims
/// list, a session with it holds every role, and a session without claims
/// holds none.
pub proof fn lemma_roles_are_listed(claims: Option<Claims>, role: UserRole)
    ensures
        match claims {
            None => !spec_has_role(claims, role),
            Some(c) => {
                &&& !c.authust.roles@.contains(UserRole::Admin) ==> (spec_has_role(claims, role)
                    <==> c.authust.roles@.contains(role))
                &&& c.authust.roles@.contains(UserRole::Admin) ==> spec_has_role(claims, role)
            },
        },
{
}

} // verus!
