//! The scopes that applications may be granted, and the request handling
//! logic of the routes: OAuth authorization, users, applications.
use vstd::prelude::*;

pub mod admin;
pub mod application_groups;
pub mod applications;
pub mod auth;
pub mod oauth;
pub mod user;

verus! {

/// A scope that the server itself defines.
#[derive(Debug, Clone, Copy, PartialEq, Eq, Structural, PartialOrd, Ord, Hash)]
pub enum InternalScope {
    ProfileRead,
    ProfileWrite,
}

/// The name of an internal scope.
pub open spec fn spec_scope_name(scope: InternalScope) -> Seq<char> {
    match scope {
        InternalScope::ProfileRead => "profile:read"@,
        InternalScope::ProfileWrite => "profile:write"@,
    }
}

/// The internal scope a name stands for, if any.
pub open spec fn spec_internal_scope(s: Seq<char>) -> Option<InternalScope> {
    if s == "profile:read"@ {
        Some(InternalScope::ProfileRead)
    } else if s == "profile:write"@ {
        Some(InternalScope::ProfileWrite)
    } else {
        None
    }
}

/// Whether two strings are equal (`str` equality).
pub fn str_eq(a: &str, b: &str) -> (r: bool)
    ensures
        r == (a@ == b@),
{
    let x = a.to_owned();
    let y = b.to_owned();
    x == y
}

impl InternalScope {
    /// Every internal scope.
    pub fn values() -> (r: [InternalScope; 2])
        ensures
            r@ == seq![InternalScope::ProfileRead, InternalScope::ProfileWrite],
    {
        [InternalScope::ProfileRead, InternalScope::ProfileWrite]
    }

    /// The names of every internal scope.
    pub fn string_values() -> (r: [&'static str; 2])
        ensures
            r@[0]@ == "profile:read"@,
            r@[1]@ == "profile:write"@,
            r@.len() == 2,
    {
        ["profile:read", "profile:write"]
    }

    /// The internal scope of a name, if any.
    pub fn from_str(s: &str) -> (r: Option<Self>)
        ensures
            r == spec_internal_scope(s@),
    {
        if str_eq(s, "profile:read") {
            Some(Self::ProfileRead)
        } else if str_eq(s, "profile:write") {
            Some(Self::ProfileWrite)
        } else {
            None
        }
    }

    /// The scope's name (its display form).
    pub fn to_string(&self) -> (r: String)
        ensures
            r@ == spec_scope_name(*self),
    {
        match self {
            InternalScope::ProfileRead => String::from_str("profile:read"),
            InternalScope::ProfileWrite => String::from_str("profile:write"),
        }
    }
}

/// The name of a scope is not one of the internal scopes.
#[derive(Debug, Clone, Copy)]
pub struct UnknownInternalScope;

impl std::str::FromStr for InternalScope {
    type Err = UnknownInternalScope;

    fn from_str(s: &str) -> Result<Self, Self::Err>
        returns
            (match spec_internal_scope(s@) {
                Some(scope) => Ok(scope),
                None => Err(UnknownInternalScope),
            }),
    {
        match InternalScope::from_str(s) {
            Some(scope) => Ok(scope),
            None => Err(UnknownInternalScope),
        }
    }
}

/// The kind of an application: a server-side web application or a
/// single-page application.
#[derive(Debug, Clone, Copy, PartialEq, Eq, Structural)]
pub enum ApplicationKind {
    WebServer,
    SPA,
}

/// Whether an application asks the user for consent.
#[derive(Debug, Clone, Copy, PartialEq, Eq, Structural)]
pub enum ConsentMode {
    Explicit,
    Implicit,
}

/// The outcome of a statement that must change exactly one row: none is
/// answered with `missing` (404 for a missing object, 409 for a refused
/// insert), more than one is an internal error (500).
pub fn expect_single_row(affected: u64, missing: u16) -> (r: Result<(), crate::error::ErrorKind>)
    ensures
        affected == 1 ==> r is Ok,
        affected == 0 ==> r == Err::<(), crate::error::ErrorKind>(crate::error::ErrorKind::Status(missing)),
        affected > 1 ==> r == Err::<(), crate::error::ErrorKind>(crate::error::ErrorKind::Status(500)),
{
    if affected == 0 {
        Err(crate::error::ErrorKind::Status(missing))
    } else if affected > 1 {
        Err(crate::error::ErrorKind::internal())
    } else {
        Ok(())
    }
}

} // verus!
