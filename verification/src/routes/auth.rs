//! Sign-in and registration requests.
use vstd::prelude::*;

verus! {

/// A sign-in request.
#[derive(Debug, Clone)]
pub struct LoginPayload {
    pub user: String,
    pub password: String,
}

/// A registration request.
#[derive(Debug, Clone)]
pub struct RegisterPayload {
    pub user: String,
    pub password: String,
}

} // verus!
