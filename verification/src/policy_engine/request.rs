//! The request an expression is evaluated for.
use vstd::prelude::*;

use crate::model::user::PartialUser;
use crate::policy_engine::uri::RhaiUri;

verus! {

/// The request: its address and its signed-in user, if any.
#[derive(Debug, Clone)]
pub struct RhaiRequest {
    pub uri: RhaiUri,
    pub user: Option<PartialUser>,
}

impl RhaiRequest {
    /// The address of the request.
    pub fn get_uri(&self) -> (r: &RhaiUri)
        ensures
            *r == self.uri,
    {
        &self.uri
    }

    /// The signed-in user, if any.
    pub fn get_user(&self) -> (r: &Option<PartialUser>)
        ensures
            *r == self.user,
    {
        &self.user
    }
}

} // verus!
