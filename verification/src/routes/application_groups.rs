//! Application groups: the scopes a group of applications may be granted.
use vstd::prelude::*;

use crate::routes::InternalScope;

verus! {

/// The new scopes of an application group.
#[derive(Debug, Clone)]
pub struct ReplacePayload {
    pub scopes: Vec<InternalScope>,
}

} // verus!
