//! Verified core of an authentication server: flow execution decisions,
//! CSRF token masking, OAuth scope handling and the data model they act on.

pub mod csrf;
pub mod model;
pub mod executor;
pub mod flow_storage;
pub mod routes;
pub mod auth;
pub mod error;
pub mod api;
pub mod policy_engine;
pub mod interface;

use vstd::prelude::*;

verus! {

/// The view of an optional string.
pub open spec fn opt_view(o: Option<String>) -> Option<Seq<char>> {
    match o {
        Some(s) => Some(s@),
        None => None,
    }
}

} // verus!
