//! Users as policies and checks see them.
use vstd::prelude::*;

verus! {

/// A signed-in user. The UUID is held as an integer, the date of the last
/// password change as nanoseconds since the Unix epoch.
#[derive(Debug, Clone)]
pub struct PartialUser {
    pub uid: u128,
    pub name: String,
    pub avatar_url: Option<String>,
    pub is_admin: bool,
    pub password_change_date: i128,
}

} // verus!
