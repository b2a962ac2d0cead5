//! The context an expression runs in.
use vstd::prelude::*;

use crate::model::data::PendingUser;

verus! {

/// What an expression knows of its flow: the pending user, if any.
#[derive(Debug, Clone)]
pub struct RhaiContext {
    pub pending_user: Option<PendingUser>,
}

impl RhaiContext {
    /// The pending user.
    pub fn get_pending_user(&self) -> (r: Option<PendingUser>)
        ensures
            r is Some <==> self.pending_user is Some,
            r matches Some(p) ==> p.uid == self.pending_user->0.uid && p.name@
                == self.pending_user->0.name@ && p.authenticated
                == self.pending_user->0.authenticated && p.is_admin
                == self.pending_user->0.is_admin && crate::opt_view(p.avatar_url)
                == crate::opt_view(self.pending_user->0.avatar_url),
    {
        match &self.pending_user {
            Some(p) => Some(p.copy()),
            None => None,
        }
    }
}

} // verus!
