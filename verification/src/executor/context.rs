//! What a flow execution knows about its session and its user.
use vstd::prelude::*;

use crate::model::data::PendingUser;
use crate::model::policy::{PolicyKind, PolicyResult};
use crate::model::reference::Reference;
use crate::model::stage::Stage;

verus! {

/// Bound on the magnitude of a timestamp in nanoseconds since the Unix epoch:
/// dates lie between the years -9999 and 9999.
pub const TIMESTAMP_LIMIT: i128 = 400_000_000_000_000_000_000;

/// Nanoseconds per second.
pub const NANOS_PER_SECOND: i128 = 1_000_000_000;

/// Whether a timestamp lies within `TIMESTAMP_LIMIT` of the epoch.
pub open spec fn valid_timestamp(t: i128) -> bool {
    -TIMESTAMP_LIMIT <= t <= TIMESTAMP_LIMIT
}

/// The current time in nanoseconds since the Unix epoch
/// (`time::OffsetDateTime::now_utc`). Only that it is a date that `time`
/// represents is stated; which date is left open.
#[verifier::external_body]
pub fn now_utc_nanos() -> (r: i128)
    ensures
        valid_timestamp(r),
{
    time::OffsetDateTime::now_utc().unix_timestamp_nanos()
}

/// An error that stopped a flow, with the stage it came from.
#[derive(Debug, Clone)]
pub struct ExecutionError {
    pub stage: Option<Reference<Stage>>,
    pub message: String,
}

/// The user a policy is checked for.
#[derive(Debug, Clone)]
pub struct PolicyUser {
    pub uid: u128,
    pub name: String,
    pub password_change_date: i128,
}

/// The state of a flow execution that stages and policies read and write:
/// the session, when the execution started, the pending and the signed-in
/// user, and the error that stopped it, if any.
#[derive(Debug, Clone)]
pub struct ExecutionContext {
    pub session_id: String,
    pub start_time: i128,
    pub pending: Option<PendingUser>,
    pub user: Option<PolicyUser>,
    pub error: Option<ExecutionError>,
}

impl ExecutionContext {
    /// A fresh context for a session, started now.
    pub fn new(session_id: String) -> (r: Self)
        ensures
            r.session_id == session_id,
            valid_timestamp(r.start_time),
            r.pending is None,
            r.user is None,
            r.error is None,
    {
        Self { session_id, start_time: now_utc_nanos(), pending: None, user: None, error: None }
    }

    /// The context's times are dates that `time` represents.
    pub open spec fn wf(&self) -> bool {
        &&& valid_timestamp(self.start_time)
        &&& (self.user matches Some(u) ==> valid_timestamp(u.password_change_date))
    }
}

/// Whether a password changed at `changed` has expired at `now` under a
/// maximal age of `max_age` seconds: more than that time has passed.
pub open spec fn spec_password_expired(now: i128, changed: i128, max_age: i32) -> bool {
    now - changed > max_age * NANOS_PER_SECOND
}

/// The result of a policy for the user of a context: a password expiry policy
/// does not apply without a user and otherwise holds when the password has
/// expired.
pub open spec fn spec_validate(kind: PolicyKind, context: ExecutionContext) -> PolicyResult {
    match kind {
        PolicyKind::PasswordExpiry { max_age } => match context.user {
            Some(user) => PolicyResult::Value(
                spec_password_expired(context.start_time, user.password_change_date, max_age),
            ),
            None => PolicyResult::NotApplicable,
        },
        _ => PolicyResult::NotApplicable,
    }
}

impl PolicyKind {
    /// Evaluates a password expiry policy for the user of a context.
    pub fn validate(&self, context: &ExecutionContext) -> (r: PolicyResult)
        requires
            self is PasswordExpiry,
            context.wf(),
        ensures
            r == spec_validate(*self, *context),
    {
        match self {
            PolicyKind::PasswordExpiry { max_age } => match &context.user {
                Some(user) => {
                    let elapsed: i128 = context.start_time - user.password_change_date;
                    let limit: i128 = (*max_age as i128) * NANOS_PER_SECOND;
                    PolicyResult::from(elapsed > limit)
                },
                None => PolicyResult::NotApplicable,
            },
            _ => PolicyResult::NotApplicable,
        }
    }
}

} // verus!
