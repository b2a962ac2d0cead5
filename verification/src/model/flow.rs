//! Flows: a sequence of entries, each running one stage, guarded by bindings.
use vstd::prelude::*;

use crate::model::policy::Policy;
use crate::model::reference::Reference;
use crate::model::stage::Stage;

verus! {

/// Which users a flow admits: only superusers, only signed-in users, only
/// users who are not signed in (`Unauthenticated`), or anyone.
#[derive(Debug, Clone, Copy, PartialEq, Eq, Structural)]
pub enum AuthenticationRequirement {
    Superuser,
    Required,
    Unauthenticated,
    Ignored,
}

/// What a flow is for.
#[derive(Debug, Clone, Copy, PartialEq, Eq, Structural)]
pub enum FlowDesignation {
    Invalidation,
    Authentication,
    Authorization,
    Enrollment,
    Recovery,
    Unenrollment,
    Configuration,
}

/// A flow: its bindings guard the whole flow, its entries run in order.
#[derive(Debug, Clone)]
pub struct Flow {
    pub uid: i32,
    pub slug: String,
    pub title: String,
    pub designation: FlowDesignation,
    pub authentication: AuthenticationRequirement,
    pub bindings: Vec<FlowBinding>,
    pub entries: Vec<FlowEntry>,
}

/// A check bound to a flow or an entry, which can be disabled or negated.
#[derive(Debug, Clone)]
pub struct FlowBinding {
    pub enabled: bool,
    pub negate: bool,
    pub order: i16,
    pub kind: FlowBindingKind,
}

/// What a binding checks: membership of a group, being a given user (both by
/// the user's or group's UUID as an integer), or a policy.
#[derive(Debug, Clone)]
pub enum FlowBindingKind {
    Group(u128),
    User(u128),
    Policy(Reference<Policy>),
}

/// An entry of a flow: the stage it runs and the bindings that guard it.
#[derive(Debug, Clone)]
pub struct FlowEntry {
    pub ordering: i16,
    pub bindings: Vec<FlowBinding>,
    pub stage: Reference<Stage>,
}

/// The path parameter that names a flow.
#[derive(Debug, Clone)]
pub struct FlowParam {
    pub flow_slug: String,
}

} // verus!
