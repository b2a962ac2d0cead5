//! Policies that flow bindings check.
use vstd::prelude::*;

verus! {

/// A policy with just its kind, without its configuration.
#[derive(Debug, Clone)]
pub struct PartialPolicy {
    pub uid: i32,
    pub slug: String,
    pub kind: PolicyKindSimple,
}

/// A policy.
#[derive(Debug, Clone)]
pub struct Policy {
    pub uid: i32,
    pub slug: String,
    pub kind: PolicyKind,
}

/// What a policy checks, with its configuration.
#[derive(Debug, Clone)]
pub enum PolicyKind {
    PasswordExpiry { max_age: i32 },
    PasswordStrength,
    Expression(String),
}

/// What a policy checks, without its configuration.
#[derive(Debug, Clone, Copy, PartialEq, Eq, Structural)]
pub enum PolicyKindSimple {
    PasswordExpiry,
    PasswordStrength,
    Expression,
}

/// The kind of a policy without its settings.
pub open spec fn spec_simple_kind(kind: PolicyKind) -> PolicyKindSimple {
    match kind {
        PolicyKind::PasswordExpiry { .. } => PolicyKindSimple::PasswordExpiry,
        PolicyKind::PasswordStrength => PolicyKindSimple::PasswordStrength,
        PolicyKind::Expression(_) => PolicyKindSimple::Expression,
    }
}

impl PolicyKindSimple {
    /// The kind of a policy, without its configuration.
    pub fn from_kind(value: &PolicyKind) -> (r: Self)
        ensures
            r == spec_simple_kind(*value),
    {
        match value {
            PolicyKind::PasswordExpiry { max_age: _ } => Self::PasswordExpiry,
            PolicyKind::PasswordStrength => Self::PasswordStrength,
            PolicyKind::Expression(_) => Self::Expression,
        }
    }
}

impl PartialPolicy {
    /// A policy without the configuration of its kind.
    pub fn from_policy(value: &Policy) -> (r: Self)
        ensures
            r.uid == value.uid,
            r.slug@ == value.slug@,
            r.kind == spec_simple_kind(value.kind),
    {
        Self { uid: value.uid, slug: value.slug.clone(), kind: PolicyKindSimple::from_kind(&value.kind) }
    }
}

/// The result of a policy: it does not apply, or it holds or not.
#[derive(Debug, Clone, Copy, PartialEq, Eq, Structural)]
pub enum PolicyResult {
    NotApplicable,
    Value(bool),
}

impl From<bool> for PolicyResult {
    fn from(value: bool) -> (r: Self) {
        Self::Value(value)
    }
}

impl vstd::std_specs::convert::FromSpecImpl<bool> for PolicyResult {
    open spec fn obeys_from_spec() -> bool {
        true
    }

    open spec fn from_spec(v: bool) -> Self {
        PolicyResult::Value(v)
    }
}

} // verus!
