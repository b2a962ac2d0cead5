//! Stages: the steps of a flow.
use vstd::prelude::*;

use crate::model::prompt::PromptBinding;
use crate::model::reference::Reference;

verus! {

/// A stage of a flow.
#[derive(Debug, Clone)]
pub struct Stage {
    pub uid: i32,
    pub slug: String,
    pub kind: StageKind,
    pub timeout: i64,
}

/// Where a password stage checks the submitted password.
#[derive(Debug, Clone, Copy, PartialEq, Eq, Structural)]
pub enum PasswordBackend {
    Internal,
    LDAP,
}

/// The fields by which a user may identify itself.
#[derive(Debug, Clone, Copy, PartialEq, Eq, Structural, Hash)]
pub enum UserField {
    Email,
    Name,
    Uuid,
}

/// The kind of a stage, with its configuration.
#[derive(Debug, Clone)]
pub enum StageKind {
    Deny,
    Prompt { bindings: Vec<PromptBinding> },
    Identification { password: Option<Reference<Stage>>, user_fields: Vec<UserField> },
    UserLogin,
    UserLogout,
    UserWrite,
    Password { backends: Vec<PasswordBackend> },
    Consent { mode: ConsentMode },
}

impl StageKind {
    /// Whether the stage waits for input from the client: every stage but
    /// the three that the server completes on its own (login, logout, write).
    pub open spec fn spec_requires_input(&self) -> bool {
        !(self is UserLogin || self is UserLogout || self is UserWrite)
    }

    /// Whether the stage waits for the client: all but the login, logout and
    /// write stages do.
    pub fn requires_input(&self) -> (r: bool)
        ensures
            r == self.spec_requires_input(),
    {
        match self {
            StageKind::Deny => true,
            StageKind::Prompt { .. } => true,
            StageKind::Identification { .. } => true,
            StageKind::UserLogin | StageKind::UserLogout | StageKind::UserWrite => false,
            StageKind::Password { .. } => true,
            StageKind::Consent { .. } => true,
        }
    }
}

/// The consent mode as the database stores it.
#[derive(Debug, Clone, Copy, PartialEq, Eq, Structural)]
pub enum PgConsentMode {
    Always,
    Once,
    Until,
}

/// How often a consent stage asks for consent.
#[derive(Debug, Clone, Copy, PartialEq, Eq, Structural)]
pub enum ConsentMode {
    Always,
    Once,
    Until { duration: i64 },
}

} // verus!
