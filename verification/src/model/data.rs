//! The data a flow sends to the client: the flow, an error, the pending
//! user and the component to render.
use vstd::prelude::*;

use crate::model::error::SubmissionError;
use crate::model::stage::UserField;

verus! {

/// What the client is shown of a flow execution.
#[derive(Debug, Clone)]
pub struct FlowData {
    pub flow: FlowInfo,
    pub error: Option<SubmissionError>,
    pub pending_user: Option<PendingUser>,
    pub component: FlowComponent,
}

/// The component the client renders for the current stage.
#[derive(Debug, Clone)]
pub enum FlowComponent {
    AccessDenied { message: String },
    Identification {
        user_fields: Vec<UserField>,
        sources: Sources,
        password: Option<PasswordComponentData>,
    },
    Password { data: PasswordComponentData },
    Redirect { to: String },
    Error { message: String },
}

/// Data of a password input.
#[derive(Debug, Clone)]
pub struct PasswordComponentData {
    pub recovery_url: String,
}

/// The external sources a user may sign in with.
#[derive(Debug, Clone)]
pub struct Sources {
    pub sources: Vec<Source>,
    pub show_source_labels: bool,
}

/// The user a flow is signing in, once identified; the UUID is held as an
/// integer.
#[derive(Debug, Clone)]
pub struct PendingUser {
    pub uid: u128,
    pub name: String,
    pub avatar_url: Option<String>,
    pub authenticated: bool,
    pub is_admin: bool,
}

/// An external sign-in source.
#[derive(Debug, Clone)]
pub struct Source {
    pub name: String,
    pub icon_url: String,
}

/// What the client is shown of the flow itself.
#[derive(Debug, Clone)]
pub struct FlowInfo {
    pub title: String,
}

} // verus!
