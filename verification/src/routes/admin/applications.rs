//! Administration of applications.
use vstd::prelude::*;

verus! {

/// The kind of an application: a server-side web application or a
/// single-page application.
#[derive(Debug, Clone, Copy, PartialEq, Eq, Structural)]
pub enum ApplicationKind {
    WebServer,
    SPA,
}

/// The new name and redirect addresses of an application.
#[derive(Debug, Clone)]
pub struct ReplacePayload {
    pub name: String,
    pub redirect_uri: Vec<String>,
}

} // verus!
