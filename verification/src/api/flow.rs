//! Changes to flows that administrators submit.
use vstd::prelude::*;

use crate::api::ApiErrorKind;
use crate::model::flow::{AuthenticationRequirement, Flow, FlowDesignation};

verus! {

/// The fields of a flow that an update may set; absent fields stay as they are.
#[derive(Debug, Clone)]
pub struct UpdateModel {
    pub title: Option<String>,
    pub designation: Option<FlowDesignation>,
    pub authentication: Option<AuthenticationRequirement>,
}

/// The fields that an update changes, each with its new value.
#[derive(Debug, Clone)]
pub struct FlowChanges {
    pub title: Option<String>,
    pub designation: Option<FlowDesignation>,
    pub authentication: Option<AuthenticationRequirement>,
}

impl FlowChanges {
    /// Whether anything changes (the flow is then reloaded).
    pub fn has_changed(&self) -> (r: bool)
        ensures
            r == (self.title is Some || self.designation is Some || self.authentication is Some),
    {
        self.title.is_some() || self.designation.is_some() || self.authentication.is_some()
    }
}

/// What an update changes of a flow: each field it sets to a value other
/// than the flow's own.
pub fn flow_changes(flow: &Flow, body: &UpdateModel) -> (r: FlowChanges)
    ensures
        match body.title {
            Some(t) => if t@ != flow.title@ {
                r.title matches Some(x) && x@ == t@
            } else {
                r.title is None
            },
            None => r.title is None,
        },
        r.designation == match body.designation {
            Some(d) => if d != flow.designation {
                Some(d)
            } else {
                None
            },
            None => None,
        },
        r.authentication == match body.authentication {
            Some(a) => if a != flow.authentication {
                Some(a)
            } else {
                None
            },
            None => None,
        },
{
    let title = match &body.title {
        Some(t) => if !crate::routes::str_eq(t.as_str(), flow.title.as_str()) {
            Some(t.clone())
        } else {
            None
        },
        None => None,
    };
    let designation = match body.designation {
        Some(d) => if d != flow.designation {
            Some(d)
        } else {
            None
        },
        None => None,
    };
    let authentication = match body.authentication {
        Some(a) => if a != flow.authentication {
            Some(a)
        } else {
            None
        },
        None => None,
    };
    FlowChanges { title, designation, authentication }
}

/// The answer to a flow deletion by the number of rows it removed: one is
/// success, none means the flow was not found, more is an internal error.
pub fn deletion_outcome(affected: u64) -> (r: Result<(), ApiErrorKind>)
    ensures
        affected == 1 ==> r is Ok,
        affected == 0 ==> r matches Err(ApiErrorKind::NotFound),
        affected > 1 ==> (r matches Err(ApiErrorKind::MiscInternal(m))
            && m@ == "More than one row affected on flow deletion"@),
{
    if affected == 1 {
        Ok(())
    } else if affected == 0 {
        Err(ApiErrorKind::NotFound)
    } else {
        Err(ApiErrorKind::MiscInternal(String::from_str("More than one row affected on flow deletion")))
    }
}

} // verus!
