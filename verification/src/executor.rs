//! Flow execution: the state of a running flow, the checks that guard it,
//! and the policies those checks evaluate.
use vstd::prelude::*;

pub mod context;
pub mod flow;
pub mod stages;

verus! {

/// The key under which a flow execution is kept: the session and the flow.
#[derive(Debug, Clone)]
pub struct FlowKey {
    pub session: String,
    pub flow: i32,
}

impl FlowKey {
    /// The key of a session's execution of a flow.
    pub fn new(session_id: &String, flow: i32) -> (r: Self)
        ensures
            r.session@ == session_id@,
            r.flow == flow,
    {
        Self { session: session_id.clone(), flow }
    }
}

} // verus!
