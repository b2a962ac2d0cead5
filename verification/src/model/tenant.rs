//! Tenants: the hosts that the server serves, each with its default flows.
use vstd::prelude::*;

use crate::model::flow::FlowDesignation;

verus! {

/// A tenant and the flow it uses for each designation, where it has one.
#[derive(Debug, Clone)]
pub struct Tenant {
    pub uid: i32,
    pub host: String,
    pub default: bool,
    pub title: String,
    pub logo: String,
    pub favicon: String,
    pub invalidation_flow: Option<i32>,
    pub authentication_flow: Option<i32>,
    pub authorization_flow: Option<i32>,
    pub enrollment_flow: Option<i32>,
    pub recovery_flow: Option<i32>,
    pub unenrollment_flow: Option<i32>,
    pub configuration_flow: Option<i32>,
}

/// The flow of a tenant for a designation. A recovery request is answered
/// with the enrollment flow.
pub open spec fn spec_tenant_flow(tenant: Tenant, designation: FlowDesignation) -> Option<i32> {
    match designation {
        FlowDesignation::Invalidation => tenant.invalidation_flow,
        FlowDesignation::Authentication => tenant.authentication_flow,
        FlowDesignation::Authorization => tenant.authorization_flow,
        FlowDesignation::Enrollment => tenant.enrollment_flow,
        FlowDesignation::Recovery => tenant.enrollment_flow,
        FlowDesignation::Unenrollment => tenant.unenrollment_flow,
        FlowDesignation::Configuration => tenant.configuration_flow,
    }
}

impl Tenant {
    /// The tenant's flow for a designation; recovery uses the enrollment flow.
    pub fn get_flow(&self, designation: &FlowDesignation) -> (r: Option<i32>)
        ensures
            r == spec_tenant_flow(*self, *designation),
    {
        match designation {
            FlowDesignation::Invalidation => self.invalidation_flow,
            FlowDesignation::Authentication => self.authentication_flow,
            FlowDesignation::Authorization => self.authorization_flow,
            FlowDesignation::Enrollment => self.enrollment_flow,
            FlowDesignation::Recovery => self.enrollment_flow,
            FlowDesignation::Unenrollment => self.unenrollment_flow,
            FlowDesignation::Configuration => self.configuration_flow,
        }
    }
}

/// The path parameter that names a flow designation.
#[derive(Debug, Clone, Copy)]
pub struct FlowDesignationParam {
    pub flow_designation: FlowDesignation,
}

} // verus!
