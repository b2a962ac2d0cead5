//! The data model: flows, their entries and bindings, stages, prompts,
//! policies, tenants, users and the data sent to the client.
pub mod data;
pub mod error;
pub mod flow;
pub mod policy;
pub mod prompt;
pub mod reference;
pub mod stage;
pub mod tenant;
pub mod user;
