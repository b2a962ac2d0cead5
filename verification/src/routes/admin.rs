//! Administration routes.
pub mod applications;
