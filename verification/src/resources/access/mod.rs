//! Access control resources.
pub mod resource_realm;
