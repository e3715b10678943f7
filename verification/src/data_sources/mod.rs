//! Terraform data sources.
pub mod data_source_version;
pub mod version;
