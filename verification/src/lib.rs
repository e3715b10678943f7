//! A Terraform provider's core for Proxmox VE: request building, response
//! handling decisions, and the conversions between Terraform attribute values
//! and the Proxmox configuration strings.
use vstd::prelude::*;

pub mod api;
pub mod data_sources;
pub mod number;
pub mod provider;
pub mod resources;
pub mod schema;
pub mod text;
pub mod values;

verus! {
} // verus!
