//! The Proxmox VE API: paths, request bodies, and what to make of responses.
pub mod access;
pub mod client;
pub mod common;
pub mod error;
pub mod nodes;
pub mod numeric;
pub mod pool;
pub mod response;
pub mod urlenc;
pub mod version;
