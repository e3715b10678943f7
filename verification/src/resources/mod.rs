//! Terraform resources: the QEMU VM and the authentication realm.
pub mod access;
pub mod nodes;
pub mod realm;
