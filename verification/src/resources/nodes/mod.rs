//! Resources that live on a Proxmox node.
pub mod disk;
pub mod disk_laws;
pub mod network;
pub mod network_laws;
pub mod resource_vm;
pub mod vm_config;
pub mod vm_lifecycle;
pub mod vm_request;
pub mod vm_schema;
pub mod vm_state;
pub mod vm_validate;
