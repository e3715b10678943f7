//! The `proxmox_qemu_vm` resource.
use vstd::prelude::*;
use crate::provider::ProxmoxProviderData;

verus! {

/// The `proxmox_qemu_vm` resource: a QEMU VM on a Proxmox node.
pub struct QemuVmResource {
    /// What the provider handed over when it configured the resource.
    pub provider_data: Option<ProxmoxProviderData>,
}

impl QemuVmResource {
    /// A resource that has not been configured yet.
    pub fn new() -> (r: Self)
        ensures
            r.provider_data is None,
    {
        QemuVmResource { provider_data: None }
    }

    /// The resource's type name.
    pub fn resource_type_name(&self) -> (r: &'static str)
        ensures
            r@ == "proxmox_qemu_vm"@,
    {
        "proxmox_qemu_vm"
    }
}

} // verus!
