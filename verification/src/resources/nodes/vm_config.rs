//! The `proxmox_qemu_vm` resource's Terraform object, as the provider reads
//! it: each attribute it looks at, and each nested block list.
use vstd::prelude::*;
use crate::values::AttrValue;
use crate::resources::nodes::disk::{CdromBlock, CloudInitDriveBlock, DiskBlock, EfiDiskBlock, SerialBlock};
use crate::resources::nodes::network::NetworkBlock;

verus! {

/// The `cloudinit` map of a planned state: its `user`, `password` and
/// `ssh_keys` entries, and whether it holds an `ipconfig` entry.
pub struct CloudInitPlan {
    pub user: Option<AttrValue>,
    pub password: Option<AttrValue>,
    pub ssh_keys: Option<AttrValue>,
    pub has_ipconfig: bool,
}

/// A configuration or planned state of the VM resource.
///
/// A primitive attribute is `None` when the object does not hold it. The
/// numbered families hold their members by number: `scsi[3]` is `scsi3`,
/// `net[1]` is `net1`; a number past the end is not held. A block list is
/// `None` when the attribute is not a list, and an element is `None` when
/// it is not a map.
pub struct VmConfig {
    pub target_node: Option<AttrValue>,
    pub vmid: Option<AttrValue>,
    pub name: Option<AttrValue>,
    pub tags: Option<AttrValue>,
    pub clone: Option<AttrValue>,
    pub full_clone: Option<AttrValue>,
    pub os_type: Option<AttrValue>,
    pub bios: Option<AttrValue>,
    pub machine: Option<AttrValue>,
    pub cpu_type: Option<AttrValue>,
    pub cpu: Option<AttrValue>,
    pub cores: Option<AttrValue>,
    pub sockets: Option<AttrValue>,
    pub vcpus: Option<AttrValue>,
    pub memory: Option<AttrValue>,
    pub balloon: Option<AttrValue>,
    pub boot: Option<AttrValue>,
    pub bootdisk: Option<AttrValue>,
    pub onboot: Option<AttrValue>,
    pub scsihw: Option<AttrValue>,
    pub agent: Option<AttrValue>,
    pub qemu_os: Option<AttrValue>,
    pub ostype: Option<AttrValue>,
    pub ciuser: Option<AttrValue>,
    pub cipassword: Option<AttrValue>,
    pub ciupgrade: Option<AttrValue>,
    pub sshkeys: Option<AttrValue>,
    pub start: Option<AttrValue>,
    pub tablet: Option<AttrValue>,
    pub protection: Option<AttrValue>,
    pub description: Option<AttrValue>,
    pub efidisk0: Option<AttrValue>,
    pub additional_wait: Option<AttrValue>,
    pub scsi: Vec<Option<AttrValue>>,
    pub sata: Vec<Option<AttrValue>>,
    pub ide: Vec<Option<AttrValue>>,
    pub virtio: Vec<Option<AttrValue>>,
    pub net: Vec<Option<AttrValue>>,
    pub ipconfig: Vec<Option<AttrValue>>,
    pub network: Option<Vec<Option<NetworkBlock>>>,
    pub disk: Option<Vec<Option<DiskBlock>>>,
    pub cdrom: Option<Vec<Option<CdromBlock>>>,
    pub cloudinit_drive: Option<Vec<Option<CloudInitDriveBlock>>>,
    pub serial: Option<Vec<Option<SerialBlock>>>,
    pub efidisk: Option<Vec<Option<EfiDiskBlock>>>,
    pub cloudinit: Option<CloudInitPlan>,
}

/// The elements of a block list; none when it is not a list.
pub open spec fn blocks_of<T>(o: Option<Vec<T>>) -> Seq<T> {
    match o {
        Some(v) => v@,
        None => Seq::<T>::empty(),
    }
}

/// Whether the attribute is a list with at least one element.
pub open spec fn nonempty_list<T>(o: Option<Vec<T>>) -> bool {
    match o {
        Some(v) => v@.len() > 0,
        None => false,
    }
}

} // verus!
