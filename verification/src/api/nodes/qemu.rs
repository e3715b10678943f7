//! QEMU VMs of a node: the paths of their operations, and the parts of a
//! VM's status that hold no floating-point values.
use vstd::prelude::*;
use vstd::string::*;
use crate::text;
use crate::number::Number;
use crate::text::{chars_of, push_str, push_u64, string_of};

verus! {

/// QEMU VM operations on node `node` over a client of type `C`.
pub struct QemuApi<'a, C> {
    pub client: &'a C,
    pub node: String,
}

/// `/api2/json/nodes/{node}/qemu`.
pub open spec fn qemu_base(node: Seq<char>) -> Seq<char> {
    "/api2/json/nodes/"@ + node + "/qemu"@
}

/// `/api2/json/nodes/{node}/qemu/{vmid}`.
pub open spec fn vm_base(node: Seq<char>, vmid: u32) -> Seq<char> {
    qemu_base(node) + seq!['/'] + text::nat_decimal(vmid as nat)
}

impl<'a, C> QemuApi<'a, C> {
    pub fn new(client: &'a C, node: &str) -> (r: Self)
        ensures
            r.client == client,
            r.node@ == node@,
    {
        QemuApi { client, node: String::from_str(node) }
    }

    fn vm_chars(&self, vmid: u32) -> (r: Vec<char>)
        ensures
            r@ == vm_base(self.node@, vmid),
    {
        let mut out = chars_of("/api2/json/nodes/");
        push_str(&mut out, self.node.as_str());
        push_str(&mut out, "/qemu");
        out.push('/');
        push_u64(&mut out, vmid as u64);
        out
    }

    /// Where the node's VMs are listed and created.
    pub fn list_path(&self) -> (r: String)
        ensures
            r@ == qemu_base(self.node@),
    {
        let mut out = chars_of("/api2/json/nodes/");
        push_str(&mut out, self.node.as_str());
        push_str(&mut out, "/qemu");
        string_of(&out)
    }

    /// Where a VM's configuration is read and updated.
    pub fn config_path(&self, vmid: u32) -> (r: String)
        ensures
            r@ == vm_base(self.node@, vmid) + "/config"@,
    {
        let mut out = self.vm_chars(vmid);
        push_str(&mut out, "/config");
        string_of(&out)
    }

    /// Where a VM is deleted; with `?purge=1` when it is purged.
    pub fn delete_path(&self, vmid: u32, purge: bool) -> (r: String)
        ensures
            r@ == vm_base(self.node@, vmid) + if purge { "?purge=1"@ } else { Seq::<char>::empty() },
    {
        let mut out = self.vm_chars(vmid);
        if purge {
            push_str(&mut out, "?purge=1");
        }
        assert(out@ =~= vm_base(self.node@, vmid) + if purge { "?purge=1"@ } else { Seq::<char>::empty() });
        string_of(&out)
    }

    /// Where a VM is started.
    pub fn start_path(&self, vmid: u32) -> (r: String)
        ensures
            r@ == vm_base(self.node@, vmid) + "/status/start"@,
    {
        let mut out = self.vm_chars(vmid);
        push_str(&mut out, "/status/start");
        string_of(&out)
    }

    /// Where a VM is stopped.
    pub fn stop_path(&self, vmid: u32) -> (r: String)
        ensures
            r@ == vm_base(self.node@, vmid) + "/status/stop"@,
    {
        let mut out = self.vm_chars(vmid);
        push_str(&mut out, "/status/stop");
        string_of(&out)
    }

    /// Where a VM's current status is read.
    pub fn status_path(&self, vmid: u32) -> (r: String)
        ensures
            r@ == vm_base(self.node@, vmid) + "/status/current"@,
    {
        let mut out = self.vm_chars(vmid);
        push_str(&mut out, "/status/current");
        string_of(&out)
    }
}

/// A JSON value of `serde_json`, carried through unread.
#[verifier::external_type_specification]
#[verifier::external_body]
pub struct ExJsonValue(serde_json::Value);

/// A VM as the node's VM list shows it. Fractional numbers are kept as
/// `Number`s.
pub struct QemuVmInfo {
    pub vmid: u32,
    pub name: Option<String>,
    pub status: String,
    pub cpu: Option<Number>,
    pub cpus: Option<u32>,
    pub maxdisk: Option<u64>,
    pub maxmem: Option<u64>,
    pub mem: Option<u64>,
    pub netin: Option<u64>,
    pub netout: Option<u64>,
    pub disk: Option<u64>,
    pub diskread: Option<u64>,
    pub diskwrite: Option<u64>,
    pub pid: Option<u32>,
    pub qmpstatus: Option<String>,
    pub tags: Option<String>,
    pub uptime: Option<u64>,
}

/// A VM's configuration as Proxmox returns it.
pub struct QemuConfig {
    pub acpi: Option<bool>,
    pub agent: Option<String>,
    pub args: Option<String>,
    pub autostart: Option<bool>,
    pub balloon: Option<u64>,
    pub bios: Option<String>,
    pub boot: Option<String>,
    pub bootdisk: Option<String>,
    pub cdrom: Option<String>,
    pub cores: Option<u32>,
    pub cpu: Option<String>,
    pub cpulimit: Option<Number>,
    pub cpuunits: Option<u32>,
    pub description: Option<String>,
    pub digest: Option<String>,
    pub efidisk0: Option<String>,
    pub freeze: Option<bool>,
    pub hookscript: Option<String>,
    pub hotplug: Option<String>,
    pub hugepages: Option<String>,
    pub ide0: Option<String>,
    pub ide1: Option<String>,
    pub ide2: Option<String>,
    pub ide3: Option<String>,
    pub kvm: Option<bool>,
    pub localtime: Option<bool>,
    pub lock: Option<String>,
    pub machine: Option<String>,
    pub memory: Option<u64>,
    pub migrate_downtime: Option<Number>,
    pub migrate_speed: Option<u64>,
    pub name: Option<String>,
    pub nameserver: Option<String>,
    pub net0: Option<String>,
    pub net1: Option<String>,
    pub net2: Option<String>,
    pub net3: Option<String>,
    pub numa: Option<bool>,
    pub numa0: Option<String>,
    pub numa1: Option<String>,
    pub onboot: Option<bool>,
    pub ostype: Option<String>,
    pub protection: Option<bool>,
    pub reboot: Option<bool>,
    pub sata0: Option<String>,
    pub sata1: Option<String>,
    pub sata2: Option<String>,
    pub sata3: Option<String>,
    pub sata4: Option<String>,
    pub sata5: Option<String>,
    pub scsi0: Option<String>,
    pub scsi1: Option<String>,
    pub scsi2: Option<String>,
    pub scsi3: Option<String>,
    pub scsi4: Option<String>,
    pub scsi5: Option<String>,
    pub scsi6: Option<String>,
    pub scsi7: Option<String>,
    pub scsihw: Option<String>,
    pub searchdomain: Option<String>,
    pub serial0: Option<String>,
    pub serial1: Option<String>,
    pub serial2: Option<String>,
    pub serial3: Option<String>,
    pub shares: Option<u32>,
    pub smbios1: Option<String>,
    pub smp: Option<u32>,
    pub sockets: Option<u32>,
    pub startup: Option<String>,
    pub startdate: Option<String>,
    pub tablet: Option<bool>,
    pub tags: Option<String>,
    pub template: Option<bool>,
    pub unused0: Option<String>,
    pub unused1: Option<String>,
    pub unused2: Option<String>,
    pub unused3: Option<String>,
    pub usb0: Option<String>,
    pub usb1: Option<String>,
    pub usb2: Option<String>,
    pub usb3: Option<String>,
    pub vcpus: Option<u32>,
    pub vga: Option<String>,
    pub virtio0: Option<String>,
    pub virtio1: Option<String>,
    pub virtio2: Option<String>,
    pub virtio3: Option<String>,
    pub virtio4: Option<String>,
    pub virtio5: Option<String>,
    pub virtio6: Option<String>,
    pub virtio7: Option<String>,
    pub virtio8: Option<String>,
    pub virtio9: Option<String>,
    pub virtio10: Option<String>,
    pub virtio11: Option<String>,
    pub virtio12: Option<String>,
    pub virtio13: Option<String>,
    pub virtio14: Option<String>,
    pub virtio15: Option<String>,
    pub vmgenid: Option<String>,
    pub vmstatestorage: Option<String>,
    pub watchdog: Option<String>,
}

/// The parameters of a VM creation; `None` parameters are not sent.
pub struct CreateQemuRequest {
    pub vmid: u32,
    pub acpi: Option<bool>,
    pub agent: Option<String>,
    pub args: Option<String>,
    pub autostart: Option<bool>,
    pub balloon: Option<u64>,
    pub bios: Option<String>,
    pub boot: Option<String>,
    pub bootdisk: Option<String>,
    pub cdrom: Option<String>,
    pub cores: Option<u32>,
    pub cpu: Option<String>,
    pub cpulimit: Option<Number>,
    pub cpuunits: Option<u32>,
    pub description: Option<String>,
    pub efidisk0: Option<String>,
    pub freeze: Option<bool>,
    pub hookscript: Option<String>,
    pub hotplug: Option<String>,
    pub hugepages: Option<String>,
    pub ide0: Option<String>,
    pub ide1: Option<String>,
    pub ide2: Option<String>,
    pub ide3: Option<String>,
    pub kvm: Option<bool>,
    pub localtime: Option<bool>,
    pub lock: Option<String>,
    pub machine: Option<String>,
    pub memory: Option<u64>,
    pub migrate_downtime: Option<Number>,
    pub migrate_speed: Option<u64>,
    pub name: Option<String>,
    pub nameserver: Option<String>,
    pub net0: Option<String>,
    pub net1: Option<String>,
    pub net2: Option<String>,
    pub net3: Option<String>,
    pub numa: Option<bool>,
    pub numa0: Option<String>,
    pub numa1: Option<String>,
    pub onboot: Option<bool>,
    pub ostype: Option<String>,
    pub protection: Option<bool>,
    pub reboot: Option<bool>,
    pub sata0: Option<String>,
    pub sata1: Option<String>,
    pub sata2: Option<String>,
    pub sata3: Option<String>,
    pub sata4: Option<String>,
    pub sata5: Option<String>,
    pub scsi0: Option<String>,
    pub scsi1: Option<String>,
    pub scsi2: Option<String>,
    pub scsi3: Option<String>,
    pub scsi4: Option<String>,
    pub scsi5: Option<String>,
    pub scsi6: Option<String>,
    pub scsi7: Option<String>,
    pub scsihw: Option<String>,
    pub searchdomain: Option<String>,
    pub serial0: Option<String>,
    pub serial1: Option<String>,
    pub serial2: Option<String>,
    pub serial3: Option<String>,
    pub shares: Option<u32>,
    pub smbios1: Option<String>,
    pub smp: Option<u32>,
    pub sockets: Option<u32>,
    pub startup: Option<String>,
    pub startdate: Option<String>,
    pub tablet: Option<bool>,
    pub tags: Option<String>,
    pub template: Option<bool>,
    pub unused0: Option<String>,
    pub unused1: Option<String>,
    pub unused2: Option<String>,
    pub unused3: Option<String>,
    pub usb0: Option<String>,
    pub usb1: Option<String>,
    pub usb2: Option<String>,
    pub usb3: Option<String>,
    pub vcpus: Option<u32>,
    pub vga: Option<String>,
    pub virtio0: Option<String>,
    pub virtio1: Option<String>,
    pub virtio2: Option<String>,
    pub virtio3: Option<String>,
    pub virtio4: Option<String>,
    pub virtio5: Option<String>,
    pub virtio6: Option<String>,
    pub virtio7: Option<String>,
    pub virtio8: Option<String>,
    pub virtio9: Option<String>,
    pub virtio10: Option<String>,
    pub virtio11: Option<String>,
    pub virtio12: Option<String>,
    pub virtio13: Option<String>,
    pub virtio14: Option<String>,
    pub virtio15: Option<String>,
    pub vmgenid: Option<String>,
    pub vmstatestorage: Option<String>,
    pub watchdog: Option<String>,
    pub start: Option<bool>,
    pub clone: Option<String>,
    pub full: Option<bool>,
    pub ciuser: Option<String>,
    pub cipassword: Option<String>,
    pub ciupgrade: Option<bool>,
    pub ipconfig0: Option<String>,
    pub ipconfig1: Option<String>,
    pub sshkeys: Option<String>,
}

/// The parameters of a VM configuration update; `None` parameters are not
/// sent.
pub struct UpdateQemuRequest {
    pub acpi: Option<bool>,
    pub agent: Option<String>,
    pub args: Option<String>,
    pub autostart: Option<bool>,
    pub balloon: Option<u64>,
    pub bios: Option<String>,
    pub boot: Option<String>,
    pub bootdisk: Option<String>,
    pub cdrom: Option<String>,
    pub cores: Option<u32>,
    pub cpu: Option<String>,
    pub cpulimit: Option<Number>,
    pub cpuunits: Option<u32>,
    pub delete: Option<String>,
    pub description: Option<String>,
    pub digest: Option<String>,
    pub efidisk0: Option<String>,
    pub freeze: Option<bool>,
    pub hookscript: Option<String>,
    pub hotplug: Option<String>,
    pub hugepages: Option<String>,
    pub ide0: Option<String>,
    pub ide1: Option<String>,
    pub ide2: Option<String>,
    pub ide3: Option<String>,
    pub kvm: Option<bool>,
    pub localtime: Option<bool>,
    pub lock: Option<String>,
    pub machine: Option<String>,
    pub memory: Option<u64>,
    pub migrate_downtime: Option<Number>,
    pub migrate_speed: Option<u64>,
    pub name: Option<String>,
    pub nameserver: Option<String>,
    pub net0: Option<String>,
    pub net1: Option<String>,
    pub net2: Option<String>,
    pub net3: Option<String>,
    pub numa: Option<bool>,
    pub numa0: Option<String>,
    pub numa1: Option<String>,
    pub onboot: Option<bool>,
    pub ostype: Option<String>,
    pub protection: Option<bool>,
    pub reboot: Option<bool>,
    pub revert: Option<String>,
    pub sata0: Option<String>,
    pub sata1: Option<String>,
    pub sata2: Option<String>,
    pub sata3: Option<String>,
    pub sata4: Option<String>,
    pub sata5: Option<String>,
    pub scsi0: Option<String>,
    pub scsi1: Option<String>,
    pub scsi2: Option<String>,
    pub scsi3: Option<String>,
    pub scsi4: Option<String>,
    pub scsi5: Option<String>,
    pub scsi6: Option<String>,
    pub scsi7: Option<String>,
    pub scsihw: Option<String>,
    pub searchdomain: Option<String>,
    pub serial0: Option<String>,
    pub serial1: Option<String>,
    pub serial2: Option<String>,
    pub serial3: Option<String>,
    pub shares: Option<u32>,
    pub smbios1: Option<String>,
    pub smp: Option<u32>,
    pub sockets: Option<u32>,
    pub startup: Option<String>,
    pub startdate: Option<String>,
    pub tablet: Option<bool>,
    pub tags: Option<String>,
    pub template: Option<bool>,
    pub unused0: Option<String>,
    pub unused1: Option<String>,
    pub unused2: Option<String>,
    pub unused3: Option<String>,
    pub usb0: Option<String>,
    pub usb1: Option<String>,
    pub usb2: Option<String>,
    pub usb3: Option<String>,
    pub vcpus: Option<u32>,
    pub vga: Option<String>,
    pub virtio0: Option<String>,
    pub virtio1: Option<String>,
    pub virtio2: Option<String>,
    pub virtio3: Option<String>,
    pub virtio4: Option<String>,
    pub virtio5: Option<String>,
    pub virtio6: Option<String>,
    pub virtio7: Option<String>,
    pub virtio8: Option<String>,
    pub virtio9: Option<String>,
    pub virtio10: Option<String>,
    pub virtio11: Option<String>,
    pub virtio12: Option<String>,
    pub virtio13: Option<String>,
    pub virtio14: Option<String>,
    pub virtio15: Option<String>,
    pub vmgenid: Option<String>,
    pub vmstatestorage: Option<String>,
    pub watchdog: Option<String>,
}

/// A VM's current status.
pub struct QemuStatus {
    pub status: String,
    pub ha: Option<HaStatus>,
    pub qmpstatus: Option<String>,
    pub pid: Option<u32>,
    pub uptime: Option<u64>,
    pub cpu: Option<Number>,
    pub cpus: Option<u32>,
    pub mem: Option<u64>,
    pub maxmem: Option<u64>,
    pub disk: Option<u64>,
    pub maxdisk: Option<u64>,
    pub diskread: Option<u64>,
    pub diskwrite: Option<u64>,
    pub netin: Option<u64>,
    pub netout: Option<u64>,
    pub ballooninfo: Option<BalloonInfo>,
    pub running_qemu: Option<String>,
    pub running_machine: Option<String>,
    pub blockstat: Option<serde_json::Value>,
    pub nics: Option<serde_json::Value>,
}

/// Whether a VM is managed by HA.
pub struct HaStatus {
    pub managed: bool,
}

/// Memory ballooning figures of a running VM.
pub struct BalloonInfo {
    pub actual: u64,
    pub max_mem: Option<u64>,
    pub total_mem: Option<u64>,
    pub free_mem: Option<u64>,
    pub mem_swapped_in: Option<u64>,
    pub mem_swapped_out: Option<u64>,
    pub major_page_faults: Option<u64>,
    pub minor_page_faults: Option<u64>,
    pub last_update: Option<u64>,
}

} // verus!
