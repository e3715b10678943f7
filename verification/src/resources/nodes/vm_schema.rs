//! The schema of the `proxmox_qemu_vm` resource.
use vstd::prelude::*;
use vstd::string::*;
use crate::schema::{
    AttributeSchema, AttributeType, AttributeView, BlockView, DefaultValue, DefaultView,
    NestedBlockSchema, NestingMode, Schema, SchemaView, attr_spec, attribute, attribute_views,
    block_views, minus_one, push_attribute, push_block,
};
use crate::resources::nodes::resource_vm::QemuVmResource;

verus! {

/// The attributes of the `proxmox_qemu_vm` resource.
pub open spec fn vm_attributes() -> Seq<AttributeView> {
    seq![
        attr_spec("vmid"@, AttributeType::Number, "The VM identifier"@, true, false, false, false, None),
        attr_spec("name"@, AttributeType::String, "The VM name"@, true, false, false, false, None),
        attr_spec("target_node"@, AttributeType::String, "The name of the Proxmox node where the VM will be created"@, true, false, false, false, None),
        attr_spec("tags"@, AttributeType::String, "Tags for the VM (separated by semicolon or comma)"@, false, true, false, false, None),
        attr_spec("clone"@, AttributeType::String, "Name of the template to clone from"@, false, true, false, false, None),
        attr_spec("full_clone"@, AttributeType::Bool, "Create a full copy of all disk/container data"@, false, true, false, false, None),
        attr_spec("os_type"@, AttributeType::String, "OS type for optimized settings"@, false, true, false, false, None),
        attr_spec("bios"@, AttributeType::String, "BIOS implementation (seabios or ovmf)"@, false, true, false, false, None),
        attr_spec("machine"@, AttributeType::String, "Machine type (e.g., pc, q35)"@, false, true, false, false, None),
        attr_spec("cpu_type"@, AttributeType::String, "CPU type"@, false, true, false, false, None),
        attr_spec("cores"@, AttributeType::Number, "Number of CPU cores per socket"@, false, true, false, false, None),
        attr_spec("sockets"@, AttributeType::Number, "Number of CPU sockets"@, false, true, false, false, None),
        attr_spec("vcpus"@, AttributeType::Number, "Number of vCPUs"@, false, true, false, false, None),
        attr_spec("memory"@, AttributeType::Number, "Amount of RAM for the VM in MB"@, false, true, false, false, None),
        attr_spec("balloon"@, AttributeType::Number, "Amount of target RAM for the VM in MB"@, false, true, false, false, None),
        attr_spec("boot"@, AttributeType::String, "Boot order"@, false, true, false, false, None),
        attr_spec("bootdisk"@, AttributeType::String, "Enable booting from specified disk"@, false, true, false, false, None),
        attr_spec("onboot"@, AttributeType::Bool, "Start VM on boot"@, false, true, false, false, None),
        attr_spec("scsihw"@, AttributeType::String, "SCSI controller type"@, false, true, false, false, None),
        attr_spec("agent"@, AttributeType::Number, "Enable/disable the QEMU guest agent"@, false, true, false, false, None),
        attr_spec("qemu_os"@, AttributeType::String, "QEMU OS type"@, false, true, false, false, None),
        attr_spec("ipconfig0"@, AttributeType::String, "Cloud-init network configuration for interface 0"@, false, true, false, false, None),
        attr_spec("ipconfig1"@, AttributeType::String, "Cloud-init network configuration for interface 1"@, false, true, false, false, None),
        attr_spec("ipconfig2"@, AttributeType::String, "Cloud-init network configuration for interface 2"@, false, true, false, false, None),
        attr_spec("ipconfig3"@, AttributeType::String, "Cloud-init network configuration for interface 3"@, false, true, false, false, None),
        attr_spec("ciuser"@, AttributeType::String, "Cloud-init user"@, false, true, false, false, None),
        attr_spec("cipassword"@, AttributeType::String, "Cloud-init password"@, false, true, false, true, None),
        attr_spec("ciupgrade"@, AttributeType::Bool, "Do an automatic package upgrade after the first boot"@, false, true, false, false, None),
        attr_spec("sshkeys"@, AttributeType::String, "Cloud-init SSH public keys"@, false, true, false, false, None),
        attr_spec("skip_ipv4"@, AttributeType::Bool, "Skip IPv4 configuration"@, false, true, false, false, None),
        attr_spec("skip_ipv6"@, AttributeType::Bool, "Skip IPv6 configuration"@, false, true, false, false, None),
        attr_spec("additional_wait"@, AttributeType::Number, "Additional wait time after VM creation"@, false, true, false, false, None),
        attr_spec("automatic_reboot"@, AttributeType::Bool, "Automatically reboot VM after creation"@, false, true, false, false, None),
        attr_spec("clone_wait"@, AttributeType::Number, "Wait time for clone operation"@, false, true, false, false, None),
        attr_spec("define_connection_info"@, AttributeType::Bool, "Define connection info for provisioners"@, false, true, false, false, None),
        attr_spec("description"@, AttributeType::String, "VM description"@, false, true, false, false, None),
        attr_spec("start"@, AttributeType::Bool, "Start VM after creation"@, false, true, false, false, None),
        attr_spec("tablet"@, AttributeType::Bool, "Enable tablet device"@, false, true, false, false, None),
        attr_spec("protection"@, AttributeType::Bool, "Protection flag to prevent accidental deletion"@, false, true, false, false, None),
    ]
}

fn vm_attribute_list() -> (r: Vec<AttributeSchema>)
    ensures
        attribute_views(r@) == vm_attributes(),
{
    let mut v: Vec<AttributeSchema> = Vec::new();
    assert(attribute_views(v@) =~= Seq::<AttributeView>::empty());
    push_attribute(&mut v, attribute("vmid", AttributeType::Number, "The VM identifier", true, false, false, false, None));
    push_attribute(&mut v, attribute("name", AttributeType::String, "The VM name", true, false, false, false, None));
    push_attribute(&mut v, attribute("target_node", AttributeType::String, "The name of the Proxmox node where the VM will be created", true, false, false, false, None));
    push_attribute(&mut v, attribute("tags", AttributeType::String, "Tags for the VM (separated by semicolon or comma)", false, true, false, false, None));
    push_attribute(&mut v, attribute("clone", AttributeType::String, "Name of the template to clone from", false, true, false, false, None));
    push_attribute(&mut v, attribute("full_clone", AttributeType::Bool, "Create a full copy of all disk/container data", false, true, false, false, None));
    push_attribute(&mut v, attribute("os_type", AttributeType::String, "OS type for optimized settings", false, true, false, false, None));
    push_attribute(&mut v, attribute("bios", AttributeType::String, "BIOS implementation (seabios or ovmf)", false, true, false, false, None));
    push_attribute(&mut v, attribute("machine", AttributeType::String, "Machine type (e.g., pc, q35)", false, true, false, false, None));
    push_attribute(&mut v, attribute("cpu_type", AttributeType::String, "CPU type", false, true, false, false, None));
    push_attribute(&mut v, attribute("cores", AttributeType::Number, "Number of CPU cores per socket", false, true, false, false, None));
    push_attribute(&mut v, attribute("sockets", AttributeType::Number, "Number of CPU sockets", false, true, false, false, None));
    push_attribute(&mut v, attribute("vcpus", AttributeType::Number, "Number of vCPUs", false, true, false, false, None));
    push_attribute(&mut v, attribute("memory", AttributeType::Number, "Amount of RAM for the VM in MB", false, true, false, false, None));
    push_attribute(&mut v, attribute("balloon", AttributeType::Number, "Amount of target RAM for the VM in MB", false, true, false, false, None));
    push_attribute(&mut v, attribute("boot", AttributeType::String, "Boot order", false, true, false, false, None));
    push_attribute(&mut v, attribute("bootdisk", AttributeType::String, "Enable booting from specified disk", false, true, false, false, None));
    push_attribute(&mut v, attribute("onboot", AttributeType::Bool, "Start VM on boot", false, true, false, false, None));
    push_attribute(&mut v, attribute("scsihw", AttributeType::String, "SCSI controller type", false, true, false, false, None));
    push_attribute(&mut v, attribute("agent", AttributeType::Number, "Enable/disable the QEMU guest agent", false, true, false, false, None));
    push_attribute(&mut v, attribute("qemu_os", AttributeType::String, "QEMU OS type", false, true, false, false, None));
    push_attribute(&mut v, attribute("ipconfig0", AttributeType::String, "Cloud-init network configuration for interface 0", false, true, false, false, None));
    push_attribute(&mut v, attribute("ipconfig1", AttributeType::String, "Cloud-init network configuration for interface 1", false, true, false, false, None));
    push_attribute(&mut v, attribute("ipconfig2", AttributeType::String, "Cloud-init network configuration for interface 2", false, true, false, false, None));
    push_attribute(&mut v, attribute("ipconfig3", AttributeType::String, "Cloud-init network configuration for interface 3", false, true, false, false, None));
    push_attribute(&mut v, attribute("ciuser", AttributeType::String, "Cloud-init user", false, true, false, false, None));
    push_attribute(&mut v, attribute("cipassword", AttributeType::String, "Cloud-init password", false, true, false, true, None));
    push_attribute(&mut v, attribute("ciupgrade", AttributeType::Bool, "Do an automatic package upgrade after the first boot", false, true, false, false, None));
    push_attribute(&mut v, attribute("sshkeys", AttributeType::String, "Cloud-init SSH public keys", false, true, false, false, None));
    push_attribute(&mut v, attribute("skip_ipv4", AttributeType::Bool, "Skip IPv4 configuration", false, true, false, false, None));
    push_attribute(&mut v, attribute("skip_ipv6", AttributeType::Bool, "Skip IPv6 configuration", false, true, false, false, None));
    push_attribute(&mut v, attribute("additional_wait", AttributeType::Number, "Additional wait time after VM creation", false, true, false, false, None));
    push_attribute(&mut v, attribute("automatic_reboot", AttributeType::Bool, "Automatically reboot VM after creation", false, true, false, false, None));
    push_attribute(&mut v, attribute("clone_wait", AttributeType::Number, "Wait time for clone operation", false, true, false, false, None));
    push_attribute(&mut v, attribute("define_connection_info", AttributeType::Bool, "Define connection info for provisioners", false, true, false, false, None));
    push_attribute(&mut v, attribute("description", AttributeType::String, "VM description", false, true, false, false, None));
    push_attribute(&mut v, attribute("start", AttributeType::Bool, "Start VM after creation", false, true, false, false, None));
    push_attribute(&mut v, attribute("tablet", AttributeType::Bool, "Enable tablet device", false, true, false, false, None));
    push_attribute(&mut v, attribute("protection", AttributeType::Bool, "Protection flag to prevent accidental deletion", false, true, false, false, None));
    v
}

/// The attributes of the `network` block of the `proxmox_qemu_vm` resource.
pub open spec fn vm_network_attributes() -> Seq<AttributeView> {
    seq![
        attr_spec("id"@, AttributeType::Number, "Network interface ID (0-31)"@, true, false, false, false, None),
        attr_spec("model"@, AttributeType::String, "Network card model: virtio, e1000, rtl8139, vmxnet3"@, false, true, false, false, Some(DefaultView::Text("virtio"@))),
        attr_spec("bridge"@, AttributeType::String, "Bridge to attach the network interface to"@, true, false, false, false, None),
        attr_spec("firewall"@, AttributeType::Bool, "Enable firewall on this interface"@, false, true, false, false, Some(DefaultView::Bool(false))),
        attr_spec("tag"@, AttributeType::Number, "VLAN tag (1-4094)"@, false, true, false, false, Some(DefaultView::Number(0xBFF0000000000000u64, "-1"@))),
        attr_spec("macaddr"@, AttributeType::String, "MAC address (computed if not provided)"@, false, true, true, false, Some(DefaultView::Text(""@))),
        attr_spec("rate"@, AttributeType::Number, "Rate limit in MB/s"@, false, true, false, false, Some(DefaultView::Number(0xBFF0000000000000u64, "-1"@))),
        attr_spec("queues"@, AttributeType::Number, "Number of packet queues (1-64)"@, false, true, false, false, Some(DefaultView::Number(0xBFF0000000000000u64, "-1"@))),
        attr_spec("link_down"@, AttributeType::Bool, "Link down (disconnect)"@, false, true, false, false, Some(DefaultView::Bool(false))),
        attr_spec("mtu"@, AttributeType::Number, "MTU (576-65536)"@, false, true, false, false, None),
    ]
}

fn vm_network_attribute_list() -> (r: Vec<AttributeSchema>)
    ensures
        attribute_views(r@) == vm_network_attributes(),
{
    let mut v: Vec<AttributeSchema> = Vec::new();
    assert(attribute_views(v@) =~= Seq::<AttributeView>::empty());
    push_attribute(&mut v, attribute("id", AttributeType::Number, "Network interface ID (0-31)", true, false, false, false, None));
    push_attribute(&mut v, attribute("model", AttributeType::String, "Network card model: virtio, e1000, rtl8139, vmxnet3", false, true, false, false, Some(DefaultValue::Text(String::from_str("virtio")))));
    push_attribute(&mut v, attribute("bridge", AttributeType::String, "Bridge to attach the network interface to", true, false, false, false, None));
    push_attribute(&mut v, attribute("firewall", AttributeType::Bool, "Enable firewall on this interface", false, true, false, false, Some(DefaultValue::Bool(false))));
    push_attribute(&mut v, attribute("tag", AttributeType::Number, "VLAN tag (1-4094)", false, true, false, false, Some(minus_one())));
    push_attribute(&mut v, attribute("macaddr", AttributeType::String, "MAC address (computed if not provided)", false, true, true, false, Some(DefaultValue::Text(String::from_str("")))));
    push_attribute(&mut v, attribute("rate", AttributeType::Number, "Rate limit in MB/s", false, true, false, false, Some(minus_one())));
    push_attribute(&mut v, attribute("queues", AttributeType::Number, "Number of packet queues (1-64)", false, true, false, false, Some(minus_one())));
    push_attribute(&mut v, attribute("link_down", AttributeType::Bool, "Link down (disconnect)", false, true, false, false, Some(DefaultValue::Bool(false))));
    push_attribute(&mut v, attribute("mtu", AttributeType::Number, "MTU (576-65536)", false, true, false, false, None));
    v
}

/// The attributes of the `disk` block of the `proxmox_qemu_vm` resource.
pub open spec fn vm_disk_attributes() -> Seq<AttributeView> {
    seq![
        attr_spec("slot"@, AttributeType::String, "Disk slot (e.g., scsi0, virtio0, ide0)"@, true, false, false, false, None),
        attr_spec("type"@, AttributeType::String, "Disk type: scsi, virtio, ide, sata"@, true, false, false, false, None),
        attr_spec("storage"@, AttributeType::String, "Storage pool name"@, true, false, false, false, None),
        attr_spec("size"@, AttributeType::String, "Disk size (e.g., 10G, 1T)"@, true, false, false, false, None),
        attr_spec("format"@, AttributeType::String, "Disk format (raw, qcow2, vmdk)"@, false, true, false, false, None),
        attr_spec("discard"@, AttributeType::Bool, "Enable discard/trim"@, false, true, false, false, None),
        attr_spec("emulatessd"@, AttributeType::Bool, "Emulate SSD drive"@, false, true, false, false, None),
        attr_spec("iothread"@, AttributeType::Bool, "Enable iothread"@, false, true, false, false, None),
        attr_spec("backup"@, AttributeType::Bool, "Include in backups"@, false, true, false, false, None),
        attr_spec("replicate"@, AttributeType::Bool, "Include in replication"@, false, true, false, false, None),
        attr_spec("readonly"@, AttributeType::Bool, "Set disk as read-only"@, false, true, false, false, None),
        attr_spec("iops_r_burst"@, AttributeType::Number, "Maximum read IO burst"@, false, true, false, false, None),
        attr_spec("iops_r_burst_length"@, AttributeType::Number, "Length of read IO burst in seconds"@, false, true, false, false, None),
        attr_spec("iops_r_concurrent"@, AttributeType::Number, "Maximum concurrent read IO"@, false, true, false, false, None),
        attr_spec("iops_wr_burst"@, AttributeType::Number, "Maximum write IO burst"@, false, true, false, false, None),
        attr_spec("iops_wr_burst_length"@, AttributeType::Number, "Length of write IO burst in seconds"@, false, true, false, false, None),
        attr_spec("iops_wr_concurrent"@, AttributeType::Number, "Maximum concurrent write IO"@, false, true, false, false, None),
        attr_spec("mbps_r_burst"@, AttributeType::Number, "Maximum read bandwidth burst in MB/s"@, false, true, false, false, None),
        attr_spec("mbps_r_concurrent"@, AttributeType::Number, "Maximum concurrent read bandwidth in MB/s"@, false, true, false, false, None),
        attr_spec("mbps_wr_burst"@, AttributeType::Number, "Maximum write bandwidth burst in MB/s"@, false, true, false, false, None),
        attr_spec("mbps_wr_concurrent"@, AttributeType::Number, "Maximum concurrent write bandwidth in MB/s"@, false, true, false, false, None),
    ]
}

fn vm_disk_attribute_list() -> (r: Vec<AttributeSchema>)
    ensures
        attribute_views(r@) == vm_disk_attributes(),
{
    let mut v: Vec<AttributeSchema> = Vec::new();
    assert(attribute_views(v@) =~= Seq::<AttributeView>::empty());
    push_attribute(&mut v, attribute("slot", AttributeType::String, "Disk slot (e.g., scsi0, virtio0, ide0)", true, false, false, false, None));
    push_attribute(&mut v, attribute("type", AttributeType::String, "Disk type: scsi, virtio, ide, sata", true, false, false, false, None));
    push_attribute(&mut v, attribute("storage", AttributeType::String, "Storage pool name", true, false, false, false, None));
    push_attribute(&mut v, attribute("size", AttributeType::String, "Disk size (e.g., 10G, 1T)", true, false, false, false, None));
    push_attribute(&mut v, attribute("format", AttributeType::String, "Disk format (raw, qcow2, vmdk)", false, true, false, false, None));
    push_attribute(&mut v, attribute("discard", AttributeType::Bool, "Enable discard/trim", false, true, false, false, None));
    push_attribute(&mut v, attribute("emulatessd", AttributeType::Bool, "Emulate SSD drive", false, true, false, false, None));
    push_attribute(&mut v, attribute("iothread", AttributeType::Bool, "Enable iothread", false, true, false, false, None));
    push_attribute(&mut v, attribute("backup", AttributeType::Bool, "Include in backups", false, true, false, false, None));
    push_attribute(&mut v, attribute("replicate", AttributeType::Bool, "Include in replication", false, true, false, false, None));
    push_attribute(&mut v, attribute("readonly", AttributeType::Bool, "Set disk as read-only", false, true, false, false, None));
    push_attribute(&mut v, attribute("iops_r_burst", AttributeType::Number, "Maximum read IO burst", false, true, false, false, None));
    push_attribute(&mut v, attribute("iops_r_burst_length", AttributeType::Number, "Length of read IO burst in seconds", false, true, false, false, None));
    push_attribute(&mut v, attribute("iops_r_concurrent", AttributeType::Number, "Maximum concurrent read IO", false, true, false, false, None));
    push_attribute(&mut v, attribute("iops_wr_burst", AttributeType::Number, "Maximum write IO burst", false, true, false, false, None));
    push_attribute(&mut v, attribute("iops_wr_burst_length", AttributeType::Number, "Length of write IO burst in seconds", false, true, false, false, None));
    push_attribute(&mut v, attribute("iops_wr_concurrent", AttributeType::Number, "Maximum concurrent write IO", false, true, false, false, None));
    push_attribute(&mut v, attribute("mbps_r_burst", AttributeType::Number, "Maximum read bandwidth burst in MB/s", false, true, false, false, None));
    push_attribute(&mut v, attribute("mbps_r_concurrent", AttributeType::Number, "Maximum concurrent read bandwidth in MB/s", false, true, false, false, None));
    push_attribute(&mut v, attribute("mbps_wr_burst", AttributeType::Number, "Maximum write bandwidth burst in MB/s", false, true, false, false, None));
    push_attribute(&mut v, attribute("mbps_wr_concurrent", AttributeType::Number, "Maximum concurrent write bandwidth in MB/s", false, true, false, false, None));
    v
}

/// The attributes of the `cdrom` block of the `proxmox_qemu_vm` resource.
pub open spec fn vm_cdrom_attributes() -> Seq<AttributeView> {
    seq![
        attr_spec("slot"@, AttributeType::String, "CD-ROM slot (e.g., ide2)"@, true, false, false, false, None),
        attr_spec("iso"@, AttributeType::String, "ISO image path (e.g., local:iso/ubuntu.iso)"@, true, false, false, false, None),
    ]
}

fn vm_cdrom_attribute_list() -> (r: Vec<AttributeSchema>)
    ensures
        attribute_views(r@) == vm_cdrom_attributes(),
{
    let mut v: Vec<AttributeSchema> = Vec::new();
    assert(attribute_views(v@) =~= Seq::<AttributeView>::empty());
    push_attribute(&mut v, attribute("slot", AttributeType::String, "CD-ROM slot (e.g., ide2)", true, false, false, false, None));
    push_attribute(&mut v, attribute("iso", AttributeType::String, "ISO image path (e.g., local:iso/ubuntu.iso)", true, false, false, false, None));
    v
}

/// The attributes of the `cloudinit_drive` block of the `proxmox_qemu_vm` resource.
pub open spec fn vm_cloudinit_drive_attributes() -> Seq<AttributeView> {
    seq![
        attr_spec("slot"@, AttributeType::String, "Cloud-init drive slot (e.g., ide3)"@, true, false, false, false, None),
        attr_spec("storage"@, AttributeType::String, "Storage pool for cloud-init drive"@, true, false, false, false, None),
    ]
}

fn vm_cloudinit_drive_attribute_list() -> (r: Vec<AttributeSchema>)
    ensures
        attribute_views(r@) == vm_cloudinit_drive_attributes(),
{
    let mut v: Vec<AttributeSchema> = Vec::new();
    assert(attribute_views(v@) =~= Seq::<AttributeView>::empty());
    push_attribute(&mut v, attribute("slot", AttributeType::String, "Cloud-init drive slot (e.g., ide3)", true, false, false, false, None));
    push_attribute(&mut v, attribute("storage", AttributeType::String, "Storage pool for cloud-init drive", true, false, false, false, None));
    v
}

/// The attributes of the `serial` block of the `proxmox_qemu_vm` resource.
pub open spec fn vm_serial_attributes() -> Seq<AttributeView> {
    seq![
        attr_spec("id"@, AttributeType::Number, "Serial port ID"@, true, false, false, false, None),
        attr_spec("type"@, AttributeType::String, "Serial port type (e.g., socket)"@, true, false, false, false, None),
    ]
}

fn vm_serial_attribute_list() -> (r: Vec<AttributeSchema>)
    ensures
        attribute_views(r@) == vm_serial_attributes(),
{
    let mut v: Vec<AttributeSchema> = Vec::new();
    assert(attribute_views(v@) =~= Seq::<AttributeView>::empty());
    push_attribute(&mut v, attribute("id", AttributeType::Number, "Serial port ID", true, false, false, false, None));
    push_attribute(&mut v, attribute("type", AttributeType::String, "Serial port type (e.g., socket)", true, false, false, false, None));
    v
}

/// The attributes of the `efidisk` block of the `proxmox_qemu_vm` resource.
pub open spec fn vm_efidisk_attributes() -> Seq<AttributeView> {
    seq![
        attr_spec("efitype"@, AttributeType::String, "EFI type (2m, 4m)"@, false, true, false, false, Some(DefaultView::Text("4m"@))),
        attr_spec("storage"@, AttributeType::String, "Storage pool name"@, true, false, false, false, None),
        attr_spec("format"@, AttributeType::String, "Disk format (raw, qcow2)"@, false, true, false, false, Some(DefaultView::Text("raw"@))),
        attr_spec("pre_enrolled_keys"@, AttributeType::Bool, "Use pre-enrolled keys"@, false, true, false, false, Some(DefaultView::Bool(false))),
    ]
}

fn vm_efidisk_attribute_list() -> (r: Vec<AttributeSchema>)
    ensures
        attribute_views(r@) == vm_efidisk_attributes(),
{
    let mut v: Vec<AttributeSchema> = Vec::new();
    assert(attribute_views(v@) =~= Seq::<AttributeView>::empty());
    push_attribute(&mut v, attribute("efitype", AttributeType::String, "EFI type (2m, 4m)", false, true, false, false, Some(DefaultValue::Text(String::from_str("4m")))));
    push_attribute(&mut v, attribute("storage", AttributeType::String, "Storage pool name", true, false, false, false, None));
    push_attribute(&mut v, attribute("format", AttributeType::String, "Disk format (raw, qcow2)", false, true, false, false, Some(DefaultValue::Text(String::from_str("raw")))));
    push_attribute(&mut v, attribute("pre_enrolled_keys", AttributeType::Bool, "Use pre-enrolled keys", false, true, false, false, Some(DefaultValue::Bool(false))));
    v
}

/// The nested blocks of the `proxmox_qemu_vm` resource.
pub open spec fn vm_blocks() -> Seq<BlockView> {
    seq![
        BlockView {
            block_name: "network"@,
            version: 0,
            attributes: vm_network_attributes(),
            description: "Network interface configuration"@,
            nesting: NestingMode::List,
            min_items: 0,
            max_items: 32,
        },
        BlockView {
            block_name: "disk"@,
            version: 0,
            attributes: vm_disk_attributes(),
            description: "Disk configuration"@,
            nesting: NestingMode::List,
            min_items: 0,
            max_items: 256,
        },
        BlockView {
            block_name: "cdrom"@,
            version: 0,
            attributes: vm_cdrom_attributes(),
            description: "CD-ROM configuration"@,
            nesting: NestingMode::List,
            min_items: 0,
            max_items: 4,
        },
        BlockView {
            block_name: "cloudinit_drive"@,
            version: 0,
            attributes: vm_cloudinit_drive_attributes(),
            description: "Cloud-init drive configuration"@,
            nesting: NestingMode::List,
            min_items: 0,
            max_items: 1,
        },
        BlockView {
            block_name: "serial"@,
            version: 0,
            attributes: vm_serial_attributes(),
            description: "Serial port configuration"@,
            nesting: NestingMode::List,
            min_items: 0,
            max_items: 4,
        },
        BlockView {
            block_name: "efidisk"@,
            version: 0,
            attributes: vm_efidisk_attributes(),
            description: "EFI disk configuration"@,
            nesting: NestingMode::List,
            min_items: 0,
            max_items: 1,
        },
    ]
}

fn vm_block_list() -> (r: Vec<NestedBlockSchema>)
    ensures
        block_views(r@) == vm_blocks(),
{
    let mut v: Vec<NestedBlockSchema> = Vec::new();
    assert(block_views(v@) =~= Seq::<BlockView>::empty());
    push_block(
        &mut v,
        NestedBlockSchema {
            block_name: String::from_str("network"),
            version: 0,
            attributes: vm_network_attribute_list(),
            description: String::from_str("Network interface configuration"),
            nesting: NestingMode::List,
            min_items: 0,
            max_items: 32,
        },
    );
    push_block(
        &mut v,
        NestedBlockSchema {
            block_name: String::from_str("disk"),
            version: 0,
            attributes: vm_disk_attribute_list(),
            description: String::from_str("Disk configuration"),
            nesting: NestingMode::List,
            min_items: 0,
            max_items: 256,
        },
    );
    push_block(
        &mut v,
        NestedBlockSchema {
            block_name: String::from_str("cdrom"),
            version: 0,
            attributes: vm_cdrom_attribute_list(),
            description: String::from_str("CD-ROM configuration"),
            nesting: NestingMode::List,
            min_items: 0,
            max_items: 4,
        },
    );
    push_block(
        &mut v,
        NestedBlockSchema {
            block_name: String::from_str("cloudinit_drive"),
            version: 0,
            attributes: vm_cloudinit_drive_attribute_list(),
            description: String::from_str("Cloud-init drive configuration"),
            nesting: NestingMode::List,
            min_items: 0,
            max_items: 1,
        },
    );
    push_block(
        &mut v,
        NestedBlockSchema {
            block_name: String::from_str("serial"),
            version: 0,
            attributes: vm_serial_attribute_list(),
            description: String::from_str("Serial port configuration"),
            nesting: NestingMode::List,
            min_items: 0,
            max_items: 4,
        },
    );
    push_block(
        &mut v,
        NestedBlockSchema {
            block_name: String::from_str("efidisk"),
            version: 0,
            attributes: vm_efidisk_attribute_list(),
            description: String::from_str("EFI disk configuration"),
            nesting: NestingMode::List,
            min_items: 0,
            max_items: 1,
        },
    );
    v
}

/// The schema of the `proxmox_qemu_vm` resource.
pub open spec fn vm_schema() -> SchemaView {
    SchemaView {
        version: 0,
        description: "Manages QEMU/KVM virtual machines in Proxmox VE"@,
        attributes: vm_attributes(),
        blocks: vm_blocks(),
    }
}

impl QemuVmResource {
    /// The resource's schema: its attributes and its `network`, `disk`,
    /// `cdrom`, `cloudinit_drive`, `serial` and `efidisk` blocks.
    pub fn schema(&self) -> (r: Schema)
        ensures
            r@ == vm_schema(),
    {
        Schema {
        version: 0,
        description: String::from_str("Manages QEMU/KVM virtual machines in Proxmox VE"),
        attributes: vm_attribute_list(),
        blocks: vm_block_list(),
    }
    }
}

} // verus!
