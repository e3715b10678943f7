use proxmox::api::nodes::qemu::QemuConfig;
use proxmox::number::Number;
use proxmox::resources::nodes::disk::{CdromBlock, CloudInitDriveBlock, DiskBlock, EfiDiskBlock, SerialBlock};
use proxmox::resources::nodes::network::NetworkBlock;
use proxmox::resources::nodes::resource_vm::QemuVmResource;
use proxmox::resources::nodes::vm_config::{CloudInitPlan, VmConfig};
use proxmox::resources::nodes::vm_state::{StateValue, StateWrite};
use proxmox::schema::NestingMode;
use proxmox::values::AttrValue;

fn num(x: f64) -> Number {
    Number { bits: x.to_bits(), text: format!("{}", x) }
}

fn text(s: &str) -> Option<AttrValue> {
    Some(AttrValue::Text(s.to_string()))
}

fn number(x: f64) -> Option<AttrValue> {
    Some(AttrValue::Number(num(x)))
}

fn flag(b: bool) -> Option<AttrValue> {
    Some(AttrValue::Bool(b))
}

fn blank_config() -> VmConfig {
    VmConfig {
        target_node: None,
        vmid: None,
        name: None,
        tags: None,
        clone: None,
        full_clone: None,
        os_type: None,
        bios: None,
        machine: None,
        cpu_type: None,
        cpu: None,
        cores: None,
        sockets: None,
        vcpus: None,
        memory: None,
        balloon: None,
        boot: None,
        bootdisk: None,
        onboot: None,
        scsihw: None,
        agent: None,
        qemu_os: None,
        ostype: None,
        ciuser: None,
        cipassword: None,
        ciupgrade: None,
        sshkeys: None,
        start: None,
        tablet: None,
        protection: None,
        description: None,
        efidisk0: None,
        additional_wait: None,
        scsi: Vec::new(),
        sata: Vec::new(),
        ide: Vec::new(),
        virtio: Vec::new(),
        net: Vec::new(),
        ipconfig: Vec::new(),
        network: None,
        disk: None,
        cdrom: None,
        cloudinit_drive: None,
        serial: None,
        efidisk: None,
        cloudinit: None,
    }
}

fn blank_qemu() -> QemuConfig {
    QemuConfig {
        acpi: None,
        agent: None,
        args: None,
        autostart: None,
        balloon: None,
        bios: None,
        boot: None,
        bootdisk: None,
        cdrom: None,
        cores: None,
        cpu: None,
        cpulimit: None,
        cpuunits: None,
        description: None,
        digest: None,
        efidisk0: None,
        freeze: None,
        hookscript: None,
        hotplug: None,
        hugepages: None,
        ide0: None,
        ide1: None,
        ide2: None,
        ide3: None,
        kvm: None,
        localtime: None,
        lock: None,
        machine: None,
        memory: None,
        migrate_downtime: None,
        migrate_speed: None,
        name: None,
        nameserver: None,
        net0: None,
        net1: None,
        net2: None,
        net3: None,
        numa: None,
        numa0: None,
        numa1: None,
        onboot: None,
        ostype: None,
        protection: None,
        reboot: None,
        sata0: None,
        sata1: None,
        sata2: None,
        sata3: None,
        sata4: None,
        sata5: None,
        scsi0: None,
        scsi1: None,
        scsi2: None,
        scsi3: None,
        scsi4: None,
        scsi5: None,
        scsi6: None,
        scsi7: None,
        scsihw: None,
        searchdomain: None,
        serial0: None,
        serial1: None,
        serial2: None,
        serial3: None,
        shares: None,
        smbios1: None,
        smp: None,
        sockets: None,
        startup: None,
        startdate: None,
        tablet: None,
        tags: None,
        template: None,
        unused0: None,
        unused1: None,
        unused2: None,
        unused3: None,
        usb0: None,
        usb1: None,
        usb2: None,
        usb3: None,
        vcpus: None,
        vga: None,
        virtio0: None,
        virtio1: None,
        virtio2: None,
        virtio3: None,
        virtio4: None,
        virtio5: None,
        virtio6: None,
        virtio7: None,
        virtio8: None,
        virtio9: None,
        virtio10: None,
        virtio11: None,
        virtio12: None,
        virtio13: None,
        virtio14: None,
        virtio15: None,
        vmgenid: None,
        vmstatestorage: None,
        watchdog: None,
    }
}

fn network_block(id: f64, model: &str, bridge: &str) -> NetworkBlock {
    NetworkBlock {
        id: Some(num(id)),
        model: Some(model.to_string()),
        bridge: Some(bridge.to_string()),
        firewall: None,
        tag: None,
        macaddr: None,
        rate: None,
        queues: None,
        link_down: None,
        mtu: None,
    }
}

fn disk_block(slot: &str, storage: &str, size: &str, format: &str) -> DiskBlock {
    DiskBlock {
        slot: Some(slot.to_string()),
        storage: Some(storage.to_string()),
        size: Some(size.to_string()),
        format: Some(format.to_string()),
        iothread: None,
        emulatessd: None,
        discard: None,
        backup: None,
        replicate: None,
        readonly: None,
        iops_r_burst: None,
        iops_r_concurrent: None,
        iops_wr_burst: None,
        iops_wr_concurrent: None,
        mbps_r_burst: None,
        mbps_r_concurrent: None,
        mbps_wr_burst: None,
        mbps_wr_concurrent: None,
    }
}

fn efidisk_block() -> EfiDiskBlock {
    EfiDiskBlock { storage: text("local-lvm"), efitype: text("4m"), format: None, pre_enrolled_keys: None }
}

fn create_test_config() -> VmConfig {
    let mut c = blank_config();
    c.target_node = text("pve");
    c.vmid = number(100.0);
    c.name = text("test-vm");
    c.memory = number(2048.0);
    c.cores = number(2.0);
    c.sockets = number(1.0);
    c
}

fn create_test_config_with_network_blocks() -> VmConfig {
    let mut c = create_test_config();
    let mut net0 = network_block(0.0, "virtio", "vmbr0");
    net0.firewall = Some(true);
    net0.tag = Some(100);
    let mut net1 = network_block(1.0, "e1000", "vmbr1");
    net1.firewall = Some(false);
    net1.tag = Some(200);
    c.network = Some(vec![Some(net0), Some(net1)]);
    c
}

fn create_test_config_with_disk_blocks() -> VmConfig {
    let mut c = create_test_config();
    let mut disk0 = disk_block("scsi0", "local-lvm", "10G", "raw");
    disk0.iothread = Some(true);
    disk0.emulatessd = Some(true);
    disk0.discard = Some(true);
    let disk1 = disk_block("virtio0", "local-lvm", "20G", "qcow2");
    c.disk = Some(vec![Some(disk0), Some(disk1)]);
    c
}

fn create_test_config_with_efidisk() -> VmConfig {
    let mut c = create_test_config();
    c.bios = text("ovmf");
    c.efidisk = Some(vec![Some(efidisk_block())]);
    c
}

fn create_test_config_with_cloudinit() -> VmConfig {
    let mut c = create_test_config();
    c.cloudinit = Some(CloudInitPlan {
        user: text("ubuntu"),
        password: text("secret123"),
        ssh_keys: text("ssh-rsa AAAAB3NzaC1..."),
        has_ipconfig: true,
    });
    c
}

fn create_test_config_with_advanced_features() -> VmConfig {
    let mut c = blank_config();
    c.vmid = number(100.0);
    c.name = text("test-vm");
    c.target_node = text("pve");
    c.tags = text("production,web");
    c.clone = text("template-ubuntu");
    c.full_clone = flag(false);
    c.os_type = text("cloud-init");
    c.bios = text("ovmf");
    c.machine = text("q35");
    c.cpu_type = text("x86-64-v2-AES");
    c.cores = number(2.0);
    c.sockets = number(1.0);
    c.vcpus = number(2.0);
    c.memory = number(4096.0);
    c.balloon = number(2048.0);
    c.boot = text("c");
    c.bootdisk = text("scsi0");
    c.onboot = flag(true);
    c.scsihw = text("virtio-scsi-pci");
    c.agent = number(1.0);
    c.qemu_os = text("l26");
    c.ipconfig = vec![text("ip=dhcp")];
    c.ciuser = text("ubuntu");
    c.cipassword = text("password123");
    c.ciupgrade = flag(true);
    c.sshkeys = text("ssh-rsa AAAAB3NzaC1...");
    c.additional_wait = number(15.0);
    let mut disk0 = disk_block("scsi0", "local-lvm", "20G", "raw");
    disk0.discard = Some(true);
    disk0.emulatessd = Some(true);
    disk0.iothread = Some(true);
    c.disk = Some(vec![Some(disk0)]);
    c.cdrom = Some(vec![Some(CdromBlock {
        slot: Some("ide2".to_string()),
        iso: Some("local:iso/ubuntu-24.04.iso".to_string()),
    })]);
    c.cloudinit_drive = Some(vec![Some(CloudInitDriveBlock {
        slot: Some("ide3".to_string()),
        storage: Some("local-lvm".to_string()),
    })]);
    c.serial = Some(vec![Some(SerialBlock { id: Some(num(0.0)), kind: Some("socket".to_string()) })]);
    c.efidisk = Some(vec![Some(efidisk_block())]);
    c
}

/// The final text of each attribute after the writes, as a state would hold it.
fn final_text(writes: &[StateWrite], name: &str) -> Option<String> {
    let mut r = None;
    for w in writes {
        if w.name == name {
            r = match &w.value {
                StateValue::Text(s) => Some(s.clone()),
                _ => None,
            };
        }
    }
    r
}

fn final_whole(writes: &[StateWrite], name: &str) -> Option<u64> {
    let mut r = None;
    for w in writes {
        if w.name == name {
            r = match &w.value {
                StateValue::Whole(n) => Some(*n),
                _ => None,
            };
        }
    }
    r
}

fn final_flag(writes: &[StateWrite], name: &str) -> Option<bool> {
    let mut r = None;
    for w in writes {
        if w.name == name {
            r = match &w.value {
                StateValue::Flag(b) => Some(*b),
                _ => None,
            };
        }
    }
    r
}

fn written(writes: &[StateWrite], name: &str) -> bool {
    writes.iter().any(|w| w.name == name)
}

fn last_number(texts: &[String]) -> Option<f64> {
    texts.iter().rev().find_map(|t| t.parse::<f64>().ok())
}

#[test]
fn test_resource_type_name() {
    let resource = QemuVmResource::new();
    assert_eq!(resource.resource_type_name(), "proxmox_qemu_vm");
}

#[test]
fn test_normalize_network_config_sorts_parameters() {
    // Test that parameters are sorted alphabetically
    let net_config = "virtio,bridge=vmbr0,firewall=1,tag=100";
    let normalized = QemuVmResource::normalize_network_config(net_config, None);
    assert_eq!(normalized, "virtio,bridge=vmbr0,firewall=1,tag=100");

    // Test with different order
    let net_config = "virtio,tag=100,bridge=vmbr0,firewall=1";
    let normalized = QemuVmResource::normalize_network_config(net_config, None);
    assert_eq!(normalized, "virtio,bridge=vmbr0,firewall=1,tag=100");

    // Test with MAC address that should be removed
    let net_config = "virtio=BA:88:CB:76:75:D6,tag=100,bridge=vmbr0,firewall=1";
    let normalized = QemuVmResource::normalize_network_config(
        net_config,
        Some("virtio,bridge=vmbr0,tag=100,firewall=1"),
    );
    assert_eq!(normalized, "virtio,bridge=vmbr0,firewall=1,tag=100");

    // Test with MAC address that should be kept
    let net_config = "virtio=BA:88:CB:76:75:D6,tag=100,bridge=vmbr0,firewall=1";
    let normalized = QemuVmResource::normalize_network_config(
        net_config,
        Some("virtio=BA:88:CB:76:75:D6,bridge=vmbr0,tag=100,firewall=1"),
    );
    assert_eq!(
        normalized,
        "virtio=BA:88:CB:76:75:D6,bridge=vmbr0,firewall=1,tag=100"
    );
}

#[test]
fn test_validate_valid_config() {
    let resource = QemuVmResource::new();
    let diagnostics = resource.validate(&create_test_config());
    assert!(diagnostics.is_empty());
}

#[test]
fn test_validate_invalid_vmid_too_low() {
    let resource = QemuVmResource::new();
    let mut config = blank_config();
    config.target_node = text("pve");
    config.vmid = number(50.0);
    config.name = text("test-vm");
    let diagnostics = resource.validate(&config);
    assert_eq!(diagnostics.len(), 1);
    assert!(diagnostics[0].summary.contains("Invalid VMID"));
}

#[test]
fn test_validate_invalid_cores() {
    let resource = QemuVmResource::new();
    let mut config = blank_config();
    config.target_node = text("pve");
    config.vmid = number(100.0);
    config.name = text("test-vm");
    config.cores = number(200.0);
    let diagnostics = resource.validate(&config);
    assert_eq!(diagnostics.len(), 1);
    assert!(diagnostics[0].summary.contains("Invalid cores"));
}

#[test]
fn test_validate_invalid_memory() {
    let resource = QemuVmResource::new();
    let mut config = blank_config();
    config.target_node = text("pve");
    config.vmid = number(100.0);
    config.name = text("test-vm");
    config.memory = number(10.0);
    let diagnostics = resource.validate(&config);
    assert_eq!(diagnostics.len(), 1);
    assert!(diagnostics[0].summary.contains("Invalid memory"));
}

#[test]
fn test_validate_invalid_bios() {
    let resource = QemuVmResource::new();
    let mut config = blank_config();
    config.target_node = text("pve");
    config.vmid = number(100.0);
    config.name = text("test-vm");
    config.bios = text("invalid");
    let diagnostics = resource.validate(&config);
    assert_eq!(diagnostics.len(), 1);
    assert!(diagnostics[0].summary.contains("Invalid BIOS"));
}

#[test]
fn test_resource_factory() {
    let factory: fn() -> QemuVmResource = || QemuVmResource::new();
    let resource = factory();
    assert_eq!(resource.resource_type_name(), "proxmox_qemu_vm");
}

#[test]
fn test_validate_advanced_configuration() {
    let resource = QemuVmResource::new();
    let diagnostics = resource.validate(&create_test_config_with_advanced_features());
    // OVMF bios is set, and the efidisk block is included
    assert_eq!(diagnostics.len(), 0);
}

#[test]
fn test_schema_contains_network_blocks() {
    let resource = QemuVmResource::new();
    let schema = resource.schema();
    let network_block = schema.blocks.iter().find(|b| b.block_name == "network");
    assert!(network_block.is_some());
    let network_block = network_block.unwrap();
    assert!(network_block.nesting == NestingMode::List);
    assert_eq!(network_block.min_items, 0);
    assert_eq!(network_block.max_items, 32);
    let attrs = &network_block.attributes;
    for name in ["id", "model", "bridge", "firewall", "tag", "macaddr", "rate", "queues"] {
        assert!(attrs.iter().any(|a| a.name == name));
    }
}

#[test]
fn test_schema_contains_disk_blocks() {
    let resource = QemuVmResource::new();
    let schema = resource.schema();
    let disk_block = schema.blocks.iter().find(|b| b.block_name == "disk");
    assert!(disk_block.is_some());
    let disk_block = disk_block.unwrap();
    assert!(disk_block.nesting == NestingMode::List);
    let attrs = &disk_block.attributes;
    for name in [
        "slot", "type", "storage", "size", "format", "iothread", "emulatessd", "discard", "backup",
        "replicate",
    ] {
        assert!(attrs.iter().any(|a| a.name == name));
    }
}

#[test]
fn test_schema_contains_efidisk_block() {
    let resource = QemuVmResource::new();
    let schema = resource.schema();
    let efidisk_block = schema.blocks.iter().find(|b| b.block_name == "efidisk");
    assert!(efidisk_block.is_some());
    let efidisk_block = efidisk_block.unwrap();
    assert!(efidisk_block.nesting == NestingMode::List);
    let attrs = &efidisk_block.attributes;
    assert!(attrs.iter().any(|a| a.name == "storage"));
    assert!(attrs.iter().any(|a| a.name == "efitype"));
}

#[test]
fn test_schema_contains_cloudinit_block() {
    let resource = QemuVmResource::new();
    let schema = resource.schema();
    let cloudinit_block = schema.blocks.iter().find(|b| b.block_name == "cloudinit_drive");
    assert!(cloudinit_block.is_some());
    let cloudinit_block = cloudinit_block.unwrap();
    assert!(cloudinit_block.nesting == NestingMode::List);
    let attrs = &cloudinit_block.attributes;
    assert!(attrs.iter().any(|a| a.name == "slot"));
    assert!(attrs.iter().any(|a| a.name == "storage"));
}

#[test]
fn test_validate_network_blocks() {
    let resource = QemuVmResource::new();
    assert!(resource.validate(&create_test_config_with_network_blocks()).is_empty());
}

#[test]
fn test_validate_disk_blocks() {
    let resource = QemuVmResource::new();
    assert!(resource.validate(&create_test_config_with_disk_blocks()).is_empty());
}

#[test]
fn test_validate_efidisk_with_ovmf() {
    let resource = QemuVmResource::new();
    assert!(resource.validate(&create_test_config_with_efidisk()).is_empty());
}

#[test]
fn test_validate_cloudinit_blocks() {
    let resource = QemuVmResource::new();
    assert!(resource.validate(&create_test_config_with_cloudinit()).is_empty());
}

#[test]
fn test_extract_vm_config() {
    let resource = QemuVmResource::new();
    let config = create_test_config();

    let result = resource.extract_vm_config(&config);
    assert!(result.is_ok());

    let (node, vmid, create_request) = result.ok().unwrap();
    assert_eq!(node, "pve");
    assert_eq!(vmid, 100);
    assert_eq!(create_request.vmid, 100);
    assert_eq!(create_request.name, Some("test-vm".to_string()));
    assert_eq!(create_request.memory, Some(2048));
    assert_eq!(create_request.cores, Some(2));
    assert_eq!(create_request.sockets, Some(1));
}

#[test]
fn test_network_blocks_to_string() {
    let mut net0 = network_block(0.0, "virtio", "vmbr0");
    net0.firewall = Some(true);
    net0.tag = Some(100);
    let networks = vec![Some(net0)];

    let net_string = QemuVmResource::network_blocks_to_string(&networks).unwrap();
    assert!(net_string.contains("virtio"));
    assert!(net_string.contains("bridge=vmbr0"));
    assert!(net_string.contains("firewall=1"));
    assert!(net_string.contains("tag=100"));
}

#[test]
fn test_disk_blocks_to_string() {
    let mut disk0 = disk_block("scsi0", "local-lvm", "10G", "raw");
    disk0.iothread = Some(true);
    let disks = vec![Some(disk0)];

    let (interface, disk_string) = QemuVmResource::disk_block_to_api_string(&disks[0]).unwrap();
    assert_eq!(interface, "scsi0");
    assert!(disk_string.contains("local-lvm:"));
    assert!(disk_string.contains("10"));
    assert!(disk_string.contains("format=raw"));
    assert!(disk_string.contains("iothread=1"));
}

#[test]
fn test_parse_network_string_to_block() {
    let net_string = "virtio,bridge=vmbr0,firewall=1,tag=100";
    let block = QemuVmResource::parse_network_string(net_string, 0);
    assert_eq!(block.id, 0);
    assert_eq!(block.model, "virtio");
    assert_eq!(block.bridge, Some("vmbr0".to_string()));
    assert_eq!(block.firewall, Some(true));
    assert_eq!(last_number(&block.tag), Some(100.0));
}

#[test]
fn test_parse_disk_string_to_block() {
    let disk_string = "local-lvm:10,format=raw,iothread=1";
    let block = QemuVmResource::parse_disk_string(disk_string, "scsi0");
    assert_eq!(block.slot, "scsi0");
    assert_eq!(block.disk_type, "scsi");
    assert_eq!(block.storage, "local-lvm");
    assert_eq!(block.size, Some("10G".to_string()));
    assert_eq!(block.format, Some("raw".to_string()));
    assert_eq!(block.iothread, Some(true));
}

#[test]
fn test_parse_iso_disk_string_to_block() {
    let disk_string = "local:iso/ubuntu-22.04.iso,media=cdrom";
    let block = QemuVmResource::parse_disk_string(disk_string, "ide2");
    assert_eq!(block.slot, "ide2");
    assert_eq!(block.disk_type, "ide");
    assert_eq!(block.storage, "local");
    assert_eq!(block.iso, Some("iso/ubuntu-22.04.iso".to_string()));
    assert_eq!(block.media, Some("cdrom".to_string()));
    assert_eq!(block.size, None);
}

#[test]
fn test_parse_cloudinit_disk_string_to_block() {
    let disk_string = "local-lvm,media=cloudinit";
    let block = QemuVmResource::parse_disk_string(disk_string, "ide2");
    assert_eq!(block.slot, "ide2");
    assert_eq!(block.disk_type, "ide");
    assert_eq!(block.storage, "local-lvm");
    assert_eq!(block.media, Some("cloudinit".to_string()));
    assert_eq!(block.size, None);
    assert_eq!(block.format, None);
}

#[test]
fn test_efidisk_block_to_string() {
    let efidisk = EfiDiskBlock {
        storage: text("local-lvm"),
        format: text("raw"),
        efitype: text("4m"),
        pre_enrolled_keys: flag(true),
    };
    let efidisk_string = QemuVmResource::efidisk_block_to_api_string(&Some(efidisk)).unwrap();
    assert!(efidisk_string.contains("local-lvm:"));
    assert!(efidisk_string.contains("efitype=4m"));
}

#[test]
fn test_extract_vm_config_with_network_blocks() {
    let resource = QemuVmResource::new();
    let config = create_test_config_with_network_blocks();

    let result = resource.extract_vm_config(&config);
    assert!(result.is_ok());

    let (node, vmid, create_request) = result.ok().unwrap();
    assert_eq!(node, "pve");
    assert_eq!(vmid, 100);
    assert_eq!(
        create_request.net0,
        Some("virtio,bridge=vmbr0,firewall=1,tag=100".to_string())
    );
    assert_eq!(
        create_request.net1,
        Some("e1000,bridge=vmbr1,firewall=0,tag=200".to_string())
    );
}

#[test]
fn test_extract_vm_config_with_disk_blocks() {
    let resource = QemuVmResource::new();
    let config = create_test_config_with_disk_blocks();

    let result = resource.extract_vm_config(&config);
    assert!(result.is_ok());

    let (_, _, create_request) = result.ok().unwrap();
    assert_eq!(
        create_request.scsi0,
        Some("local-lvm:10,format=raw,iothread=1,ssd=1,discard=on".to_string())
    );
    assert_eq!(
        create_request.virtio0,
        Some("local-lvm:20,format=qcow2".to_string())
    );
}

#[test]
fn test_extract_vm_config_with_efidisk_block() {
    let resource = QemuVmResource::new();
    let config = create_test_config_with_efidisk();

    let result = resource.extract_vm_config(&config);
    assert!(result.is_ok());

    let (_, _, create_request) = result.ok().unwrap();
    assert_eq!(
        create_request.efidisk0,
        Some("local-lvm:1,efitype=4m".to_string())
    );
}

#[test]
fn test_build_update_request_with_nested_blocks() {
    let resource = QemuVmResource::new();
    let config = create_test_config_with_network_blocks();

    let result = resource.build_update_request(&config);
    assert!(result.is_ok());

    let update_request = result.ok().unwrap();
    assert_eq!(
        update_request.net0,
        Some("virtio,bridge=vmbr0,firewall=1,tag=100".to_string())
    );
    assert_eq!(
        update_request.net1,
        Some("e1000,bridge=vmbr1,firewall=0,tag=200".to_string())
    );
}

#[test]
fn test_populate_state_from_config_with_computed_fields() {
    let mut state: Vec<StateWrite> = Vec::new();

    let mut vm_config = blank_qemu();
    vm_config.name = Some("test-vm".to_string());
    vm_config.cores = Some(2);
    vm_config.memory = Some(2048);
    vm_config.net0 = Some("virtio=BA:88:CB:76:75:D6,bridge=vmbr0,firewall=1,tag=100".to_string());
    vm_config.scsi0 = Some("local-lvm:vm-100-disk-0,size=10G".to_string());

    let planned_state = create_test_config_with_network_blocks();
    QemuVmResource::populate_state_from_config(&mut state, &vm_config, &planned_state);

    if let Some(net0) = final_text(&state, "net0") {
        assert_eq!(net0, "virtio,bridge=vmbr0,firewall=1,tag=100");
    }
    if let Some(scsi0) = final_text(&state, "scsi0") {
        assert_eq!(scsi0, "local-lvm:vm-100-disk-0,size=10G");
    }
}

#[test]
fn test_populate_state_with_network_blocks() {
    let mut state: Vec<StateWrite> = Vec::new();

    let mut vm_config = blank_qemu();
    vm_config.name = Some("test-vm".to_string());
    vm_config.net0 = Some("virtio=BA:88:CB:76:75:D6,bridge=vmbr0,firewall=1,tag=100".to_string());
    vm_config.net1 = Some("e1000=AA:BB:CC:DD:EE:FF,bridge=vmbr1,tag=200".to_string());

    let planned_state = create_test_config_with_network_blocks();
    QemuVmResource::populate_state_with_nested_blocks(&mut state, &vm_config, &planned_state);

    let networks = state.iter().rev().find(|w| w.name == "network").map(|w| &w.value);
    match networks {
        Some(StateValue::Networks(networks)) => {
            assert_eq!(networks.len(), 2);
            let net0 = &networks[0];
            assert_eq!(net0.id, 0);
            assert_eq!(net0.model, "virtio");
            assert_eq!(net0.bridge, Some("vmbr0".to_string()));
            assert_eq!(net0.firewall, Some(true));
            assert_eq!(last_number(&net0.tag), Some(100.0));
            assert_eq!(net0.macaddr, Some("BA:88:CB:76:75:D6".to_string()));
            let net1 = &networks[1];
            assert_eq!(net1.id, 1);
            assert_eq!(net1.model, "e1000");
            assert_eq!(net1.bridge, Some("vmbr1".to_string()));
            assert_eq!(last_number(&net1.tag), Some(200.0));
            assert_eq!(net1.macaddr, Some("AA:BB:CC:DD:EE:FF".to_string()));
        }
        _ => panic!("Expected network blocks"),
    }
}

#[test]
fn test_populate_state_with_disk_blocks() {
    let mut state: Vec<StateWrite> = Vec::new();

    let mut vm_config = blank_qemu();
    vm_config.name = Some("test-vm".to_string());
    vm_config.scsi0 =
        Some("local-lvm:vm-100-disk-0,size=10G,format=raw,iothread=1,ssd=1,discard=on".to_string());
    vm_config.virtio0 = Some("local-lvm:vm-100-disk-1,size=20G,format=qcow2".to_string());

    let planned_state = create_test_config_with_disk_blocks();
    QemuVmResource::populate_state_with_nested_blocks(&mut state, &vm_config, &planned_state);

    let disks = state.iter().rev().find(|w| w.name == "disk").map(|w| &w.value);
    match disks {
        Some(StateValue::Disks(disks)) => {
            assert_eq!(disks.len(), 2);
            let scsi0 = &disks[0];
            assert_eq!(scsi0.slot, "scsi0");
            assert_eq!(scsi0.disk_type, "scsi");
            assert_eq!(scsi0.storage, "local-lvm");
            assert_eq!(scsi0.size, Some("10G".to_string()));
            assert_eq!(scsi0.format, Some("raw".to_string()));
            assert_eq!(scsi0.iothread, Some(true));
            assert_eq!(scsi0.emulatessd, Some(true));
            assert_eq!(scsi0.discard, Some(true));
            let virtio0 = &disks[1];
            assert_eq!(virtio0.slot, "virtio0");
            assert_eq!(virtio0.disk_type, "virtio");
            assert_eq!(virtio0.storage, "local-lvm");
            assert_eq!(virtio0.size, Some("20G".to_string()));
            assert_eq!(virtio0.format, Some("qcow2".to_string()));
        }
        _ => panic!("Expected disk blocks"),
    }
}

#[test]
fn test_handle_computed_mac_addresses() {
    let networks = vec![Some(network_block(0.0, "virtio", "vmbr0"))];
    let net_string = QemuVmResource::network_blocks_to_string(&networks).unwrap();
    assert_eq!(net_string, "virtio,bridge=vmbr0");
    assert!(!net_string.contains("macaddr"));
}

#[test]
fn test_network_with_provided_mac_address() {
    let mut net0 = network_block(0.0, "virtio", "vmbr0");
    net0.macaddr = Some("AA:BB:CC:DD:EE:FF".to_string());
    let networks = vec![Some(net0)];
    let net_string = QemuVmResource::network_blocks_to_string(&networks).unwrap();
    assert!(net_string.contains("macaddr=AA:BB:CC:DD:EE:FF"));
}

#[test]
fn test_mixed_block_and_string_attributes() {
    let resource = QemuVmResource::new();
    let mut config = create_test_config();
    let mut net0 = network_block(0.0, "virtio", "vmbr0");
    net0.firewall = Some(true);
    config.network = Some(vec![Some(net0)]);
    config.net = vec![None, text("e1000,bridge=vmbr1")];

    let result = resource.extract_vm_config(&config);
    assert!(result.is_ok());

    let (_, _, create_request) = result.ok().unwrap();
    assert_eq!(
        create_request.net0,
        Some("virtio,bridge=vmbr0,firewall=1".to_string())
    );
    assert_eq!(create_request.net1, Some("e1000,bridge=vmbr1".to_string()));
}

#[test]
fn test_mixed_disk_types_with_blocks() {
    let resource = QemuVmResource::new();
    let mut config = create_test_config();
    config.disk = Some(vec![Some(disk_block("scsi0", "local-lvm", "10G", "raw"))]);
    config.cdrom = Some(vec![Some(CdromBlock {
        slot: Some("ide2".to_string()),
        iso: Some("local:iso/ubuntu-22.04.iso".to_string()),
    })]);
    config.cloudinit_drive = Some(vec![Some(CloudInitDriveBlock {
        slot: Some("ide3".to_string()),
        storage: Some("local-lvm".to_string()),
    })]);

    let result = resource.extract_vm_config(&config);
    assert!(result.is_ok());

    let (_, _, create_request) = result.ok().unwrap();
    assert_eq!(create_request.scsi0, Some("local-lvm:10,format=raw".to_string()));
    assert_eq!(
        create_request.ide2,
        Some("local:iso/ubuntu-22.04.iso,media=cdrom".to_string())
    );
    assert_eq!(create_request.ide3, Some("local-lvm:cloudinit".to_string()));
}

#[test]
fn test_cloudinit_ipconfig_to_string() {
    let cloudinit = CloudInitPlan { user: text("ubuntu"), password: None, ssh_keys: None, has_ipconfig: true };
    assert!(cloudinit.user.is_some());
    assert!(cloudinit.has_ipconfig);
}

#[test]
fn test_populate_state_with_all_zero_values() {
    let mut state: Vec<StateWrite> = Vec::new();
    let mut vm_config = blank_qemu();
    vm_config.name = Some("test-vm".to_string());

    let planned_state = create_test_config();
    QemuVmResource::populate_state_from_config(&mut state, &vm_config, &planned_state);

    // Only attributes present in planned state are populated with defaults
    assert!(final_whole(&state, "cores").is_some());
    assert!(final_whole(&state, "sockets").is_some());
    assert!(final_whole(&state, "memory").is_some());

    // These attributes are not in the planned state, so they are not set
    for name in ["cpu", "bios", "scsihw", "ostype", "agent", "onboot", "tablet", "protection", "tags", "description"] {
        assert!(!written(&state, name));
    }
}

#[test]
fn test_disk_format_for_cdrom() {
    let resource = QemuVmResource::new();
    let mut config = create_test_config();
    config.ide = vec![None, None, text("local:iso/ubuntu-22.04.iso,media=cdrom")];

    let result = resource.extract_vm_config(&config);
    assert!(result.is_ok());

    let (_, _, create_request) = result.ok().unwrap();
    if let Some(ide2) = &create_request.ide2 {
        assert!(!ide2.contains("format=cdrom"));
        assert!(!ide2.contains("format=cloudinit"));
    }
}

#[test]
fn test_disk_format_for_cloud_init() {
    let resource = QemuVmResource::new();
    let mut config = create_test_config();
    config.ide = vec![None, None, text("local-lvm:cloudinit")];

    let result = resource.extract_vm_config(&config);
    assert!(result.is_ok());

    let (_, _, create_request) = result.ok().unwrap();
    if let Some(ide2) = &create_request.ide2 {
        assert!(!ide2.contains("format="));
    }
}

#[test]
fn test_efidisk_format_for_lvm() {
    let resource = QemuVmResource::new();
    let config = create_test_config_with_efidisk();

    let result = resource.extract_vm_config(&config);
    assert!(result.is_ok());

    let (_, _, create_request) = result.ok().unwrap();
    if let Some(efidisk0) = &create_request.efidisk0 {
        assert!(!efidisk0.contains("format="));
    }
}

#[test]
fn test_populate_state_after_create_with_nested_blocks() {
    let mut state: Vec<StateWrite> = Vec::new();

    let mut vm_config = blank_qemu();
    vm_config.name = Some("test-vm".to_string());
    vm_config.cores = Some(2);
    vm_config.memory = Some(2048);
    vm_config.net0 = Some("virtio=BA:88:CB:76:75:D6,bridge=vmbr0,firewall=1,tag=100".to_string());
    vm_config.scsi0 = Some("local-lvm:vm-100-disk-0,size=10G".to_string());

    let mut planned_state = create_test_config_with_network_blocks();
    planned_state.cpu = text("x86-64-v2-AES");
    planned_state.bios = text("seabios");
    planned_state.onboot = flag(false);
    planned_state.tablet = flag(true);

    QemuVmResource::populate_state_with_nested_blocks(&mut state, &vm_config, &planned_state);

    assert_eq!(final_text(&state, "name").unwrap(), "test-vm");
    assert_eq!(final_whole(&state, "cores").unwrap() as f64, 2.0);
    assert_eq!(final_whole(&state, "memory").unwrap() as f64, 2048.0);
    assert_eq!(final_whole(&state, "sockets").unwrap() as f64, 1.0);
    assert_eq!(final_text(&state, "cpu").unwrap(), "x86-64-v2-AES");
    assert_eq!(final_text(&state, "bios").unwrap(), "seabios");
    assert_eq!(final_flag(&state, "onboot").unwrap(), false);
    assert_eq!(final_flag(&state, "tablet").unwrap(), true);

    match state.iter().rev().find(|w| w.name == "network").map(|w| &w.value) {
        Some(StateValue::Networks(networks)) => assert_eq!(networks.len(), 1),
        _ => panic!("Expected network blocks"),
    }
    assert!(!written(&state, "disk"));
}
