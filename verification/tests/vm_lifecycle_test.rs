use proxmox::api::common::TaskId;
use proxmox::api::client::{handle_error_response, AttemptOutcome, ClientSettings, RetryAction, RetryConfig, RetryState};
use proxmox::api::error::ApiError;
use proxmox::api::nodes::qemu::{QemuConfig, QemuStatus, QemuVmInfo};
use proxmox::provider::ProxmoxProviderData;
use proxmox::resources::nodes::vm_lifecycle::{CreateStep, DeleteAction, ProviderDataArg, ReadState, ReadStep, UpdateState, UpdateStep};
use proxmox::values::Severity;
use proxmox::number::Number;
use proxmox::resources::nodes::disk::{CdromBlock, CloudInitDriveBlock, DiskBlock, EfiDiskBlock, SerialBlock};
use proxmox::resources::nodes::network::NetworkBlock;
use proxmox::resources::nodes::resource_vm::QemuVmResource;
use proxmox::resources::nodes::vm_config::{CloudInitPlan, VmConfig};
use proxmox::resources::nodes::vm_state::{StateValue, StateWrite};
use proxmox::values::AttrValue;

fn num(x: f64) -> Number {
    Number { bits: x.to_bits(), text: format!("{}", x) }
}

fn text(s: &str) -> Option<AttrValue> {
    Some(AttrValue::Text(s.to_string()))
}

fn number(x: f64) -> Option<AttrValue> {
    Some(AttrValue::Number(num(x)))
}

fn flag(b: bool) -> Option<AttrValue> {
    Some(AttrValue::Bool(b))
}

fn blank_config() -> VmConfig {
    VmConfig {
        target_node: None,
        vmid: None,
        name: None,
        tags: None,
        clone: None,
        full_clone: None,
        os_type: None,
        bios: None,
        machine: None,
        cpu_type: None,
        cpu: None,
        cores: None,
        sockets: None,
        vcpus: None,
        memory: None,
        balloon: None,
        boot: None,
        bootdisk: None,
        onboot: None,
        scsihw: None,
        agent: None,
        qemu_os: None,
        ostype: None,
        ciuser: None,
        cipassword: None,
        ciupgrade: None,
        sshkeys: None,
        start: None,
        tablet: None,
        protection: None,
        description: None,
        efidisk0: None,
        additional_wait: None,
        scsi: Vec::new(),
        sata: Vec::new(),
        ide: Vec::new(),
        virtio: Vec::new(),
        net: Vec::new(),
        ipconfig: Vec::new(),
        network: None,
        disk: None,
        cdrom: None,
        cloudinit_drive: None,
        serial: None,
        efidisk: None,
        cloudinit: None,
    }
}

fn blank_qemu() -> QemuConfig {
    QemuConfig {
        acpi: None,
        agent: None,
        args: None,
        autostart: None,
        balloon: None,
        bios: None,
        boot: None,
        bootdisk: None,
        cdrom: None,
        cores: None,
        cpu: None,
        cpulimit: None,
        cpuunits: None,
        description: None,
        digest: None,
        efidisk0: None,
        freeze: None,
        hookscript: None,
        hotplug: None,
        hugepages: None,
        ide0: None,
        ide1: None,
        ide2: None,
        ide3: None,
        kvm: None,
        localtime: None,
        lock: None,
        machine: None,
        memory: None,
        migrate_downtime: None,
        migrate_speed: None,
        name: None,
        nameserver: None,
        net0: None,
        net1: None,
        net2: None,
        net3: None,
        numa: None,
        numa0: None,
        numa1: None,
        onboot: None,
        ostype: None,
        protection: None,
        reboot: None,
        sata0: None,
        sata1: None,
        sata2: None,
        sata3: None,
        sata4: None,
        sata5: None,
        scsi0: None,
        scsi1: None,
        scsi2: None,
        scsi3: None,
        scsi4: None,
        scsi5: None,
        scsi6: None,
        scsi7: None,
        scsihw: None,
        searchdomain: None,
        serial0: None,
        serial1: None,
        serial2: None,
        serial3: None,
        shares: None,
        smbios1: None,
        smp: None,
        sockets: None,
        startup: None,
        startdate: None,
        tablet: None,
        tags: None,
        template: None,
        unused0: None,
        unused1: None,
        unused2: None,
        unused3: None,
        usb0: None,
        usb1: None,
        usb2: None,
        usb3: None,
        vcpus: None,
        vga: None,
        virtio0: None,
        virtio1: None,
        virtio2: None,
        virtio3: None,
        virtio4: None,
        virtio5: None,
        virtio6: None,
        virtio7: None,
        virtio8: None,
        virtio9: None,
        virtio10: None,
        virtio11: None,
        virtio12: None,
        virtio13: None,
        virtio14: None,
        virtio15: None,
        vmgenid: None,
        vmstatestorage: None,
        watchdog: None,
    }
}

fn network_block(id: f64, model: &str, bridge: &str) -> NetworkBlock {
    NetworkBlock {
        id: Some(num(id)),
        model: Some(model.to_string()),
        bridge: Some(bridge.to_string()),
        firewall: None,
        tag: None,
        macaddr: None,
        rate: None,
        queues: None,
        link_down: None,
        mtu: None,
    }
}

fn disk_block(slot: &str, storage: &str, size: &str, format: &str) -> DiskBlock {
    DiskBlock {
        slot: Some(slot.to_string()),
        storage: Some(storage.to_string()),
        size: Some(size.to_string()),
        format: Some(format.to_string()),
        iothread: None,
        emulatessd: None,
        discard: None,
        backup: None,
        replicate: None,
        readonly: None,
        iops_r_burst: None,
        iops_r_concurrent: None,
        iops_wr_burst: None,
        iops_wr_concurrent: None,
        mbps_r_burst: None,
        mbps_r_concurrent: None,
        mbps_wr_burst: None,
        mbps_wr_concurrent: None,
    }
}

fn efidisk_block() -> EfiDiskBlock {
    EfiDiskBlock { storage: text("local-lvm"), efitype: text("4m"), format: None, pre_enrolled_keys: None }
}

fn create_test_config() -> VmConfig {
    let mut c = blank_config();
    c.target_node = text("pve");
    c.vmid = number(100.0);
    c.name = text("test-vm");
    c.memory = number(2048.0);
    c.cores = number(2.0);
    c.sockets = number(1.0);
    c
}

fn create_test_config_with_network_blocks() -> VmConfig {
    let mut c = create_test_config();
    let mut net0 = network_block(0.0, "virtio", "vmbr0");
    net0.firewall = Some(true);
    net0.tag = Some(100);
    let mut net1 = network_block(1.0, "e1000", "vmbr1");
    net1.firewall = Some(false);
    net1.tag = Some(200);
    c.network = Some(vec![Some(net0), Some(net1)]);
    c
}

fn create_test_config_with_disk_blocks() -> VmConfig {
    let mut c = create_test_config();
    let mut disk0 = disk_block("scsi0", "local-lvm", "10G", "raw");
    disk0.iothread = Some(true);
    disk0.emulatessd = Some(true);
    disk0.discard = Some(true);
    let disk1 = disk_block("virtio0", "local-lvm", "20G", "qcow2");
    c.disk = Some(vec![Some(disk0), Some(disk1)]);
    c
}

fn create_test_config_with_efidisk() -> VmConfig {
    let mut c = create_test_config();
    c.bios = text("ovmf");
    c.efidisk = Some(vec![Some(efidisk_block())]);
    c
}

fn create_test_config_with_cloudinit() -> VmConfig {
    let mut c = create_test_config();
    c.cloudinit = Some(CloudInitPlan {
        user: text("ubuntu"),
        password: text("secret123"),
        ssh_keys: text("ssh-rsa AAAAB3NzaC1..."),
        has_ipconfig: true,
    });
    c
}

fn create_test_config_with_advanced_features() -> VmConfig {
    let mut c = blank_config();
    c.vmid = number(100.0);
    c.name = text("test-vm");
    c.target_node = text("pve");
    c.tags = text("production,web");
    c.clone = text("template-ubuntu");
    c.full_clone = flag(false);
    c.os_type = text("cloud-init");
    c.bios = text("ovmf");
    c.machine = text("q35");
    c.cpu_type = text("x86-64-v2-AES");
    c.cores = number(2.0);
    c.sockets = number(1.0);
    c.vcpus = number(2.0);
    c.memory = number(4096.0);
    c.balloon = number(2048.0);
    c.boot = text("c");
    c.bootdisk = text("scsi0");
    c.onboot = flag(true);
    c.scsihw = text("virtio-scsi-pci");
    c.agent = number(1.0);
    c.qemu_os = text("l26");
    c.ipconfig = vec![text("ip=dhcp")];
    c.ciuser = text("ubuntu");
    c.cipassword = text("password123");
    c.ciupgrade = flag(true);
    c.sshkeys = text("ssh-rsa AAAAB3NzaC1...");
    c.additional_wait = number(15.0);
    let mut disk0 = disk_block("scsi0", "local-lvm", "20G", "raw");
    disk0.discard = Some(true);
    disk0.emulatessd = Some(true);
    disk0.iothread = Some(true);
    c.disk = Some(vec![Some(disk0)]);
    c.cdrom = Some(vec![Some(CdromBlock {
        slot: Some("ide2".to_string()),
        iso: Some("local:iso/ubuntu-24.04.iso".to_string()),
    })]);
    c.cloudinit_drive = Some(vec![Some(CloudInitDriveBlock {
        slot: Some("ide3".to_string()),
        storage: Some("local-lvm".to_string()),
    })]);
    c.serial = Some(vec![Some(SerialBlock { id: Some(num(0.0)), kind: Some("socket".to_string()) })]);
    c.efidisk = Some(vec![Some(efidisk_block())]);
    c
}

/// The final text of each attribute after the writes, as a state would hold it.
fn final_text(writes: &[StateWrite], name: &str) -> Option<String> {
    let mut r = None;
    for w in writes {
        if w.name == name {
            r = match &w.value {
                StateValue::Text(s) => Some(s.clone()),
                _ => None,
            };
        }
    }
    r
}

fn final_whole(writes: &[StateWrite], name: &str) -> Option<u64> {
    let mut r = None;
    for w in writes {
        if w.name == name {
            r = match &w.value {
                StateValue::Whole(n) => Some(*n),
                _ => None,
            };
        }
    }
    r
}

fn final_flag(writes: &[StateWrite], name: &str) -> Option<bool> {
    let mut r = None;
    for w in writes {
        if w.name == name {
            r = match &w.value {
                StateValue::Flag(b) => Some(*b),
                _ => None,
            };
        }
    }
    r
}

fn written(writes: &[StateWrite], name: &str) -> bool {
    writes.iter().any(|w| w.name == name)
}

fn last_number(texts: &[String]) -> Option<f64> {
    texts.iter().rev().find_map(|t| t.parse::<f64>().ok())
}


fn configured() -> QemuVmResource {
    let mut r = QemuVmResource::new();
    let d = r.configure(ProviderDataArg::Proxmox(ProxmoxProviderData::new(ClientSettings::new(
        "https://pve:8006",
        "root@pam!t=s",
        false,
        RetryConfig::default(),
    ))));
    assert!(d.is_empty());
    r
}

fn vm_info(vmid: u32) -> QemuVmInfo {
    QemuVmInfo {
        vmid,
        name: None,
        status: "stopped".to_string(),
        cpu: None,
        cpus: None,
        maxdisk: None,
        maxmem: None,
        mem: None,
        netin: None,
        netout: None,
        disk: None,
        diskread: None,
        diskwrite: None,
        pid: None,
        qmpstatus: None,
        tags: None,
        uptime: None,
    }
}

fn vm_status(status: &str) -> QemuStatus {
    QemuStatus {
        status: status.to_string(),
        ha: None,
        qmpstatus: None,
        pid: None,
        uptime: None,
        cpu: None,
        cpus: None,
        mem: None,
        maxmem: None,
        disk: None,
        maxdisk: None,
        diskread: None,
        diskwrite: None,
        netin: None,
        netout: None,
        ballooninfo: None,
        running_qemu: None,
        running_machine: None,
        blockstat: None,
        nics: None,
    }
}

#[test]
fn configure_reports_missing_and_foreign_data() {
    let mut r = QemuVmResource::new();
    let d = r.configure(ProviderDataArg::Missing);
    assert_eq!(d[0].summary, "No provider data");
    let d = r.configure(ProviderDataArg::Foreign);
    assert_eq!(d[0].summary, "Invalid provider data");
    assert!(r.provider_data.is_none());
}

#[test]
fn create_needs_configuration_and_identity() {
    let r = QemuVmResource::new();
    match r.create_start(&create_test_config(), &create_test_config()) {
        CreateStep::Finish(o) => {
            assert_eq!(o.diagnostics[0].summary, "Provider not configured");
            assert!(o.writes.is_empty());
        }
        _ => panic!("not configured"),
    }
    let r = configured();
    let mut config = create_test_config();
    config.vmid = None;
    match r.create_start(&config, &create_test_config()) {
        CreateStep::Finish(o) => {
            assert_eq!(o.diagnostics[0].summary, "Missing vmid");
            assert!(o.writes.iter().any(|w| w.name == "efidisk"));
            assert_eq!(final_text(&o.writes, "bios"), Some("seabios".to_string()));
            assert_eq!(final_whole(&o.writes, "memory"), None);
        }
        _ => panic!("expected an error"),
    }
    match r.create_start(&create_test_config(), &create_test_config()) {
        CreateStep::Send { node, vmid, request } => {
            assert_eq!(node, "pve");
            assert_eq!(vmid, 100);
            assert_eq!(request.memory, Some(2048));
        }
        _ => panic!("expected the request"),
    }
}

#[test]
fn create_finish_waits_and_reports() {
    let mut config = create_test_config();
    config.additional_wait = number(2.5);
    let (wait, outcome) = QemuVmResource::create_finish(&config, &create_test_config(), &Ok(TaskId("UPID:x".to_string())));
    assert_eq!(wait, Some(2));
    assert!(outcome.diagnostics.is_empty());
    config.additional_wait = number(0.0);
    let (wait, _) = QemuVmResource::create_finish(&config, &create_test_config(), &Ok(TaskId("UPID:x".to_string())));
    assert_eq!(wait, None);
    let (wait, outcome) = QemuVmResource::create_finish(&config, &create_test_config(), &Err(ApiError::ServiceUnavailable));
    assert_eq!(wait, None);
    assert_eq!(outcome.diagnostics[0].summary, "Failed to create VM");
    assert_eq!(outcome.diagnostics[0].detail, "API error: Service unavailable, retry later");
    assert!(outcome.writes.iter().any(|w| w.name == "target_node"));
}

#[test]
fn read_decides_what_became_of_the_vm() {
    let r = QemuVmResource::new();
    let mut state = create_test_config();
    state.target_node = None;
    match r.read_start(&state) {
        ReadStep::Finish(o) => assert!(matches!(o.new_state, ReadState::Removed)),
        _ => panic!("a state without node is gone"),
    }
    let r = configured();
    match r.read_start(&create_test_config()) {
        ReadStep::FetchConfig { node, vmid } => {
            assert_eq!(node, "pve");
            assert_eq!(vmid, 100);
        }
        _ => panic!("expected a fetch"),
    }
    let not_found = Err(ApiError::ApiError { status: 500, message: "VM 100 not found".to_string(), details: None });
    match QemuVmResource::read_on_config(&create_test_config(), "pve".to_string(), 100, &not_found) {
        ReadStep::Finish(o) => assert!(matches!(o.new_state, ReadState::Removed)),
        _ => panic!("a missing VM is gone"),
    }
    match QemuVmResource::read_on_config(&create_test_config(), "pve".to_string(), 100, &Err(ApiError::ServiceUnavailable)) {
        ReadStep::ListVms { node, vmid } => {
            assert_eq!(node, "pve");
            assert_eq!(vmid, 100);
        }
        _ => panic!("expected a listing"),
    }
    match QemuVmResource::read_on_config(&create_test_config(), "pve".to_string(), 100, &Err(ApiError::AuthError)) {
        ReadStep::Finish(o) => {
            assert!(matches!(o.new_state, ReadState::Current));
            assert_eq!(o.diagnostics[0].detail, "API error: Authentication failed");
        }
        _ => panic!("expected an error"),
    }
    let listed = QemuVmResource::read_on_list(100, &Ok(vec![vm_info(101), vm_info(100)]));
    assert!(matches!(listed.new_state, ReadState::Current));
    assert_eq!(listed.diagnostics[0].detail, "Service temporarily unavailable, please try again");
    let absent = QemuVmResource::read_on_list(100, &Ok(vec![vm_info(101)]));
    assert!(matches!(absent.new_state, ReadState::Removed));
    let failed = QemuVmResource::read_on_list(100, &Err(ApiError::ServiceUnavailable));
    assert_eq!(failed.diagnostics[0].detail, "Service unavailable and unable to verify VM existence");
}

#[test]
fn read_refreshes_tags_and_networks() {
    let mut vm = blank_qemu();
    vm.tags = Some("a;b;c".to_string());
    vm.net0 = Some("virtio=BA:88:CB:76:75:D6,tag=5,bridge=vmbr0".to_string());
    let mut state = create_test_config();
    state.tags = text("a,b,c");
    state.net = vec![text("virtio,bridge=vmbr0,tag=5")];
    match QemuVmResource::read_on_config(&state, "pve".to_string(), 100, &Ok(vm)) {
        ReadStep::Finish(o) => match o.new_state {
            ReadState::Refreshed(w) => {
                assert_eq!(final_text(&w, "tags"), Some("a,b,c".to_string()));
                assert_eq!(final_text(&w, "net0"), Some("virtio,bridge=vmbr0,tag=5".to_string()));
            }
            _ => panic!("expected a refresh"),
        },
        _ => panic!("expected a refresh"),
    }
}

#[test]
fn update_steps() {
    let r = QemuVmResource::new();
    match r.update_start(&create_test_config()) {
        UpdateStep::Finish(o) => assert!(o.new_state == UpdateState::Planned),
        _ => panic!("not configured"),
    }
    let r = configured();
    let mut config = create_test_config();
    config.target_node = None;
    match r.update_start(&config) {
        UpdateStep::MissingAttribute { summary, attribute } => {
            assert_eq!(summary, "Missing node");
            assert_eq!(attribute, "target_node");
        }
        _ => panic!("expected a missing node"),
    }
    let mut config = create_test_config();
    config.scsi = vec![text("local-lvm:10")];
    match r.update_start(&config) {
        UpdateStep::Send { node, vmid, request } => {
            assert_eq!(node, "pve");
            assert_eq!(vmid, 100);
            assert_eq!(request.scsi0, Some("local-lvm:10".to_string()));
        }
        _ => panic!("expected a request"),
    }
    let o = QemuVmResource::update_finish(&Err(ApiError::Timeout(30)));
    assert!(o.new_state == UpdateState::Prior);
    assert_eq!(o.diagnostics[0].detail, "API error: Request timeout after 30 seconds");
}

#[test]
fn delete_stops_a_running_vm_first() {
    let r = configured();
    assert_eq!(r.delete_target(&create_test_config()), Some(("pve".to_string(), 100)));
    assert_eq!(QemuVmResource::new().delete_target(&create_test_config()), None);
    let (next, d) = QemuVmResource::delete_on_status(&Ok(vm_status("running")));
    assert!(matches!(next, DeleteAction::Stop) && d.is_empty());
    let (next, _) = QemuVmResource::delete_on_status(&Ok(vm_status("stopped")));
    assert!(matches!(next, DeleteAction::Delete { wait_secs: None, purge: false }));
    let (next, d) = QemuVmResource::delete_on_status(&Err(ApiError::AuthError));
    assert!(matches!(next, DeleteAction::Delete { wait_secs: None, purge: false }));
    assert!(d[0].severity == Severity::Warning);
    assert_eq!(d[0].detail, "Failed to check if VM is running: Authentication failed. Attempting deletion anyway.");
    let (next, _) = QemuVmResource::delete_on_stop(&Ok(TaskId("UPID".to_string())));
    assert!(matches!(next, DeleteAction::Delete { wait_secs: Some(5), purge: false }));
    let (next, d) = QemuVmResource::delete_on_stop(&Err(ApiError::RateLimited));
    assert!(matches!(next, DeleteAction::Delete { wait_secs: None, purge: false }));
    assert_eq!(d[0].summary, "Failed to stop VM");
    let d = QemuVmResource::delete_on_delete(&Err(ApiError::RateLimited));
    assert_eq!(d[0].summary, "Failed to delete VM");
}

#[test]
fn import_reads_node_and_vmid() {
    let r = configured();
    let (node, vmid) = r.import_target("pve/100").ok().unwrap();
    assert_eq!(node, "pve");
    assert_eq!(vmid, 100);
    assert_eq!(r.import_target("pve").err().unwrap().summary, "Invalid import ID");
    assert_eq!(r.import_target("a/b/c").err().unwrap().summary, "Invalid import ID");
    assert_eq!(r.import_target("pve/abc").err().unwrap().summary, "Invalid VMID");
    assert_eq!(r.import_target("pve/4294967296").err().unwrap().summary, "Invalid VMID");
    assert_eq!(QemuVmResource::new().import_target("pve/100").err().unwrap().summary, "Provider not configured");
    let d = QemuVmResource::import_fetch_error(100, &ApiError::AuthError);
    assert_eq!(d.detail, "Error fetching VM 100: Authentication failed");
    let mut vm = blank_qemu();
    vm.name = Some("web".to_string());
    vm.cores = Some(4);
    let w = QemuVmResource::import_state_writes("pve", 100, &vm);
    assert_eq!(final_text(&w, "target_node"), Some("pve".to_string()));
    assert_eq!(final_whole(&w, "vmid"), Some(100));
    assert_eq!(final_whole(&w, "cores"), Some(4));
    assert_eq!(final_text(&w, "name"), Some("web".to_string()));
    assert!(!written(&w, "memory"));
}

#[test]
fn validate_iothread_warnings() {
    let r = QemuVmResource::new();
    let mut config = create_test_config();
    config.scsi = vec![None, text("local-lvm:10,iothread=1")];
    config.sata = vec![text("local-lvm:10,iothread=true")];
    let d = r.validate(&config);
    assert_eq!(d.len(), 2);
    assert_eq!(d[0].summary, "iothread requires virtio-scsi-single");
    assert_eq!(
        d[0].detail,
        "Disk scsi1 has iothread enabled but scsihw is 'lsi'. iothread is only valid with scsihw='virtio-scsi-single'"
    );
    assert_eq!(d[1].summary, "iothread not supported for SATA");
    config.scsihw = text("virtio-scsi-single");
    config.sata = Vec::new();
    assert!(r.validate(&config).is_empty());
}

#[test]
fn validate_ovmf_without_efidisk_warns() {
    let r = QemuVmResource::new();
    let mut config = create_test_config();
    config.bios = text("ovmf");
    let d = r.validate(&config);
    assert_eq!(d.len(), 1);
    assert!(d[0].severity == Severity::Warning);
    assert_eq!(d[0].summary, "OVMF requires EFI disk");
    config.efidisk0 = text("local-lvm:1,format=qcow2");
    assert!(r.validate(&config).is_empty());
    config.vmid = number(1e12);
    config.cores = number(f64::NAN);
    config.sockets = number(4.5);
    let d = r.validate(&config);
    assert_eq!(d.len(), 3);
    assert_eq!(d[0].summary, "Invalid VMID");
    assert_eq!(d[1].summary, "Invalid cores");
    assert_eq!(d[2].summary, "Invalid sockets");
}

#[test]
fn create_request_carries_every_setting() {
    let r = QemuVmResource::new();
    let (_, _, req) = r.extract_vm_config(&create_test_config_with_advanced_features()).ok().unwrap();
    assert_eq!(req.clone, Some("template-ubuntu".to_string()));
    assert_eq!(req.full, Some(false));
    assert_eq!(req.ostype, Some("l26".to_string()));
    assert_eq!(req.agent, Some("1".to_string()));
    assert_eq!(req.cpu, Some("x86-64-v2-AES".to_string()));
    assert_eq!(req.balloon, Some(2048));
    assert_eq!(req.vcpus, Some(2));
    assert_eq!(req.ipconfig0, Some("ip=dhcp".to_string()));
    assert_eq!(req.ide2, Some("local:iso/ubuntu-24.04.iso,media=cdrom".to_string()));
    assert_eq!(req.ide3, Some("local-lvm:cloudinit".to_string()));
    assert_eq!(req.serial0, Some("socket".to_string()));
    assert_eq!(req.efidisk0, Some("local-lvm:1,efitype=4m".to_string()));
    assert_eq!(req.scsi0, Some("local-lvm:20,format=raw,iothread=1,ssd=1,discard=on".to_string()));
    assert_eq!(req.ciupgrade, Some(true));
    assert_eq!(req.acpi, None);
    let mut config = create_test_config();
    config.target_node = None;
    assert_eq!(r.extract_vm_config(&config).err().unwrap().summary, "Missing target_node");
}

#[test]
fn create_and_update_agree_on_networks() {
    let r = QemuVmResource::new();
    let config = create_test_config_with_network_blocks();
    let (_, _, create) = r.extract_vm_config(&config).ok().unwrap();
    let update = r.build_update_request(&config).ok().unwrap();
    assert_eq!(create.net0, update.net0);
    assert_eq!(create.net1, update.net1);
}

#[test]
fn normalizing_tags_twice_changes_nothing() {
    let once = QemuVmResource::normalize_tags("a;b,c;");
    assert_eq!(once, "a,b,c,");
    assert_eq!(QemuVmResource::normalize_tags(&once), once);
}

#[test]
fn normalizing_a_disk_twice_changes_nothing() {
    let current = Some("local-lvm:10,format=raw");
    let once = QemuVmResource::normalize_disk_config("local-lvm:vm-100-disk-0,size=10G", current);
    assert_eq!(once, "local-lvm:10,format=raw");
    assert_eq!(QemuVmResource::normalize_disk_config(&once, current), once);
}

#[test]
fn normalizing_a_network_twice_changes_nothing() {
    let once = QemuVmResource::normalize_network_config("virtio=BA:88:CB:76:75:D6,tag=100,bridge=vmbr0", None);
    assert_eq!(once, "virtio,bridge=vmbr0,tag=100");
    assert_eq!(QemuVmResource::normalize_network_config(&once, None), once);
}

#[test]
fn failed_create_state_covers_the_schema() {
    let r = QemuVmResource::new();
    let planned = create_test_config();
    let mut writes = Vec::new();
    QemuVmResource::populate_all_attributes(&mut writes, &planned);
    let schema = r.schema();
    for a in &schema.attributes {
        assert!(written(&writes, &a.name), "{} is missing", a.name);
    }
    for b in &schema.blocks {
        assert!(written(&writes, &b.block_name), "{} is missing", b.block_name);
    }
}

#[test]
fn nested_efidisk_merges_vm_plan_and_defaults() {
    let mut vm = blank_qemu();
    vm.efidisk0 = Some("local-lvm:vm-100-disk-1,efitype=2m,pre-enrolled-keys=1,size=4M".to_string());
    let mut planned = create_test_config();
    planned.efidisk = Some(vec![Some(EfiDiskBlock { storage: None, efitype: text("4m"), format: text("qcow2"), pre_enrolled_keys: None })]);
    let mut w = Vec::new();
    QemuVmResource::populate_state_with_nested_blocks(&mut w, &vm, &planned);
    match w.iter().rev().find(|x| x.name == "efidisk").map(|x| &x.value) {
        Some(StateValue::EfiDisk(e)) => {
            assert!(matches!(&e.storage, AttrValue::Text(s) if s == "local-lvm"));
            assert!(matches!(&e.efitype, AttrValue::Text(s) if s == "2m"));
            assert!(matches!(&e.format, AttrValue::Text(s) if s == "qcow2"));
            assert!(matches!(&e.pre_enrolled_keys, AttrValue::Bool(true)));
        }
        _ => panic!("expected the efidisk block"),
    }
}

/// What the client makes of a server that answers every attempt with
/// `status` and `body`.
fn outcome_of(status: u16, body: &str) -> Result<(), ApiError> {
    let config = RetryConfig::default();
    let (mut state, _) = RetryState::start();
    loop {
        match state.on_outcome(&config, AttemptOutcome::Response { status }) {
            RetryAction::Send { .. } => {}
            RetryAction::ParseSuccess => return Ok(()),
            RetryAction::HandleErrorResponse => {
                return Err(handle_error_response(status, Some(body.to_string()), None))
            }
            RetryAction::Fail(e) => return Err(e),
        }
    }
}

fn create_task() -> TaskId {
    TaskId("UPID:pve:00001234:00000000:5F000000:qmcreate:100:root@pam:".to_string())
}

fn created_request(resource: &QemuVmResource, config: &VmConfig) -> proxmox::api::nodes::qemu::CreateQemuRequest {
    match resource.create_start(config, config) {
        CreateStep::Send { node, vmid, request } => {
            assert_eq!(node, "pve");
            assert_eq!(vmid, 100);
            request
        }
        CreateStep::Finish(o) => panic!("expected a create request, got {} diagnostics", o.diagnostics.len()),
    }
}

fn assert_create_keeps_plan(config: &VmConfig) {
    let (wait, outcome) = QemuVmResource::create_finish(config, config, &Ok(create_task()));
    assert!(wait.is_none());
    assert!(outcome.diagnostics.is_empty());
    assert!(outcome.writes.is_empty());
}

fn refreshed(current: &VmConfig, vm: QemuConfig) -> Vec<StateWrite> {
    let resource = configured();
    let (node, vmid) = match resource.read_start(current) {
        ReadStep::FetchConfig { node, vmid } => (node, vmid),
        _ => panic!("expected a fetch"),
    };
    assert_eq!(node, "pve");
    assert_eq!(vmid, 100);
    match QemuVmResource::read_on_config(current, node, vmid, &Ok(vm)) {
        ReadStep::Finish(o) => {
            assert!(o.diagnostics.is_empty());
            match o.new_state {
                ReadState::Refreshed(w) => w,
                _ => panic!("expected a refreshed state"),
            }
        }
        _ => panic!("expected the read to finish"),
    }
}

#[test]
fn test_resource_metadata() {
    let resource = QemuVmResource::new();
    assert_eq!(resource.resource_type_name(), "proxmox_qemu_vm");
}

#[test]
fn test_resource_schema() {
    let schema = QemuVmResource::new().schema();
    assert_eq!(schema.version, 0);
    let attrs = &schema.attributes;
    assert!(attrs.iter().any(|a| a.name == "target_node" && a.required));
    assert!(attrs.iter().any(|a| a.name == "vmid" && a.required));
    assert!(attrs.iter().any(|a| a.name == "name" && a.required));
    assert!(attrs.iter().any(|a| a.name == "cores" && !a.required));
    assert!(attrs.iter().any(|a| a.name == "memory" && !a.required));
    assert!(attrs.iter().any(|a| a.name == "cipassword" && a.sensitive));
}

#[test]
fn test_create_without_provider_data() {
    let resource = QemuVmResource::new();
    let config = create_test_config();
    match resource.create_start(&config, &config) {
        CreateStep::Finish(o) => {
            assert_eq!(o.diagnostics.len(), 1);
            assert!(o.diagnostics[0].summary.contains("Provider not configured"));
        }
        _ => panic!("an unconfigured resource sends nothing"),
    }
}

#[test]
fn test_create_successful() {
    let config = create_test_config();
    let request = created_request(&configured(), &config);
    assert_eq!(request.vmid, 100);
    assert_eq!(request.name.as_deref(), Some("test-vm"));
    assert_eq!(request.memory, Some(2048));
    assert_eq!(request.cores, Some(2));
    assert_eq!(request.sockets, Some(1));
    assert!(request.bios.is_none() && request.scsihw.is_none() && request.net0.is_none());
    assert!(request.scsi0.is_none() && request.start.is_none() && request.agent.is_none());
    assert!(outcome_of(200, r#"{"data": "UPID:pve:00001234:00000000:5F000000:qmcreate:100:root@pam:"}"#).is_ok());
    assert_create_keeps_plan(&config);
}

#[test]
fn test_read_without_provider_data() {
    let resource = QemuVmResource::new();
    match resource.read_start(&create_test_config()) {
        ReadStep::Finish(o) => {
            assert_eq!(o.diagnostics.len(), 1);
            assert!(o.diagnostics[0].summary.contains("Provider not configured"));
        }
        _ => panic!("an unconfigured resource fetches nothing"),
    }
}

#[test]
fn test_read_successful() {
    let mut vm = blank_qemu();
    vm.name = Some("test-vm-updated".to_string());
    vm.cores = Some(4);
    vm.memory = Some(4096);
    vm.sockets = Some(2);
    vm.cpu = Some("host".to_string());
    vm.ostype = Some("l26".to_string());
    let w = refreshed(&create_test_config(), vm);
    assert_eq!(final_text(&w, "name").as_deref(), Some("test-vm-updated"));
    assert_eq!(final_whole(&w, "cores"), Some(4));
    assert_eq!(final_whole(&w, "memory"), Some(4096));
    assert_eq!(final_whole(&w, "sockets"), Some(2));
}

#[test]
fn test_read_vm_not_found() {
    let body = r#"{"data": null, "errors": {"vmid": "VM 100 not found"}}"#;
    let result = outcome_of(404, body).map(|_| blank_qemu());
    let step = QemuVmResource::read_on_config(&create_test_config(), "pve".to_string(), 100, &result);
    match step {
        ReadStep::Finish(o) => assert!(matches!(o.new_state, ReadState::Removed)),
        _ => panic!("a missing VM leaves the state"),
    }
}

#[test]
fn test_read_normalizes_tags() {
    let mut current = create_test_config();
    current.tags = text("web,production");
    let mut vm = blank_qemu();
    vm.name = Some("test-vm".to_string());
    vm.cores = Some(2);
    vm.sockets = Some(1);
    vm.memory = Some(2048);
    vm.tags = Some("web;production;test".to_string());
    let w = refreshed(&current, vm);
    assert_eq!(final_text(&w, "tags").as_deref(), Some("web,production,test"));
}

#[test]
fn test_read_preserves_boot_order() {
    let mut vm = blank_qemu();
    vm.name = Some("test-vm".to_string());
    vm.cores = Some(2);
    vm.sockets = Some(1);
    vm.memory = Some(2048);
    vm.boot = Some("order=scsi0;ide2;net0".to_string());
    let w = refreshed(&create_test_config(), vm);
    assert!(!written(&w, "boot"));
}

#[test]
fn test_read_normalizes_network_macs() {
    let mut vm = blank_qemu();
    vm.name = Some("test-vm".to_string());
    vm.cores = Some(2);
    vm.sockets = Some(1);
    vm.memory = Some(2048);
    vm.net0 = Some("virtio=BA:88:CB:76:75:D6,bridge=vmbr0,firewall=0,tag=30".to_string());
    let w = refreshed(&create_test_config(), vm);
    assert_eq!(final_text(&w, "net0").as_deref(), Some("virtio,bridge=vmbr0,firewall=0,tag=30"));
}

#[test]
fn test_update_successful() {
    let mut config = create_test_config();
    config.memory = number(4096.0);
    config.cores = number(4.0);
    match configured().update_start(&config) {
        UpdateStep::Send { node, vmid, request } => {
            assert_eq!(node, "pve");
            assert_eq!(vmid, 100);
            assert_eq!(request.name.as_deref(), Some("test-vm"));
            assert_eq!(request.memory, Some(4096));
            assert_eq!(request.cores, Some(4));
            assert_eq!(request.sockets, Some(1));
            assert!(request.net0.is_none() && request.scsi0.is_none() && request.delete.is_none());
        }
        _ => panic!("expected an update request"),
    }
    let outcome = QemuVmResource::update_finish(&outcome_of(200, r#"{"data": null}"#));
    assert!(outcome.diagnostics.is_empty());
    assert!(outcome.new_state == UpdateState::Planned);
}

#[test]
fn test_delete_successful() {
    let resource = configured();
    let (node, vmid) = resource.delete_target(&create_test_config()).expect("a VM to delete");
    assert_eq!((node.as_str(), vmid), ("pve", 100));
    let (next, d) = QemuVmResource::delete_on_status(&Ok(vm_status("stopped")));
    assert!(matches!(next, DeleteAction::Delete { wait_secs: None, purge: false }) && d.is_empty());
    let d = QemuVmResource::delete_on_delete(&Ok(TaskId(
        "UPID:pve:00001234:00000000:5F000000:qmdestroy:100:root@pam:".to_string(),
    )));
    assert!(d.is_empty());
}

#[test]
fn test_delete_running_vm() {
    let resource = configured();
    assert!(resource.delete_target(&create_test_config()).is_some());
    let (next, d) = QemuVmResource::delete_on_status(&Ok(vm_status("running")));
    assert!(matches!(next, DeleteAction::Stop) && d.is_empty());
    let (next, d) = QemuVmResource::delete_on_stop(&Ok(TaskId(
        "UPID:pve:00001234:00000000:5F000000:qmstop:100:root@pam:".to_string(),
    )));
    assert!(matches!(next, DeleteAction::Delete { wait_secs: Some(5), purge: false }));
    assert!(d.is_empty());
    let d = QemuVmResource::delete_on_delete(&Ok(TaskId(
        "UPID:pve:00001234:00000000:5F000000:qmdestroy:100:root@pam:".to_string(),
    )));
    assert!(d.is_empty());
}

#[test]
fn test_import_state() {
    let resource = configured();
    let (node, vmid) = match resource.import_target("pve/100") {
        Ok(t) => t,
        Err(_) => panic!("a valid import id"),
    };
    let mut vm = blank_qemu();
    vm.name = Some("imported-vm".to_string());
    vm.cores = Some(2);
    vm.memory = Some(2048);
    vm.sockets = Some(1);
    let w = QemuVmResource::import_state_writes(&node, vmid, &vm);
    assert_eq!(resource.resource_type_name(), "proxmox_qemu_vm");
    assert_eq!(final_text(&w, "target_node").as_deref(), Some("pve"));
    assert_eq!(final_whole(&w, "vmid"), Some(100));
    assert_eq!(final_text(&w, "name").as_deref(), Some("imported-vm"));
}

#[test]
fn test_import_state_invalid_id() {
    let resource = QemuVmResource::new();
    match resource.import_target("invalid-format") {
        Err(d) => assert!(d.summary.contains("Invalid import ID")),
        Ok(_) => panic!("the id is not node/vmid"),
    }
}

#[test]
fn test_configure_resource() {
    let mut resource = QemuVmResource::new();
    let d = resource.configure(ProviderDataArg::Proxmox(ProxmoxProviderData::new(ClientSettings::new(
        "http://127.0.0.1:8006",
        "test@pam!test=secret",
        true,
        RetryConfig::default(),
    ))));
    assert!(d.is_empty());
}

#[test]
fn test_create_populates_network_interfaces() {
    let mut config = create_test_config();
    config.net = vec![text("virtio,bridge=vmbr0,firewall=1")];
    let request = created_request(&configured(), &config);
    assert_eq!(request.net0.as_deref(), Some("virtio,bridge=vmbr0,firewall=1"));
    assert_create_keeps_plan(&config);
    assert_eq!(proxmox::values::text_at(&config.net, 0).as_deref(), Some("virtio,bridge=vmbr0,firewall=1"));
}

#[test]
fn test_create_vm_with_network_blocks() {
    let mut config = create_test_config();
    let mut net0 = network_block(0.0, "virtio", "vmbr0");
    net0.firewall = Some(true);
    net0.tag = Some(10);
    let mut net1 = network_block(1.0, "e1000", "vmbr1");
    net1.firewall = Some(false);
    config.network = Some(vec![Some(net0), Some(net1)]);
    let request = created_request(&configured(), &config);
    assert_eq!(request.net0.as_deref(), Some("virtio,bridge=vmbr0,firewall=1,tag=10"));
    assert_eq!(request.net1.as_deref(), Some("e1000,bridge=vmbr1,firewall=0"));
    assert!(request.net2.is_none() && request.scsi0.is_none());
    assert_create_keeps_plan(&config);
    assert_eq!(config.network.as_ref().map(|n| n.len()), Some(2));
}

#[test]
fn test_create_vm_with_disk_blocks() {
    let mut config = create_test_config();
    config.scsihw = text("virtio-scsi-single");
    let mut disk0 = disk_block("scsi0", "local-lvm", "10G", "raw");
    disk0.iothread = Some(true);
    disk0.emulatessd = Some(true);
    let disk1 = disk_block("scsi1", "local-lvm", "20G", "qcow2");
    let mut disk2 = disk_block("virtio0", "local-lvm", "30G", "raw");
    disk2.format = None;
    disk2.discard = Some(true);
    config.disk = Some(vec![Some(disk0), Some(disk1), Some(disk2)]);
    config.cloudinit_drive = Some(vec![Some(CloudInitDriveBlock {
        slot: Some("ide3".to_string()),
        storage: Some("local".to_string()),
    })]);
    let request = created_request(&configured(), &config);
    assert_eq!(request.scsihw.as_deref(), Some("virtio-scsi-single"));
    assert_eq!(request.scsi0.as_deref(), Some("local-lvm:10,format=raw,iothread=1,ssd=1"));
    assert_eq!(request.scsi1.as_deref(), Some("local-lvm:20,format=qcow2"));
    assert_eq!(request.virtio0.as_deref(), Some("local-lvm:30,discard=on"));
    assert_eq!(request.ide3.as_deref(), Some("local:cloudinit"));
    assert_create_keeps_plan(&config);
    assert_eq!(config.disk.as_ref().map(|d| d.len()), Some(3));
}

#[test]
fn test_create_vm_with_efidisk_block() {
    let mut config = create_test_config();
    config.bios = text("ovmf");
    config.efidisk = Some(vec![Some(efidisk_block())]);
    let request = created_request(&configured(), &config);
    assert_eq!(request.bios.as_deref(), Some("ovmf"));
    assert_eq!(request.efidisk0.as_deref(), Some("local-lvm:1,efitype=4m"));
    assert_create_keeps_plan(&config);
}

#[test]
fn test_update_vm_with_nested_blocks() {
    let mut config = create_test_config();
    config.memory = number(4096.0);
    config.cores = number(4.0);
    config.scsihw = text("virtio-scsi-single");
    let mut net0 = network_block(0.0, "virtio", "vmbr0");
    net0.firewall = Some(true);
    net0.tag = Some(20);
    config.network = Some(vec![Some(net0)]);
    let mut disk0 = disk_block("scsi0", "local-lvm", "20G", "raw");
    disk0.iothread = Some(true);
    config.disk = Some(vec![Some(disk0)]);
    match configured().update_start(&config) {
        UpdateStep::Send { request, .. } => {
            assert_eq!(request.name.as_deref(), Some("test-vm"));
            assert_eq!(request.memory, Some(4096));
            assert_eq!(request.cores, Some(4));
            assert_eq!(request.sockets, Some(1));
            assert_eq!(request.scsihw.as_deref(), Some("virtio-scsi-single"));
            assert_eq!(request.net0.as_deref(), Some("virtio,bridge=vmbr0,firewall=1,tag=20"));
            assert_eq!(request.scsi0.as_deref(), Some("local-lvm:20,format=raw,iothread=1"));
        }
        _ => panic!("expected an update request"),
    }
    let outcome = QemuVmResource::update_finish(&outcome_of(200, r#"{"data": null}"#));
    assert!(outcome.diagnostics.is_empty());
}

#[test]
fn test_read_vm_with_nested_blocks() {
    let mut current = create_test_config();
    let mut net0 = network_block(0.0, "virtio", "vmbr0");
    net0.firewall = Some(true);
    net0.tag = Some(10);
    let net1 = network_block(1.0, "e1000", "vmbr1");
    current.network = Some(vec![Some(net0), Some(net1)]);
    let mut vm = blank_qemu();
    vm.name = Some("test-vm".to_string());
    vm.cores = Some(4);
    vm.memory = Some(4096);
    vm.sockets = Some(2);
    vm.net0 = Some("virtio=BC:24:11:AA:BB:CC,bridge=vmbr0,firewall=1,tag=10".to_string());
    vm.net1 = Some("e1000=DE:AD:BE:EF:00:01,bridge=vmbr1".to_string());
    vm.scsi0 = Some("local-lvm:vm-100-disk-0,format=raw,iothread=1,size=10G,ssd=1".to_string());
    vm.virtio0 = Some("local-lvm:vm-100-disk-1,discard=on,size=20G".to_string());
    vm.efidisk0 = Some("local-lvm:vm-100-disk-2,efitype=4m,format=qcow2,size=1M".to_string());
    let w = refreshed(&current, vm);
    let networks = w
        .iter()
        .rev()
        .find_map(|x| match (&x.name[..], &x.value) {
            ("network", StateValue::Networks(ns)) => Some(ns),
            _ => None,
        })
        .expect("the network blocks are written");
    assert_eq!(networks.len(), 2);
    assert_eq!(networks[0].model, "virtio");
    assert_eq!(networks[0].bridge.as_deref(), Some("vmbr0"));
    assert_eq!(networks[0].firewall, Some(true));
    assert_eq!(last_number(&networks[0].tag), Some(10.0));
}

#[test]
fn test_mixed_blocks_and_string_attributes() {
    let mut config = create_test_config();
    let mut net0 = network_block(0.0, "virtio", "vmbr0");
    net0.firewall = Some(true);
    config.network = Some(vec![Some(net0)]);
    config.net = vec![None, text("e1000,bridge=vmbr1")];
    config.disk = Some(vec![Some(disk_block("scsi0", "local-lvm", "10G", "raw"))]);
    config.cloudinit_drive = Some(vec![Some(CloudInitDriveBlock {
        slot: Some("ide3".to_string()),
        storage: Some("local".to_string()),
    })]);
    let request = created_request(&configured(), &config);
    assert_eq!(request.net0.as_deref(), Some("virtio,bridge=vmbr0,firewall=1"));
    assert_eq!(request.net1.as_deref(), Some("e1000,bridge=vmbr1"));
    assert_eq!(request.scsi0.as_deref(), Some("local-lvm:10,format=raw"));
    assert_eq!(request.ide3.as_deref(), Some("local:cloudinit"));
    assert_create_keeps_plan(&config);
}

#[test]
fn test_vm_creation_with_mac_address_specified() {
    let mut config = create_test_config();
    let mut net0 = network_block(0.0, "virtio", "vmbr0");
    net0.firewall = Some(true);
    net0.macaddr = Some("AA:BB:CC:DD:EE:FF".to_string());
    config.network = Some(vec![Some(net0)]);
    let request = created_request(&configured(), &config);
    assert_eq!(request.net0.as_deref(), Some("virtio,bridge=vmbr0,firewall=1,macaddr=AA:BB:CC:DD:EE:FF"));
    assert_create_keeps_plan(&config);
}

#[test]
fn test_disk_path_transformation() {
    let mut config = create_test_config();
    config.disk = Some(vec![Some(disk_block("scsi0", "local-lvm", "10G", "raw"))]);
    let request = created_request(&configured(), &config);
    assert_eq!(request.scsi0.as_deref(), Some("local-lvm:10,format=raw"));
    assert_create_keeps_plan(&config);
}

#[test]
fn a_numeric_volume_gives_a_size() {
    assert_eq!(proxmox::resources::nodes::disk::volume_size("10", true).as_deref(), Some("10G"));
    assert_eq!(proxmox::resources::nodes::disk::volume_size("vm-100-disk-0", false), None);
    let parsed = QemuVmResource::parse_disk_string("local-lvm:10,format=raw", "scsi0");
    assert_eq!(parsed.size.as_deref(), Some("10G"));
    assert_eq!(parsed.storage, "local-lvm");
    let parsed = QemuVmResource::parse_disk_string("local-lvm:vm-100-disk-0,size=32G", "scsi0");
    assert_eq!(parsed.size.as_deref(), Some("32G"));
}

#[test]
fn a_written_network_block_reads_back() {
    let mut block = network_block(0.0, "e1000", "vmbr1");
    block.firewall = Some(false);
    block.tag = Some(30);
    block.macaddr = Some("AA:BB:CC:DD:EE:FF".to_string());
    block.rate = Some("12.5".to_string());
    block.queues = Some(4);
    block.link_down = Some(true);
    block.mtu = Some(1500);
    let written = QemuVmResource::network_blocks_to_string(&[Some(block)]);
    let written = match written {
        Ok(s) => s,
        Err(e) => panic!("{}", e),
    };
    let parsed = QemuVmResource::parse_network_string(&written, 0);
    assert_eq!(parsed.id, 0);
    assert_eq!(parsed.model, "e1000");
    assert_eq!(parsed.bridge.as_deref(), Some("vmbr1"));
    assert_eq!(parsed.firewall, Some(false));
    assert_eq!(parsed.tag, vec!["30".to_string()]);
    assert_eq!(parsed.macaddr.as_deref(), Some("AA:BB:CC:DD:EE:FF"));
    assert_eq!(parsed.rate, vec!["12.5".to_string()]);
    assert_eq!(parsed.queues, vec!["4".to_string()]);
    assert_eq!(parsed.link_down, Some(true));
    assert_eq!(parsed.mtu, vec!["1500".to_string()]);
    let plain = QemuVmResource::network_blocks_to_string(&[Some(NetworkBlock {
        id: Some(num(1.0)),
        model: None,
        bridge: Some("vmbr0".to_string()),
        firewall: None,
        tag: None,
        macaddr: None,
        rate: None,
        queues: None,
        link_down: Some(false),
        mtu: None,
    })]);
    let plain = match plain {
        Ok(s) => s,
        Err(e) => panic!("{}", e),
    };
    let parsed = QemuVmResource::parse_network_string(&plain, 1);
    assert_eq!(parsed.model, "virtio");
    assert_eq!(parsed.link_down, None);
    assert!(parsed.tag.is_empty() && parsed.mtu.is_empty());
}

#[test]
fn an_update_missing_its_node_keeps_the_prior_state() {
    let mut config = create_test_config();
    config.target_node = None;
    match configured().update_start(&config) {
        UpdateStep::MissingAttribute { summary, attribute } => {
            assert_eq!(summary, "Missing node");
            assert_eq!(attribute, "target_node");
            let o = QemuVmResource::update_on_missing_attribute(summary, "attribute not found".to_string());
            assert!(o.new_state == UpdateState::Prior);
            assert_eq!(o.diagnostics.len(), 1);
            assert!(o.diagnostics[0].severity == Severity::Error);
            assert_eq!(o.diagnostics[0].summary, "Missing node");
            assert_eq!(o.diagnostics[0].detail, "attribute not found");
        }
        _ => panic!("the node is missing"),
    }
}
