//! Building a VM's create and update requests from its configuration: the
//! nested blocks become Proxmox strings per slot, the string attributes
//! stand in where no block gives a slot.
use vstd::prelude::*;
use vstd::string::*;
use crate::text::{chars_of, eq_str, opt_view, string_of};
use crate::number::{number_to_u32, number_to_u64, trunc_u32, trunc_u64};
use crate::values::{
    AttrValue, Diagnostic, Severity, diag_view, flag_of, flag_view, nth_attr, number_bits,
    number_of, number_text, text_at, text_of, text_view,
};
use crate::api::nodes::qemu::{CreateQemuRequest, UpdateQemuRequest};
use crate::resources::nodes::disk::{
    CdromBlock, CloudInitDriveBlock, DiskBlock, EfiDiskBlock, SerialBlock, cdrom_block_ok,
    cloudinit_drive_ok, disk_block_ok, efidisk_block_ok, serial_block_ok,
};
use crate::resources::nodes::network::{
    NetworkBlock, network_block_chars, network_block_ok, normalize_network_spec,
};
use crate::resources::nodes::vm_config::{VmConfig, blocks_of};
use crate::resources::nodes::resource_vm::QemuVmResource;

verus! {

/// The value of the last pair in `s` whose key is `key`.
pub open spec fn last_for<K, V>(s: Seq<Option<(K, V)>>, key: K) -> Option<V>
    decreases s.len(),
{
    if s.len() == 0 {
        None
    } else {
        match s.last() {
            Some(kv) => if kv.0 == key {
                Some(kv.1)
            } else {
                last_for(s.drop_last(), key)
            },
            None => last_for(s.drop_last(), key),
        }
    }
}

proof fn lemma_last_for_push<K, V>(s: Seq<Option<(K, V)>>, x: Option<(K, V)>, key: K)
    ensures
        last_for(s.push(x), key) == match x {
            Some(kv) => if kv.0 == key {
                Some(kv.1)
            } else {
                last_for(s, key)
            },
            None => last_for(s, key),
        },
{
    assert(s.push(x).drop_last() =~= s);
}

/// The disk slots a `disk` block can fill, by position.
pub open spec fn disk_slot_name(k: int) -> Seq<char> {
    if k == 0 {
        "scsi0"@
    } else if k == 1 {
        "scsi1"@
    } else if k == 2 {
        "scsi2"@
    } else if k == 3 {
        "scsi3"@
    } else if k == 4 {
        "virtio0"@
    } else if k == 5 {
        "virtio1"@
    } else if k == 6 {
        "ide0"@
    } else if k == 7 {
        "ide2"@
    } else if k == 8 {
        "ide3"@
    } else {
        "sata0"@
    }
}

fn disk_slot_name_str(k: usize) -> (r: &'static str)
    requires
        k < 10,
    ensures
        r@ == disk_slot_name(k as int),
{
    match k {
        0 => "scsi0",
        1 => "scsi1",
        2 => "scsi2",
        3 => "scsi3",
        4 => "virtio0",
        5 => "virtio1",
        6 => "ide0",
        7 => "ide2",
        8 => "ide3",
        _ => "sata0",
    }
}

/// What each `disk` block converts to.
pub open spec fn disk_results(ds: Seq<Option<DiskBlock>>) -> Seq<Option<(Seq<char>, Seq<char>)>> {
    ds.map_values(|d: Option<DiskBlock>| disk_block_ok(d))
}

/// What each `cdrom` block converts to.
pub open spec fn cdrom_results(cs: Seq<Option<CdromBlock>>) -> Seq<Option<(Seq<char>, Seq<char>)>> {
    cs.map_values(|c: Option<CdromBlock>| cdrom_block_ok(c))
}

/// What each `cloudinit_drive` block converts to.
pub open spec fn cloudinit_drive_results(cs: Seq<Option<CloudInitDriveBlock>>) -> Seq<
    Option<(Seq<char>, Seq<char>)>,
> {
    cs.map_values(|c: Option<CloudInitDriveBlock>| cloudinit_drive_ok(c))
}

/// What each `serial` block converts to.
pub open spec fn serial_results(ss: Seq<Option<SerialBlock>>) -> Seq<Option<(u32, Seq<char>)>> {
    ss.map_values(|s: Option<SerialBlock>| serial_block_ok(s))
}

/// What each `network` block converts to.
pub open spec fn network_results(ns: Seq<Option<NetworkBlock>>) -> Seq<Option<(u32, Seq<char>)>> {
    ns.map_values(|n: Option<NetworkBlock>| network_block_ok(n))
}

/// The string a disk slot gets from the `disk` blocks.
pub open spec fn disk_from_blocks(c: VmConfig, k: int) -> Option<Seq<char>> {
    last_for(disk_results(blocks_of(c.disk)), disk_slot_name(k))
}

/// The string of the first `efidisk` block, when it converts.
pub open spec fn efidisk_from_blocks(c: VmConfig) -> Option<Seq<char>> {
    if blocks_of(c.efidisk).len() > 0 {
        efidisk_block_ok(blocks_of(c.efidisk)[0])
    } else {
        None
    }
}

/// The first of two optional strings that is present.
pub open spec fn either(a: Option<Seq<char>>, b: Option<Seq<char>>) -> Option<Seq<char>> {
    match a {
        Some(s) => Some(s),
        None => b,
    }
}

/// The string of interface `k`: from the `network` blocks, else the
/// `netK` attribute normalized against itself.
pub open spec fn net_for(c: VmConfig, k: int) -> Option<Seq<char>> {
    match last_for(network_results(blocks_of(c.network)), k as u32) {
        Some(s) => Some(s),
        None => match text_view(nth_attr(c.net@, k)) {
            Some(n) => Some(normalize_network_spec(n, Some(n))),
            None => None,
        },
    }
}

/// A block's string, else a string attribute.
pub open spec fn block_or_attr(b: Option<Seq<char>>, a: Option<AttrValue>) -> Option<Seq<char>> {
    either(b, text_view(a))
}

/// The number an attribute holds, cast to `u32`.
pub open spec fn opt_u32(o: Option<AttrValue>) -> Option<u32> {
    match number_bits(o) {
        Some(b) => Some(trunc_u32(b)),
        None => None,
    }
}

/// The number an attribute holds, cast to `u64`.
pub open spec fn opt_u64(o: Option<AttrValue>) -> Option<u64> {
    match number_bits(o) {
        Some(b) => Some(trunc_u64(b)),
        None => None,
    }
}

/// An attribute's number cast to `u32`.
fn u32_of(o: &Option<AttrValue>) -> (r: Option<u32>)
    ensures
        r == opt_u32(*o),
{
    match number_of(o) {
        Some(n) => Some(number_to_u32(n)),
        None => None,
    }
}

/// An attribute's number cast to `u64`.
fn u64_of(o: &Option<AttrValue>) -> (r: Option<u64>)
    ensures
        r == opt_u64(*o),
{
    match number_of(o) {
        Some(n) => Some(number_to_u64(n)),
        None => None,
    }
}

/// The strings the `disk` blocks give the slots, by slot position.
fn disk_slots(disks: &Vec<Option<DiskBlock>>) -> (r: Vec<Option<String>>)
    ensures
        r@.len() == 10,
        forall|k: int|
            0 <= k < 10 ==> opt_view(#[trigger] r@[k]) == last_for(
                disk_results(disks@),
                disk_slot_name(k),
            ),
{
    let mut slots: Vec<Option<String>> = vec![None, None, None, None, None, None, None, None, None, None];
    let mut i: usize = 0;
    while i < disks.len()
        invariant
            i <= disks.len(),
            slots@.len() == 10,
            forall|k: int|
                0 <= k < 10 ==> opt_view(#[trigger] slots@[k]) == last_for(
                    disk_results(disks@.take(i as int)),
                    disk_slot_name(k),
                ),
        decreases disks.len() - i,
    {
        let ghost before = slots@;
        let res = QemuVmResource::disk_block_to_api_string(&disks[i]);
        proof {
            assert(disk_results(disks@.take(i + 1)) =~= disk_results(disks@.take(i as int)).push(
                disk_block_ok(disks@[i as int]),
            ));
            assert forall|k: int| 0 <= k < 10 implies last_for(
                disk_results(disks@.take(i + 1)),
                disk_slot_name(k),
            ) == match disk_block_ok(disks@[i as int]) {
                Some(kv) => if kv.0 == disk_slot_name(k) {
                    Some(kv.1)
                } else {
                    last_for(disk_results(disks@.take(i as int)), disk_slot_name(k))
                },
                None => last_for(disk_results(disks@.take(i as int)), disk_slot_name(k)),
            } by {
                lemma_last_for_push(
                    disk_results(disks@.take(i as int)),
                    disk_block_ok(disks@[i as int]),
                    disk_slot_name(k),
                );
            }
        }
        match res {
            Ok((slot, s)) => {
                let sc = chars_of(slot.as_str());
                let mut k: usize = 0;
                while k < 10
                    invariant
                        k <= 10,
                        slots@.len() == 10,
                        before.len() == 10,
                        forall|j: int|
                            0 <= j < k ==> opt_view(#[trigger] slots@[j]) == if sc@ == disk_slot_name(
                                j,
                            ) {
                                Some(s@)
                            } else {
                                opt_view(before[j])
                            },
                        forall|j: int| k <= j < 10 ==> #[trigger] slots@[j] == before[j],
                    decreases 10 - k,
                {
                    if eq_str(&sc, disk_slot_name_str(k)) {
                        slots.set(k, Some(s.clone()));
                    }
                    k = k + 1;
                }
            },
            Err(_) => {},
        }
        i = i + 1;
    }
    assert(disks@.take(disks.len() as int) =~= disks@);
    slots
}

/// The string of the last `cdrom` block that converts and names `slot`.
fn last_cdrom_for(cdroms: &Vec<Option<CdromBlock>>, slot: &str) -> (r: Option<String>)
    ensures
        opt_view(r) == last_for(cdrom_results(cdroms@), slot@),
{
    let mut found: Option<String> = None;
    let mut i: usize = 0;
    while i < cdroms.len()
        invariant
            i <= cdroms.len(),
            opt_view(found) == last_for(cdrom_results(cdroms@.take(i as int)), slot@),
        decreases cdroms.len() - i,
    {
        let res = QemuVmResource::cdrom_block_to_api_string(&cdroms[i]);
        proof {
            assert(cdrom_results(cdroms@.take(i + 1)) =~= cdrom_results(cdroms@.take(i as int)).push(
                cdrom_block_ok(cdroms@[i as int]),
            ));
            lemma_last_for_push(
                cdrom_results(cdroms@.take(i as int)),
                cdrom_block_ok(cdroms@[i as int]),
                slot@,
            );
        }
        match res {
            Ok((sl, s)) => {
                let sc = chars_of(sl.as_str());
                if eq_str(&sc, slot) {
                    found = Some(s);
                }
            },
            Err(_) => {},
        }
        i = i + 1;
    }
    assert(cdroms@.take(cdroms.len() as int) =~= cdroms@);
    found
}

/// The string of the last `cloudinit_drive` block that converts and names
/// `slot`.
fn last_cloudinit_drive_for(drives: &Vec<Option<CloudInitDriveBlock>>, slot: &str) -> (r: Option<
    String,
>)
    ensures
        opt_view(r) == last_for(cloudinit_drive_results(drives@), slot@),
{
    let mut found: Option<String> = None;
    let mut i: usize = 0;
    while i < drives.len()
        invariant
            i <= drives.len(),
            opt_view(found) == last_for(cloudinit_drive_results(drives@.take(i as int)), slot@),
        decreases drives.len() - i,
    {
        let res = QemuVmResource::cloudinit_drive_block_to_api_string(&drives[i]);
        proof {
            assert(cloudinit_drive_results(drives@.take(i + 1)) =~= cloudinit_drive_results(
                drives@.take(i as int),
            ).push(cloudinit_drive_ok(drives@[i as int])));
            lemma_last_for_push(
                cloudinit_drive_results(drives@.take(i as int)),
                cloudinit_drive_ok(drives@[i as int]),
                slot@,
            );
        }
        match res {
            Ok((sl, s)) => {
                let sc = chars_of(sl.as_str());
                if eq_str(&sc, slot) {
                    found = Some(s);
                }
            },
            Err(_) => {},
        }
        i = i + 1;
    }
    assert(drives@.take(drives.len() as int) =~= drives@);
    found
}

/// The strings the `serial` blocks give ports 0 to 3.
fn serial_slots(serials: &Vec<Option<SerialBlock>>) -> (r: Vec<Option<String>>)
    ensures
        r@.len() == 4,
        forall|k: int|
            0 <= k < 4 ==> opt_view(#[trigger] r@[k]) == last_for(serial_results(serials@), k as u32),
{
    let mut slots: Vec<Option<String>> = vec![None, None, None, None];
    let mut i: usize = 0;
    while i < serials.len()
        invariant
            i <= serials.len(),
            slots@.len() == 4,
            forall|k: int|
                0 <= k < 4 ==> opt_view(#[trigger] slots@[k]) == last_for(
                    serial_results(serials@.take(i as int)),
                    k as u32,
                ),
        decreases serials.len() - i,
    {
        let res = QemuVmResource::serial_block_to_api_string(&serials[i]);
        proof {
            assert(serial_results(serials@.take(i + 1)) =~= serial_results(
                serials@.take(i as int),
            ).push(serial_block_ok(serials@[i as int])));
            assert forall|k: u32| k < 4 implies #[trigger] last_for(
                serial_results(serials@.take(i + 1)),
                k,
            ) == match serial_block_ok(serials@[i as int]) {
                Some(kv) => if kv.0 == k {
                    Some(kv.1)
                } else {
                    last_for(serial_results(serials@.take(i as int)), k)
                },
                None => last_for(serial_results(serials@.take(i as int)), k),
            } by {
                lemma_last_for_push(
                    serial_results(serials@.take(i as int)),
                    serial_block_ok(serials@[i as int]),
                    k,
                );
            }
        }
        match res {
            Ok((id, s)) => {
                if id < 4 {
                    slots.set(id as usize, Some(s));
                }
            },
            Err(_) => {},
        }
        i = i + 1;
    }
    assert(serials@.take(serials.len() as int) =~= serials@);
    slots
}

/// The strings the `network` blocks give interfaces 0 to 3.
fn network_slots(networks: &Vec<Option<NetworkBlock>>) -> (r: Vec<Option<String>>)
    ensures
        r@.len() == 4,
        forall|k: int|
            0 <= k < 4 ==> opt_view(#[trigger] r@[k]) == last_for(
                network_results(networks@),
                k as u32,
            ),
{
    let mut slots: Vec<Option<String>> = vec![None, None, None, None];
    let mut i: usize = 0;
    while i < networks.len()
        invariant
            i <= networks.len(),
            slots@.len() == 4,
            forall|k: int|
                0 <= k < 4 ==> opt_view(#[trigger] slots@[k]) == last_for(
                    network_results(networks@.take(i as int)),
                    k as u32,
                ),
        decreases networks.len() - i,
    {
        proof {
            assert(network_results(networks@.take(i + 1)) =~= network_results(
                networks@.take(i as int),
            ).push(network_block_ok(networks@[i as int])));
            assert forall|k: u32| k < 4 implies #[trigger] last_for(
                network_results(networks@.take(i + 1)),
                k,
            ) == match network_block_ok(networks@[i as int]) {
                Some(kv) => if kv.0 == k {
                    Some(kv.1)
                } else {
                    last_for(network_results(networks@.take(i as int)), k)
                },
                None => last_for(network_results(networks@.take(i as int)), k),
            } by {
                lemma_last_for_push(
                    network_results(networks@.take(i as int)),
                    network_block_ok(networks@[i as int]),
                    k,
                );
            }
        }
        match &networks[i] {
            Some(b) => match &b.id {
                Some(n) => {
                    let id = number_to_u32(n);
                    let cs = network_block_chars(b);
                    if id < 4 {
                        slots.set(id as usize, Some(string_of(&cs)));
                    }
                },
                None => {},
            },
            None => {},
        }
        i = i + 1;
    }
    assert(networks@.take(networks.len() as int) =~= networks@);
    slots
}

/// The string of the first `efidisk` block, when it converts.
fn efidisk_first(efidisks: &Option<Vec<Option<EfiDiskBlock>>>) -> (r: Option<String>)
    ensures
        opt_view(r) == if blocks_of(*efidisks).len() > 0 {
            efidisk_block_ok(blocks_of(*efidisks)[0])
        } else {
            None
        },
{
    match efidisks {
        Some(v) => {
            if v.len() > 0 {
                match QemuVmResource::efidisk_block_to_api_string(&v[0]) {
                    Ok(s) => Some(s),
                    Err(_) => None,
                }
            } else {
                None
            }
        },
        None => None,
    }
}

/// The string of an interface: from the blocks, else the attribute's
/// string normalized against itself.
fn net_or_text(from_blocks: Option<String>, attr: Option<String>) -> (r: Option<String>)
    ensures
        opt_view(r) == match opt_view(from_blocks) {
            Some(s) => Some(s),
            None => match opt_view(attr) {
                Some(n) => Some(normalize_network_spec(n, Some(n))),
                None => None,
            },
        },
{
    match from_blocks {
        Some(s) => Some(s),
        None => match attr {
            Some(n) => Some(QemuVmResource::normalize_network_config(n.as_str(), Some(n.as_str()))),
            None => None,
        },
    }
}

/// The first of two optional strings that is present.
fn either_string(a: Option<String>, b: Option<String>) -> (r: Option<String>)
    ensures
        opt_view(r) == either(opt_view(a), opt_view(b)),
{
    match a {
        Some(s) => Some(s),
        None => b,
    }
}

/// The strings the `disk` blocks give the slots; none without a list.
fn disk_slots_of(o: &Option<Vec<Option<DiskBlock>>>) -> (r: Vec<Option<String>>)
    ensures
        r@.len() == 10,
        forall|k: int|
            0 <= k < 10 ==> opt_view(#[trigger] r@[k]) == last_for(
                disk_results(blocks_of(*o)),
                disk_slot_name(k),
            ),
{
    match o {
        Some(v) => disk_slots(v),
        None => disk_slots(&Vec::new()),
    }
}

/// The strings the `serial` blocks give ports 0 to 3; none without a list.
fn serial_slots_of(o: &Option<Vec<Option<SerialBlock>>>) -> (r: Vec<Option<String>>)
    ensures
        r@.len() == 4,
        forall|k: int|
            0 <= k < 4 ==> opt_view(#[trigger] r@[k]) == last_for(
                serial_results(blocks_of(*o)),
                k as u32,
            ),
{
    match o {
        Some(v) => serial_slots(v),
        None => serial_slots(&Vec::new()),
    }
}

/// The strings the `network` blocks give interfaces 0 to 3; none without a
/// list.
fn network_slots_of(o: &Option<Vec<Option<NetworkBlock>>>) -> (r: Vec<Option<String>>)
    ensures
        r@.len() == 4,
        forall|k: int|
            0 <= k < 4 ==> opt_view(#[trigger] r@[k]) == last_for(
                network_results(blocks_of(*o)),
                k as u32,
            ),
{
    match o {
        Some(v) => network_slots(v),
        None => network_slots(&Vec::new()),
    }
}

/// Takes the element at `k` out of a vector of optional strings.
fn take_at(v: &mut Vec<Option<String>>, k: usize) -> (r: Option<String>)
    requires
        k < old(v)@.len(),
    ensures
        opt_view(r) == opt_view(old(v)@[k as int]),
        final(v)@.len() == old(v)@.len(),
        forall|j: int| 0 <= j < old(v)@.len() && j != k ==> #[trigger] final(v)@[j] == old(v)@[j],
{
    let mut out: Option<String> = None;
    std::mem::swap(&mut out, &mut v[k]);
    out
}


/// The create request built from configuration `c` for VM `vmid`: each
/// parameter the configuration gives, all others unset.
pub open spec fn create_request_spec(req: CreateQemuRequest, c: VmConfig, vmid: u32) -> bool {
    &&& req.vmid == vmid
    &&& req.acpi is None
    &&& opt_view(req.agent) == number_text(c.agent)
    &&& req.args is None
    &&& req.autostart is None
    &&& req.balloon == opt_u64(c.balloon)
    &&& opt_view(req.bios) == text_view(c.bios)
    &&& opt_view(req.boot) == text_view(c.boot)
    &&& opt_view(req.bootdisk) == text_view(c.bootdisk)
    &&& req.cdrom is None
    &&& req.cores == opt_u32(c.cores)
    &&& opt_view(req.cpu) == text_view(c.cpu_type)
    &&& req.cpulimit is None
    &&& req.cpuunits is None
    &&& opt_view(req.description) == text_view(c.description)
    &&& opt_view(req.efidisk0) == efidisk_from_blocks(c)
    &&& req.freeze is None
    &&& req.hookscript is None
    &&& req.hotplug is None
    &&& req.hugepages is None
    &&& opt_view(req.ide0) == disk_from_blocks(c, 6)
    &&& req.ide1 is None
    &&& opt_view(req.ide2) == either(last_for(cdrom_results(blocks_of(c.cdrom)), "ide2"@), disk_from_blocks(c, 7))
    &&& opt_view(req.ide3) == either(last_for(cloudinit_drive_results(blocks_of(c.cloudinit_drive)), "ide3"@), disk_from_blocks(c, 8))
    &&& req.kvm is None
    &&& req.localtime is None
    &&& req.lock is None
    &&& opt_view(req.machine) == text_view(c.machine)
    &&& req.memory == opt_u64(c.memory)
    &&& req.migrate_downtime is None
    &&& req.migrate_speed is None
    &&& opt_view(req.name) == text_view(c.name)
    &&& req.nameserver is None
    &&& opt_view(req.net0) == net_for(c, 0)
    &&& opt_view(req.net1) == net_for(c, 1)
    &&& opt_view(req.net2) == net_for(c, 2)
    &&& opt_view(req.net3) == net_for(c, 3)
    &&& req.numa is None
    &&& req.numa0 is None
    &&& req.numa1 is None
    &&& req.onboot == flag_view(c.onboot)
    &&& opt_view(req.ostype) == block_or_attr(text_view(c.qemu_os), c.os_type)
    &&& req.protection == flag_view(c.protection)
    &&& req.reboot is None
    &&& opt_view(req.sata0) == disk_from_blocks(c, 9)
    &&& req.sata1 is None
    &&& req.sata2 is None
    &&& req.sata3 is None
    &&& req.sata4 is None
    &&& req.sata5 is None
    &&& opt_view(req.scsi0) == disk_from_blocks(c, 0)
    &&& opt_view(req.scsi1) == disk_from_blocks(c, 1)
    &&& opt_view(req.scsi2) == disk_from_blocks(c, 2)
    &&& opt_view(req.scsi3) == disk_from_blocks(c, 3)
    &&& req.scsi4 is None
    &&& req.scsi5 is None
    &&& req.scsi6 is None
    &&& req.scsi7 is None
    &&& opt_view(req.scsihw) == text_view(c.scsihw)
    &&& req.searchdomain is None
    &&& opt_view(req.serial0) == last_for(serial_results(blocks_of(c.serial)), 0u32)
    &&& opt_view(req.serial1) == last_for(serial_results(blocks_of(c.serial)), 1u32)
    &&& opt_view(req.serial2) == last_for(serial_results(blocks_of(c.serial)), 2u32)
    &&& opt_view(req.serial3) == last_for(serial_results(blocks_of(c.serial)), 3u32)
    &&& req.shares is None
    &&& req.smbios1 is None
    &&& req.smp is None
    &&& req.sockets == opt_u32(c.sockets)
    &&& req.startup is None
    &&& req.startdate is None
    &&& req.tablet == flag_view(c.tablet)
    &&& opt_view(req.tags) == text_view(c.tags)
    &&& req.template is None
    &&& req.unused0 is None
    &&& req.unused1 is None
    &&& req.unused2 is None
    &&& req.unused3 is None
    &&& req.usb0 is None
    &&& req.usb1 is None
    &&& req.usb2 is None
    &&& req.usb3 is None
    &&& req.vcpus == opt_u32(c.vcpus)
    &&& req.vga is None
    &&& opt_view(req.virtio0) == disk_from_blocks(c, 4)
    &&& opt_view(req.virtio1) == disk_from_blocks(c, 5)
    &&& req.virtio2 is None
    &&& req.virtio3 is None
    &&& req.virtio4 is None
    &&& req.virtio5 is None
    &&& req.virtio6 is None
    &&& req.virtio7 is None
    &&& req.virtio8 is None
    &&& req.virtio9 is None
    &&& req.virtio10 is None
    &&& req.virtio11 is None
    &&& req.virtio12 is None
    &&& req.virtio13 is None
    &&& req.virtio14 is None
    &&& req.virtio15 is None
    &&& req.vmgenid is None
    &&& req.vmstatestorage is None
    &&& req.watchdog is None
    &&& req.start == flag_view(c.start)
    &&& opt_view(req.clone) == text_view(c.clone)
    &&& req.full == (if text_view(c.clone) is Some { flag_view(c.full_clone) } else { None })
    &&& opt_view(req.ciuser) == text_view(c.ciuser)
    &&& opt_view(req.cipassword) == text_view(c.cipassword)
    &&& req.ciupgrade == flag_view(c.ciupgrade)
    &&& opt_view(req.ipconfig0) == text_view(nth_attr(c.ipconfig@, 0))
    &&& opt_view(req.ipconfig1) == text_view(nth_attr(c.ipconfig@, 1))
    &&& opt_view(req.sshkeys) == text_view(c.sshkeys)
}

/// The update request built from configuration `c`: each parameter the
/// configuration gives, all others unset.
pub open spec fn update_request_spec(req: UpdateQemuRequest, c: VmConfig) -> bool {
    &&& req.acpi is None
    &&& opt_view(req.agent) == text_view(c.agent)
    &&& req.args is None
    &&& req.autostart is None
    &&& req.balloon is None
    &&& opt_view(req.bios) == text_view(c.bios)
    &&& opt_view(req.boot) == text_view(c.boot)
    &&& req.bootdisk is None
    &&& req.cdrom is None
    &&& req.cores == opt_u32(c.cores)
    &&& opt_view(req.cpu) == text_view(c.cpu)
    &&& req.cpulimit is None
    &&& req.cpuunits is None
    &&& req.delete is None
    &&& opt_view(req.description) == text_view(c.description)
    &&& req.digest is None
    &&& opt_view(req.efidisk0) == block_or_attr(efidisk_from_blocks(c), c.efidisk0)
    &&& req.freeze is None
    &&& req.hookscript is None
    &&& req.hotplug is None
    &&& req.hugepages is None
    &&& opt_view(req.ide0) == block_or_attr(disk_from_blocks(c, 6), nth_attr(c.ide@, 0))
    &&& req.ide1 is None
    &&& opt_view(req.ide2) == block_or_attr(disk_from_blocks(c, 7), nth_attr(c.ide@, 2))
    &&& req.ide3 is None
    &&& req.kvm is None
    &&& req.localtime is None
    &&& req.lock is None
    &&& req.machine is None
    &&& req.memory == opt_u64(c.memory)
    &&& req.migrate_downtime is None
    &&& req.migrate_speed is None
    &&& opt_view(req.name) == text_view(c.name)
    &&& req.nameserver is None
    &&& opt_view(req.net0) == net_for(c, 0)
    &&& opt_view(req.net1) == net_for(c, 1)
    &&& opt_view(req.net2) == net_for(c, 2)
    &&& opt_view(req.net3) == net_for(c, 3)
    &&& req.numa is None
    &&& req.numa0 is None
    &&& req.numa1 is None
    &&& req.onboot == flag_view(c.onboot)
    &&& opt_view(req.ostype) == text_view(c.ostype)
    &&& req.protection == flag_view(c.protection)
    &&& req.reboot is None
    &&& req.revert is None
    &&& opt_view(req.sata0) == block_or_attr(disk_from_blocks(c, 9), nth_attr(c.sata@, 0))
    &&& req.sata1 is None
    &&& req.sata2 is None
    &&& req.sata3 is None
    &&& req.sata4 is None
    &&& req.sata5 is None
    &&& opt_view(req.scsi0) == block_or_attr(disk_from_blocks(c, 0), nth_attr(c.scsi@, 0))
    &&& opt_view(req.scsi1) == block_or_attr(disk_from_blocks(c, 1), nth_attr(c.scsi@, 1))
    &&& opt_view(req.scsi2) == block_or_attr(disk_from_blocks(c, 2), nth_attr(c.scsi@, 2))
    &&& opt_view(req.scsi3) == block_or_attr(disk_from_blocks(c, 3), nth_attr(c.scsi@, 3))
    &&& req.scsi4 is None
    &&& req.scsi5 is None
    &&& req.scsi6 is None
    &&& req.scsi7 is None
    &&& opt_view(req.scsihw) == text_view(c.scsihw)
    &&& req.searchdomain is None
    &&& req.serial0 is None
    &&& req.serial1 is None
    &&& req.serial2 is None
    &&& req.serial3 is None
    &&& req.shares is None
    &&& req.smbios1 is None
    &&& req.smp is None
    &&& req.sockets == opt_u32(c.sockets)
    &&& req.startup is None
    &&& req.startdate is None
    &&& req.tablet == flag_view(c.tablet)
    &&& opt_view(req.tags) == text_view(c.tags)
    &&& req.template is None
    &&& req.unused0 is None
    &&& req.unused1 is None
    &&& req.unused2 is None
    &&& req.unused3 is None
    &&& req.usb0 is None
    &&& req.usb1 is None
    &&& req.usb2 is None
    &&& req.usb3 is None
    &&& req.vcpus is None
    &&& req.vga is None
    &&& opt_view(req.virtio0) == block_or_attr(disk_from_blocks(c, 4), nth_attr(c.virtio@, 0))
    &&& opt_view(req.virtio1) == block_or_attr(disk_from_blocks(c, 5), nth_attr(c.virtio@, 1))
    &&& req.virtio2 is None
    &&& req.virtio3 is None
    &&& req.virtio4 is None
    &&& req.virtio5 is None
    &&& req.virtio6 is None
    &&& req.virtio7 is None
    &&& req.virtio8 is None
    &&& req.virtio9 is None
    &&& req.virtio10 is None
    &&& req.virtio11 is None
    &&& req.virtio12 is None
    &&& req.virtio13 is None
    &&& req.virtio14 is None
    &&& req.virtio15 is None
    &&& req.vmgenid is None
    &&& req.vmstatestorage is None
    &&& req.watchdog is None
}

impl QemuVmResource {
    /// The node, VM id and create request of a configuration; an error when
    /// it lacks `target_node` or `vmid`.
    pub fn extract_vm_config(&self, config: &VmConfig) -> (r: Result<
        (String, u32, CreateQemuRequest),
        Diagnostic,
    >)
        ensures
            text_view(config.target_node) is None ==> (r matches Err(d) && diag_view(d) == (
                Severity::Error,
                "Missing target_node"@,
                "The 'target_node' attribute is required"@,
            )),
            text_view(config.target_node) is Some && number_bits(config.vmid) is None ==> (r matches Err(
                d,
            ) && diag_view(d) == (Severity::Error, "Missing vmid"@, "The 'vmid' attribute is required"@)),
            text_view(config.target_node) is Some && number_bits(config.vmid) is Some ==> (r matches Ok(
                (node, vmid, req),
            ) && Some(node@) == text_view(config.target_node) && Some(vmid) == opt_u32(config.vmid)
                && create_request_spec(req, *config, vmid)),
    {
        let node = match text_of(&config.target_node) {
            Some(n) => n,
            None => {
                return Err(
                    Diagnostic::error("Missing target_node", "The 'target_node' attribute is required"),
                );
            },
        };
        let vmid = match u32_of(&config.vmid) {
            Some(v) => v,
            None => {
                return Err(Diagnostic::error("Missing vmid", "The 'vmid' attribute is required"));
            },
        };
        let clone = text_of(&config.clone);
        let full = if clone.is_some() {
            flag_of(&config.full_clone)
        } else {
            None
        };
        let agent = match number_of(&config.agent) {
            Some(n) => Some(n.text.clone()),
            None => None,
        };
        let mut disks = disk_slots_of(&config.disk);
        let cdrom_ide2 = match &config.cdrom {
            Some(v) => last_cdrom_for(v, "ide2"),
            None => last_cdrom_for(&Vec::new(), "ide2"),
        };
        let ci_ide3 = match &config.cloudinit_drive {
            Some(v) => last_cloudinit_drive_for(v, "ide3"),
            None => last_cloudinit_drive_for(&Vec::new(), "ide3"),
        };
        let ide2 = either_string(cdrom_ide2, take_at(&mut disks, 7));
        let ide3 = either_string(ci_ide3, take_at(&mut disks, 8));
        let mut serials = serial_slots_of(&config.serial);
        let mut nets = network_slots_of(&config.network);
        let req = CreateQemuRequest {
        vmid: vmid,
        acpi: None,
        agent: agent,
        args: None,
        autostart: None,
        balloon: u64_of(&config.balloon),
        bios: text_of(&config.bios),
        boot: text_of(&config.boot),
        bootdisk: text_of(&config.bootdisk),
        cdrom: None,
        cores: u32_of(&config.cores),
        cpu: text_of(&config.cpu_type),
        cpulimit: None,
        cpuunits: None,
        description: text_of(&config.description),
        efidisk0: efidisk_first(&config.efidisk),
        freeze: None,
        hookscript: None,
        hotplug: None,
        hugepages: None,
        ide0: take_at(&mut disks, 6),
        ide1: None,
        ide2: ide2,
        ide3: ide3,
        kvm: None,
        localtime: None,
        lock: None,
        machine: text_of(&config.machine),
        memory: u64_of(&config.memory),
        migrate_downtime: None,
        migrate_speed: None,
        name: text_of(&config.name),
        nameserver: None,
        net0: net_or_text(take_at(&mut nets, 0), text_at(&config.net, 0)),
        net1: net_or_text(take_at(&mut nets, 1), text_at(&config.net, 1)),
        net2: net_or_text(take_at(&mut nets, 2), text_at(&config.net, 2)),
        net3: net_or_text(take_at(&mut nets, 3), text_at(&config.net, 3)),
        numa: None,
        numa0: None,
        numa1: None,
        onboot: flag_of(&config.onboot),
        ostype: either_string(text_of(&config.qemu_os), text_of(&config.os_type)),
        protection: flag_of(&config.protection),
        reboot: None,
        sata0: take_at(&mut disks, 9),
        sata1: None,
        sata2: None,
        sata3: None,
        sata4: None,
        sata5: None,
        scsi0: take_at(&mut disks, 0),
        scsi1: take_at(&mut disks, 1),
        scsi2: take_at(&mut disks, 2),
        scsi3: take_at(&mut disks, 3),
        scsi4: None,
        scsi5: None,
        scsi6: None,
        scsi7: None,
        scsihw: text_of(&config.scsihw),
        searchdomain: None,
        serial0: take_at(&mut serials, 0),
        serial1: take_at(&mut serials, 1),
        serial2: take_at(&mut serials, 2),
        serial3: take_at(&mut serials, 3),
        shares: None,
        smbios1: None,
        smp: None,
        sockets: u32_of(&config.sockets),
        startup: None,
        startdate: None,
        tablet: flag_of(&config.tablet),
        tags: text_of(&config.tags),
        template: None,
        unused0: None,
        unused1: None,
        unused2: None,
        unused3: None,
        usb0: None,
        usb1: None,
        usb2: None,
        usb3: None,
        vcpus: u32_of(&config.vcpus),
        vga: None,
        virtio0: take_at(&mut disks, 4),
        virtio1: take_at(&mut disks, 5),
        virtio2: None,
        virtio3: None,
        virtio4: None,
        virtio5: None,
        virtio6: None,
        virtio7: None,
        virtio8: None,
        virtio9: None,
        virtio10: None,
        virtio11: None,
        virtio12: None,
        virtio13: None,
        virtio14: None,
        virtio15: None,
        vmgenid: None,
        vmstatestorage: None,
        watchdog: None,
        start: flag_of(&config.start),
        clone: clone,
        full: full,
        ciuser: text_of(&config.ciuser),
        cipassword: text_of(&config.cipassword),
        ciupgrade: flag_of(&config.ciupgrade),
        ipconfig0: text_at(&config.ipconfig, 0),
        ipconfig1: text_at(&config.ipconfig, 1),
        sshkeys: text_of(&config.sshkeys),
        };
        Ok((node, vmid, req))
    }

    /// The update request of a configuration.
    pub fn build_update_request(&self, config: &VmConfig) -> (r: Result<UpdateQemuRequest, Diagnostic>)
        ensures
            r matches Ok(req) && update_request_spec(req, *config),
    {
        let mut disks = disk_slots_of(&config.disk);
        let mut nets = network_slots_of(&config.network);
        let req = UpdateQemuRequest {
        acpi: None,
        agent: text_of(&config.agent),
        args: None,
        autostart: None,
        balloon: None,
        bios: text_of(&config.bios),
        boot: text_of(&config.boot),
        bootdisk: None,
        cdrom: None,
        cores: u32_of(&config.cores),
        cpu: text_of(&config.cpu),
        cpulimit: None,
        cpuunits: None,
        delete: None,
        description: text_of(&config.description),
        digest: None,
        efidisk0: either_string(efidisk_first(&config.efidisk), text_of(&config.efidisk0)),
        freeze: None,
        hookscript: None,
        hotplug: None,
        hugepages: None,
        ide0: either_string(take_at(&mut disks, 6), text_at(&config.ide, 0)),
        ide1: None,
        ide2: either_string(take_at(&mut disks, 7), text_at(&config.ide, 2)),
        ide3: None,
        kvm: None,
        localtime: None,
        lock: None,
        machine: None,
        memory: u64_of(&config.memory),
        migrate_downtime: None,
        migrate_speed: None,
        name: text_of(&config.name),
        nameserver: None,
        net0: net_or_text(take_at(&mut nets, 0), text_at(&config.net, 0)),
        net1: net_or_text(take_at(&mut nets, 1), text_at(&config.net, 1)),
        net2: net_or_text(take_at(&mut nets, 2), text_at(&config.net, 2)),
        net3: net_or_text(take_at(&mut nets, 3), text_at(&config.net, 3)),
        numa: None,
        numa0: None,
        numa1: None,
        onboot: flag_of(&config.onboot),
        ostype: text_of(&config.ostype),
        protection: flag_of(&config.protection),
        reboot: None,
        revert: None,
        sata0: either_string(take_at(&mut disks, 9), text_at(&config.sata, 0)),
        sata1: None,
        sata2: None,
        sata3: None,
        sata4: None,
        sata5: None,
        scsi0: either_string(take_at(&mut disks, 0), text_at(&config.scsi, 0)),
        scsi1: either_string(take_at(&mut disks, 1), text_at(&config.scsi, 1)),
        scsi2: either_string(take_at(&mut disks, 2), text_at(&config.scsi, 2)),
        scsi3: either_string(take_at(&mut disks, 3), text_at(&config.scsi, 3)),
        scsi4: None,
        scsi5: None,
        scsi6: None,
        scsi7: None,
        scsihw: text_of(&config.scsihw),
        searchdomain: None,
        serial0: None,
        serial1: None,
        serial2: None,
        serial3: None,
        shares: None,
        smbios1: None,
        smp: None,
        sockets: u32_of(&config.sockets),
        startup: None,
        startdate: None,
        tablet: flag_of(&config.tablet),
        tags: text_of(&config.tags),
        template: None,
        unused0: None,
        unused1: None,
        unused2: None,
        unused3: None,
        usb0: None,
        usb1: None,
        usb2: None,
        usb3: None,
        vcpus: None,
        vga: None,
        virtio0: either_string(take_at(&mut disks, 4), text_at(&config.virtio, 0)),
        virtio1: either_string(take_at(&mut disks, 5), text_at(&config.virtio, 1)),
        virtio2: None,
        virtio3: None,
        virtio4: None,
        virtio5: None,
        virtio6: None,
        virtio7: None,
        virtio8: None,
        virtio9: None,
        virtio10: None,
        virtio11: None,
        virtio12: None,
        virtio13: None,
        virtio14: None,
        virtio15: None,
        vmgenid: None,
        vmstatestorage: None,
        watchdog: None,
        };
        Ok(req)
    }
}

/// The create request and the update request of one configuration carry
/// the same network strings, and the same disk string for each slot a
/// `disk` block fills.
pub proof fn lemma_create_update_agree(c: VmConfig, vmid: u32, create: CreateQemuRequest, update: UpdateQemuRequest)
    requires
        create_request_spec(create, c, vmid),
        update_request_spec(update, c),
    ensures
        opt_view(create.net0) == opt_view(update.net0),
        opt_view(create.net1) == opt_view(update.net1),
        opt_view(create.net2) == opt_view(update.net2),
        opt_view(create.net3) == opt_view(update.net3),
        disk_from_blocks(c, 0) is Some ==> opt_view(create.scsi0) == opt_view(update.scsi0),
        disk_from_blocks(c, 4) is Some ==> opt_view(create.virtio0) == opt_view(update.virtio0),
        disk_from_blocks(c, 9) is Some ==> opt_view(create.sata0) == opt_view(update.sata0),
        efidisk_from_blocks(c) is Some ==> opt_view(create.efidisk0) == opt_view(update.efidisk0),
{
}

/// `last_for` gives the value of the last pair whose key is `key`: none
/// when no pair has that key, else a pair with that key and value after
/// which no pair has that key.
pub proof fn lemma_last_for_is_last<K, V>(s: Seq<Option<(K, V)>>, key: K)
    ensures
        last_for(s, key) is None <==> forall|i: int|
            0 <= i < s.len() ==> !(#[trigger] s[i] matches Some(kv) && kv.0 == key),
        last_for(s, key) matches Some(v) ==> exists|i: int|
            0 <= i < s.len() && #[trigger] s[i] == Some((key, v)) && forall|j: int|
                i < j < s.len() ==> !(#[trigger] s[j] matches Some(kv) && kv.0 == key),
    decreases s.len(),
{
    if s.len() > 0 {
        let t = s.drop_last();
        lemma_last_for_is_last(t, key);
        assert forall|i: int| 0 <= i < t.len() implies t[i] == s[i] by {}
        let n = s.len() - 1;
        match s.last() {
            Some(kv) => {
                if kv.0 == key {
                    assert(s[n] == Some((key, kv.1)));
                } else {
                    if let Some(v) = last_for(s, key) {
                        let i = choose|i: int|
                            0 <= i < t.len() && #[trigger] t[i] == Some((key, v)) && forall|j: int|
                                i < j < t.len() ==> !(#[trigger] t[j] matches Some(kv) && kv.0 == key);
                        assert(s[i] == Some((key, v)));
                        assert forall|j: int| i < j < s.len() implies !(#[trigger] s[j] matches Some(kv) && kv.0 == key) by {
                            if j < n {
                                assert(t[j] == s[j]);
                            }
                        }
                    }
                }
            },
            None => {
                if let Some(v) = last_for(s, key) {
                    let i = choose|i: int|
                        0 <= i < t.len() && #[trigger] t[i] == Some((key, v)) && forall|j: int|
                            i < j < t.len() ==> !(#[trigger] t[j] matches Some(kv) && kv.0 == key);
                    assert(s[i] == Some((key, v)));
                    assert forall|j: int| i < j < s.len() implies !(#[trigger] s[j] matches Some(kv) && kv.0 == key) by {
                        if j < n {
                            assert(t[j] == s[j]);
                        }
                    }
                }
            },
        }
    }
}

/// Each disk parameter of a create request carries the string of the last
/// `disk` block that converts and names that parameter's own slot, and is
/// unset when no such block does; `ide2` and `ide3` take a `cdrom` block
/// and a cloud-init drive before any `disk` block.
pub proof fn lemma_create_disk_slots(req: CreateQemuRequest, c: VmConfig, vmid: u32)
    requires
        create_request_spec(req, c, vmid),
    ensures
        ({
            let ds = disk_results(blocks_of(c.disk));
            &&& opt_view(req.scsi0) == last_for(ds, "scsi0"@)
            &&& opt_view(req.scsi1) == last_for(ds, "scsi1"@)
            &&& opt_view(req.scsi2) == last_for(ds, "scsi2"@)
            &&& opt_view(req.scsi3) == last_for(ds, "scsi3"@)
            &&& opt_view(req.virtio0) == last_for(ds, "virtio0"@)
            &&& opt_view(req.virtio1) == last_for(ds, "virtio1"@)
            &&& opt_view(req.ide0) == last_for(ds, "ide0"@)
            &&& opt_view(req.ide2) == either(
                last_for(cdrom_results(blocks_of(c.cdrom)), "ide2"@),
                last_for(ds, "ide2"@),
            )
            &&& opt_view(req.ide3) == either(
                last_for(cloudinit_drive_results(blocks_of(c.cloudinit_drive)), "ide3"@),
                last_for(ds, "ide3"@),
            )
            &&& opt_view(req.sata0) == last_for(ds, "sata0"@)
        }),
{
}

/// Each disk parameter of an update request carries the string of the last
/// `disk` block that converts and names that parameter's own slot, else the
/// string attribute of that same slot.
pub proof fn lemma_update_disk_slots(req: UpdateQemuRequest, c: VmConfig)
    requires
        update_request_spec(req, c),
    ensures
        ({
            let ds = disk_results(blocks_of(c.disk));
            &&& opt_view(req.scsi0) == either(last_for(ds, "scsi0"@), text_view(nth_attr(c.scsi@, 0)))
            &&& opt_view(req.scsi1) == either(last_for(ds, "scsi1"@), text_view(nth_attr(c.scsi@, 1)))
            &&& opt_view(req.scsi2) == either(last_for(ds, "scsi2"@), text_view(nth_attr(c.scsi@, 2)))
            &&& opt_view(req.scsi3) == either(last_for(ds, "scsi3"@), text_view(nth_attr(c.scsi@, 3)))
            &&& opt_view(req.virtio0) == either(last_for(ds, "virtio0"@), text_view(nth_attr(c.virtio@, 0)))
            &&& opt_view(req.virtio1) == either(last_for(ds, "virtio1"@), text_view(nth_attr(c.virtio@, 1)))
            &&& opt_view(req.ide0) == either(last_for(ds, "ide0"@), text_view(nth_attr(c.ide@, 0)))
            &&& opt_view(req.ide2) == either(last_for(ds, "ide2"@), text_view(nth_attr(c.ide@, 2)))
            &&& opt_view(req.sata0) == either(last_for(ds, "sata0"@), text_view(nth_attr(c.sata@, 0)))
        }),
{
}

} // verus!
