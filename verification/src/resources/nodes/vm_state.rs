//! What the VM resource writes into its Terraform state: each write names
//! an attribute and gives its new value. Writes apply in order, a later
//! one replacing an earlier one of the same attribute.
use vstd::prelude::*;
use vstd::string::*;
use crate::text::{
    chars_of, digit_char, eq_str, lemma_split_len, nat_decimal, opt_view, split_chars,
    split_once_chars, split_once_spec, split_spec, string_of, views,
};
use crate::number::{Number, number_to_u32, trunc_u32};
use crate::values::{
    AttrValue, AttrView, attr_view, clone_attr, clone_number, flag_of, flag_view, nth_attr, number_bits, number_of,
    text_at, text_of, text_view,
};
use crate::api::nodes::qemu::QemuConfig;
use crate::resources::nodes::vm_schema::{vm_attributes, vm_blocks};
use crate::resources::nodes::disk::{
    DiskBlock, EfiDiskBlock, last_for_key, normalize_disk_spec, parse_disk_spec, tags_spec,
};
use crate::resources::nodes::network::{
    NetworkBlock, last_value_for, normalize_network_spec, opt_flag, parse_network_spec,
};
use crate::resources::nodes::disk::{ParsedDisk, ParsedDiskView};
use crate::resources::nodes::network::{ParsedNetwork, ParsedNetworkView};
use crate::resources::nodes::vm_config::VmConfig;
use crate::resources::nodes::resource_vm::QemuVmResource;

verus! {

/// The `efidisk` block written to state.
pub struct EfiDiskState {
    pub storage: AttrValue,
    pub format: AttrValue,
    pub efitype: AttrValue,
    pub pre_enrolled_keys: AttrValue,
}

/// The `cloudinit` map written to state; its `ipconfig` entry is the
/// planned one when `ipconfig_from_plan`, else an empty list.
pub struct CloudInitState {
    pub user: AttrValue,
    pub password: AttrValue,
    pub ssh_keys: AttrValue,
    pub ipconfig_from_plan: bool,
}

/// A value written to state.
pub enum StateValue {
    Text(String),
    Flag(bool),
    /// The number `n`.
    Whole(u64),
    /// A number kept as it was.
    Num(Number),
    /// The planned state's value of the same attribute, unchanged.
    FromPlanned,
    EmptyList,
    Networks(Vec<ParsedNetwork>),
    Disks(Vec<ParsedDisk>),
    EfiDisk(EfiDiskState),
    CloudInit(CloudInitState),
    /// An attribute value copied as it is.
    Attr(AttrValue),
}

/// A write of `value` to attribute `name`.
pub struct StateWrite {
    pub name: String,
    pub value: StateValue,
}

/// A written value as plain values.
pub enum StateValueView {
    Text(Seq<char>),
    Flag(bool),
    Whole(u64),
    Num(u64, Seq<char>),
    FromPlanned,
    EmptyList,
    Networks(Seq<ParsedNetworkView>),
    Disks(Seq<ParsedDiskView>),
    EfiDisk(AttrView, AttrView, AttrView, AttrView),
    CloudInit(AttrView, AttrView, AttrView, bool),
    Attr(AttrView),
}

pub open spec fn value_view(v: StateValue) -> StateValueView {
    match v {
        StateValue::Text(s) => StateValueView::Text(s@),
        StateValue::Flag(b) => StateValueView::Flag(b),
        StateValue::Whole(n) => StateValueView::Whole(n),
        StateValue::Num(n) => StateValueView::Num(n.bits, n.text@),
        StateValue::FromPlanned => StateValueView::FromPlanned,
        StateValue::EmptyList => StateValueView::EmptyList,
        StateValue::Networks(ns) => StateValueView::Networks(ns@.map_values(|n: ParsedNetwork| n@)),
        StateValue::Disks(ds) => StateValueView::Disks(ds@.map_values(|d: ParsedDisk| d@)),
        StateValue::EfiDisk(e) => StateValueView::EfiDisk(
            attr_view(e.storage),
            attr_view(e.format),
            attr_view(e.efitype),
            attr_view(e.pre_enrolled_keys),
        ),
        StateValue::CloudInit(c) => StateValueView::CloudInit(
            attr_view(c.user),
            attr_view(c.password),
            attr_view(c.ssh_keys),
            c.ipconfig_from_plan,
        ),
        StateValue::Attr(a) => StateValueView::Attr(attr_view(a)),
    }
}

/// A sequence of writes as plain values.
pub open spec fn writes_view(s: Seq<StateWrite>) -> Seq<(Seq<char>, StateValueView)> {
    s.map_values(|w: StateWrite| (w.name@, value_view(w.value)))
}

/// Appends a write.
pub fn push_write(state: &mut Vec<StateWrite>, name: &str, value: StateValue)
    ensures
        writes_view(final(state)@) == writes_view(old(state)@).push((name@, value_view(value))),
{
    let ghost v = value_view(value);
    state.push(StateWrite { name: String::from_str(name), value });
    assert(writes_view(state@) =~= writes_view(old(state)@).push((name@, v)));
}

/// A write of the attribute's string, when it holds one.
pub open spec fn text_write(name: Seq<char>, o: Option<AttrValue>) -> Seq<(Seq<char>, StateValueView)> {
    match text_view(o) {
        Some(s) => seq![(name, StateValueView::Text(s))],
        None => Seq::empty(),
    }
}

/// A write of the attribute's number, when it holds one.
pub open spec fn number_write(name: Seq<char>, o: Option<AttrValue>) -> Seq<(Seq<char>, StateValueView)> {
    match o {
        Some(AttrValue::Number(n)) => seq![(name, StateValueView::Num(n.bits, n.text@))],
        _ => Seq::empty(),
    }
}

/// A write of the attribute's boolean, when it holds one.
pub open spec fn flag_write(name: Seq<char>, o: Option<AttrValue>) -> Seq<(Seq<char>, StateValueView)> {
    match flag_view(o) {
        Some(b) => seq![(name, StateValueView::Flag(b))],
        None => Seq::empty(),
    }
}

/// A write that keeps the planned list, when the plan holds a list.
pub open spec fn planned_list_write<T>(name: Seq<char>, o: Option<Vec<T>>) -> Seq<
    (Seq<char>, StateValueView),
> {
    if o is Some {
        seq![(name, StateValueView::FromPlanned)]
    } else {
        Seq::empty()
    }
}

/// The default value of every attribute, in the order they are written.
pub open spec fn default_writes() -> Seq<(Seq<char>, StateValueView)> {
    seq![
        ("clone"@, StateValueView::Text(""@)),
        ("full_clone"@, StateValueView::Flag(false)),
        ("os_type"@, StateValueView::Text(""@)),
        ("bios"@, StateValueView::Text("seabios"@)),
        ("machine"@, StateValueView::Text(""@)),
        ("cpu_type"@, StateValueView::Text(""@)),
        ("cores"@, StateValueView::Whole(1)),
        ("sockets"@, StateValueView::Whole(1)),
        ("vcpus"@, StateValueView::Whole(0)),
        ("memory"@, StateValueView::Whole(512)),
        ("balloon"@, StateValueView::Whole(0)),
        ("boot"@, StateValueView::Text(""@)),
        ("bootdisk"@, StateValueView::Text(""@)),
        ("onboot"@, StateValueView::Flag(false)),
        ("scsihw"@, StateValueView::Text("lsi"@)),
        ("agent"@, StateValueView::Whole(0)),
        ("qemu_os"@, StateValueView::Text(""@)),
        ("ipconfig0"@, StateValueView::Text(""@)),
        ("ipconfig1"@, StateValueView::Text(""@)),
        ("ipconfig2"@, StateValueView::Text(""@)),
        ("ipconfig3"@, StateValueView::Text(""@)),
        ("ciuser"@, StateValueView::Text(""@)),
        ("cipassword"@, StateValueView::Text(""@)),
        ("ciupgrade"@, StateValueView::Flag(false)),
        ("sshkeys"@, StateValueView::Text(""@)),
        ("skip_ipv4"@, StateValueView::Flag(false)),
        ("skip_ipv6"@, StateValueView::Flag(false)),
        ("additional_wait"@, StateValueView::Whole(0)),
        ("automatic_reboot"@, StateValueView::Flag(true)),
        ("clone_wait"@, StateValueView::Whole(0)),
        ("define_connection_info"@, StateValueView::Flag(false)),
        ("description"@, StateValueView::Text(""@)),
        ("start"@, StateValueView::Flag(false)),
        ("tablet"@, StateValueView::Flag(true)),
        ("protection"@, StateValueView::Flag(false)),
        ("tags"@, StateValueView::Text(""@)),
        ("network"@, StateValueView::EmptyList),
        ("disk"@, StateValueView::EmptyList),
        ("cdrom"@, StateValueView::EmptyList),
        ("cloudinit_drive"@, StateValueView::EmptyList),
        ("serial"@, StateValueView::EmptyList),
        ("efidisk"@, StateValueView::EmptyList),
    ]
}

/// The writes that give a state every attribute after a failed creation:
/// the planned `target_node`, `vmid` and `name`, every default, then the
/// planned `tags`, `cores`, `memory`, `start` and block lists.
pub open spec fn all_attribute_writes(p: VmConfig) -> Seq<(Seq<char>, StateValueView)> {
    text_write("target_node"@, p.target_node) + number_write("vmid"@, p.vmid) + text_write(
        "name"@,
        p.name,
    ) + default_writes() + text_write("tags"@, p.tags) + number_write("cores"@, p.cores)
        + number_write("memory"@, p.memory) + flag_write("start"@, p.start) + planned_list_write(
        "network"@,
        p.network,
    ) + planned_list_write("disk"@, p.disk) + planned_list_write("cdrom"@, p.cdrom)
        + planned_list_write("cloudinit_drive"@, p.cloudinit_drive) + planned_list_write(
        "serial"@,
        p.serial,
    ) + planned_list_write("efidisk"@, p.efidisk)
}

/// Appends a write of the attribute's string, when it holds one.
fn push_text_if(state: &mut Vec<StateWrite>, name: &str, o: &Option<AttrValue>)
    ensures
        writes_view(final(state)@) == writes_view(old(state)@) + text_write(name@, *o),
{
    match text_of(o) {
        Some(s) => push_write(state, name, StateValue::Text(s)),
        None => {},
    }
    assert(writes_view(state@) =~= writes_view(old(state)@) + text_write(name@, *o));
}

/// Appends a write of the attribute's number, when it holds one.
fn push_number_if(state: &mut Vec<StateWrite>, name: &str, o: &Option<AttrValue>)
    ensures
        writes_view(final(state)@) == writes_view(old(state)@) + number_write(name@, *o),
{
    match o {
        Some(AttrValue::Number(n)) => push_write(state, name, StateValue::Num(clone_number(n))),
        _ => {},
    }
    assert(writes_view(state@) =~= writes_view(old(state)@) + number_write(name@, *o));
}

/// Appends a write of the attribute's boolean, when it holds one.
fn push_flag_if(state: &mut Vec<StateWrite>, name: &str, o: &Option<AttrValue>)
    ensures
        writes_view(final(state)@) == writes_view(old(state)@) + flag_write(name@, *o),
{
    match flag_of(o) {
        Some(b) => push_write(state, name, StateValue::Flag(b)),
        None => {},
    }
    assert(writes_view(state@) =~= writes_view(old(state)@) + flag_write(name@, *o));
}

/// Appends a write keeping the planned list, when the plan holds a list.
fn push_planned_list_if<T>(state: &mut Vec<StateWrite>, name: &str, o: &Option<Vec<T>>)
    ensures
        writes_view(final(state)@) == writes_view(old(state)@) + planned_list_write(name@, *o),
{
    if o.is_some() {
        push_write(state, name, StateValue::FromPlanned);
    }
    assert(writes_view(state@) =~= writes_view(old(state)@) + planned_list_write(name@, *o));
}

/// Appends the default of every attribute.
fn push_defaults(state: &mut Vec<StateWrite>)
    ensures
        writes_view(final(state)@) == writes_view(old(state)@) + default_writes(),
{
    push_write(state, "clone", StateValue::Text(String::from_str("")));
    push_write(state, "full_clone", StateValue::Flag(false));
    push_write(state, "os_type", StateValue::Text(String::from_str("")));
    push_write(state, "bios", StateValue::Text(String::from_str("seabios")));
    push_write(state, "machine", StateValue::Text(String::from_str("")));
    push_write(state, "cpu_type", StateValue::Text(String::from_str("")));
    push_write(state, "cores", StateValue::Whole(1));
    push_write(state, "sockets", StateValue::Whole(1));
    push_write(state, "vcpus", StateValue::Whole(0));
    push_write(state, "memory", StateValue::Whole(512));
    push_write(state, "balloon", StateValue::Whole(0));
    push_write(state, "boot", StateValue::Text(String::from_str("")));
    push_write(state, "bootdisk", StateValue::Text(String::from_str("")));
    push_write(state, "onboot", StateValue::Flag(false));
    push_write(state, "scsihw", StateValue::Text(String::from_str("lsi")));
    push_write(state, "agent", StateValue::Whole(0));
    push_write(state, "qemu_os", StateValue::Text(String::from_str("")));
    push_write(state, "ipconfig0", StateValue::Text(String::from_str("")));
    push_write(state, "ipconfig1", StateValue::Text(String::from_str("")));
    push_write(state, "ipconfig2", StateValue::Text(String::from_str("")));
    push_write(state, "ipconfig3", StateValue::Text(String::from_str("")));
    push_write(state, "ciuser", StateValue::Text(String::from_str("")));
    push_write(state, "cipassword", StateValue::Text(String::from_str("")));
    push_write(state, "ciupgrade", StateValue::Flag(false));
    push_write(state, "sshkeys", StateValue::Text(String::from_str("")));
    push_write(state, "skip_ipv4", StateValue::Flag(false));
    push_write(state, "skip_ipv6", StateValue::Flag(false));
    push_write(state, "additional_wait", StateValue::Whole(0));
    push_write(state, "automatic_reboot", StateValue::Flag(true));
    push_write(state, "clone_wait", StateValue::Whole(0));
    push_write(state, "define_connection_info", StateValue::Flag(false));
    push_write(state, "description", StateValue::Text(String::from_str("")));
    push_write(state, "start", StateValue::Flag(false));
    push_write(state, "tablet", StateValue::Flag(true));
    push_write(state, "protection", StateValue::Flag(false));
    push_write(state, "tags", StateValue::Text(String::from_str("")));
    push_write(state, "network", StateValue::EmptyList);
    push_write(state, "disk", StateValue::EmptyList);
    push_write(state, "cdrom", StateValue::EmptyList);
    push_write(state, "cloudinit_drive", StateValue::EmptyList);
    push_write(state, "serial", StateValue::EmptyList);
    push_write(state, "efidisk", StateValue::EmptyList);
    assert(writes_view(state@) =~= writes_view(old(state)@) + default_writes());
}

impl QemuVmResource {
    /// Appends the writes that give a state every attribute after a failed
    /// creation.
    pub fn populate_all_attributes(state: &mut Vec<StateWrite>, planned_state: &VmConfig)
        ensures
            writes_view(final(state)@) == writes_view(old(state)@) + all_attribute_writes(
                *planned_state,
            ),
    {
        let ghost start = writes_view(state@);
        push_text_if(state, "target_node", &planned_state.target_node);
        push_number_if(state, "vmid", &planned_state.vmid);
        push_text_if(state, "name", &planned_state.name);
        push_defaults(state);
        push_text_if(state, "tags", &planned_state.tags);
        push_number_if(state, "cores", &planned_state.cores);
        push_number_if(state, "memory", &planned_state.memory);
        push_flag_if(state, "start", &planned_state.start);
        push_planned_list_if(state, "network", &planned_state.network);
        push_planned_list_if(state, "disk", &planned_state.disk);
        push_planned_list_if(state, "cdrom", &planned_state.cdrom);
        push_planned_list_if(state, "cloudinit_drive", &planned_state.cloudinit_drive);
        push_planned_list_if(state, "serial", &planned_state.serial);
        push_planned_list_if(state, "efidisk", &planned_state.efidisk);
        assert(writes_view(state@) =~= start + all_attribute_writes(*planned_state));
    }
}

/// An optional written value as plain values.
pub open spec fn opt_value_view(o: Option<StateValue>) -> Option<StateValueView> {
    match o {
        Some(v) => Some(value_view(v)),
        None => None,
    }
}

/// A string of the VM's configuration as a written value.
pub open spec fn text_sv(o: Option<String>) -> Option<StateValueView> {
    match o {
        Some(s) => Some(StateValueView::Text(s@)),
        None => None,
    }
}

/// The VM's tags, `;` written as `,`, as a written value.
pub open spec fn tags_sv(o: Option<String>) -> Option<StateValueView> {
    match o {
        Some(t) => Some(StateValueView::Text(tags_spec(t@))),
        None => None,
    }
}

/// A count of the VM's configuration as a written number.
pub open spec fn whole_sv(o: Option<u64>) -> Option<StateValueView> {
    match o {
        Some(n) => Some(StateValueView::Whole(n)),
        None => None,
    }
}

/// A flag of the VM's configuration as a written value.
pub open spec fn flag_sv(o: Option<bool>) -> Option<StateValueView> {
    match o {
        Some(b) => Some(StateValueView::Flag(b)),
        None => None,
    }
}

/// A write of the VM's value, when it has one.
pub open spec fn api_write(name: Seq<char>, api: Option<StateValueView>) -> Seq<(Seq<char>, StateValueView)> {
    match api {
        Some(v) => seq![(name, v)],
        None => Seq::empty(),
    }
}

/// A write of the VM's value, else of `default` when the plan holds the
/// attribute.
pub open spec fn api_or_default(
    name: Seq<char>,
    api: Option<StateValueView>,
    planned: bool,
    default: StateValueView,
) -> Seq<(Seq<char>, StateValueView)> {
    match api {
        Some(v) => seq![(name, v)],
        None => if planned {
            seq![(name, default)]
        } else {
            Seq::empty()
        },
    }
}

/// A write only when the plan holds the attribute: the VM's value, else
/// `default`.
pub open spec fn planned_only(
    name: Seq<char>,
    api: Option<StateValueView>,
    planned: bool,
    default: StateValueView,
) -> Seq<(Seq<char>, StateValueView)> {
    if planned {
        match api {
            Some(v) => seq![(name, v)],
            None => seq![(name, default)],
        }
    } else {
        Seq::empty()
    }
}

/// The disk attributes kept in state, by position: `scsi0` to `scsi3`,
/// `virtio0`, `virtio1`, `ide0`, `ide2`, `sata0`, `efidisk0`.
pub open spec fn state_disk_name(k: int) -> Seq<char> {
    if k == 0 {
        "scsi0"@
    } else if k == 1 {
        "scsi1"@
    } else if k == 2 {
        "scsi2"@
    } else if k == 3 {
        "scsi3"@
    } else if k == 4 {
        "virtio0"@
    } else if k == 5 {
        "virtio1"@
    } else if k == 6 {
        "ide0"@
    } else if k == 7 {
        "ide2"@
    } else if k == 8 {
        "sata0"@
    } else {
        "efidisk0"@
    }
}

fn state_disk_name_str(k: usize) -> (r: &'static str)
    requires
        k < 10,
    ensures
        r@ == state_disk_name(k as int),
{
    match k {
        0 => "scsi0",
        1 => "scsi1",
        2 => "scsi2",
        3 => "scsi3",
        4 => "virtio0",
        5 => "virtio1",
        6 => "ide0",
        7 => "ide2",
        8 => "sata0",
        _ => "efidisk0",
    }
}

/// The VM's disk string at position `k`.
pub open spec fn qemu_disk(vm: QemuConfig, k: int) -> Option<String> {
    if k == 0 {
        vm.scsi0
    } else if k == 1 {
        vm.scsi1
    } else if k == 2 {
        vm.scsi2
    } else if k == 3 {
        vm.scsi3
    } else if k == 4 {
        vm.virtio0
    } else if k == 5 {
        vm.virtio1
    } else if k == 6 {
        vm.ide0
    } else if k == 7 {
        vm.ide2
    } else if k == 8 {
        vm.sata0
    } else {
        vm.efidisk0
    }
}

fn qemu_disk_ref(vm: &QemuConfig, k: usize) -> (r: &Option<String>)
    requires
        k < 10,
    ensures
        *r == qemu_disk(*vm, k as int),
{
    match k {
        0 => &vm.scsi0,
        1 => &vm.scsi1,
        2 => &vm.scsi2,
        3 => &vm.scsi3,
        4 => &vm.virtio0,
        5 => &vm.virtio1,
        6 => &vm.ide0,
        7 => &vm.ide2,
        8 => &vm.sata0,
        _ => &vm.efidisk0,
    }
}

/// The planned disk attribute at position `k`.
pub open spec fn planned_disk(p: VmConfig, k: int) -> Option<AttrValue> {
    if k < 4 {
        nth_attr(p.scsi@, k)
    } else if k == 4 {
        nth_attr(p.virtio@, 0)
    } else if k == 5 {
        nth_attr(p.virtio@, 1)
    } else if k == 6 {
        nth_attr(p.ide@, 0)
    } else if k == 7 {
        nth_attr(p.ide@, 2)
    } else if k == 8 {
        nth_attr(p.sata@, 0)
    } else {
        p.efidisk0
    }
}

fn planned_disk_text(p: &VmConfig, k: usize) -> (r: Option<String>)
    requires
        k < 10,
    ensures
        opt_view(r) == text_view(planned_disk(*p, k as int)),
{
    if k < 4 {
        text_at(&p.scsi, k)
    } else if k == 4 {
        text_at(&p.virtio, 0)
    } else if k == 5 {
        text_at(&p.virtio, 1)
    } else if k == 6 {
        text_at(&p.ide, 0)
    } else if k == 7 {
        text_at(&p.ide, 2)
    } else if k == 8 {
        text_at(&p.sata, 0)
    } else {
        text_of(&p.efidisk0)
    }
}

/// The write of disk attribute `k`: the VM's string normalized against the
/// planned one, else an empty string when the plan holds it.
pub open spec fn disk_state_write(vm: QemuConfig, p: VmConfig, k: int) -> Seq<(Seq<char>, StateValueView)> {
    api_or_default(
        state_disk_name(k),
        match qemu_disk(vm, k) {
            Some(d) => Some(StateValueView::Text(normalize_disk_spec(d@, text_view(planned_disk(p, k))))),
            None => None,
        },
        text_view(planned_disk(p, k)) is Some,
        StateValueView::Text(""@),
    )
}

/// The writes of disk attributes `0..n`.
pub open spec fn disk_state_writes(vm: QemuConfig, p: VmConfig, n: nat) -> Seq<(Seq<char>, StateValueView)>
    decreases n,
{
    if n == 0 {
        Seq::empty()
    } else {
        disk_state_writes(vm, p, (n - 1) as nat) + disk_state_write(vm, p, n - 1)
    }
}

/// The VM's network string of interface `k`.
pub open spec fn qemu_net(vm: QemuConfig, k: int) -> Option<String> {
    if k == 0 {
        vm.net0
    } else if k == 1 {
        vm.net1
    } else if k == 2 {
        vm.net2
    } else {
        vm.net3
    }
}

fn qemu_net_ref(vm: &QemuConfig, k: usize) -> (r: &Option<String>)
    requires
        k < 4,
    ensures
        *r == qemu_net(*vm, k as int),
{
    match k {
        0 => &vm.net0,
        1 => &vm.net1,
        2 => &vm.net2,
        _ => &vm.net3,
    }
}

fn net_name_str(k: usize) -> (r: &'static str)
    requires
        k < 4,
    ensures
        r@ == seq!['n', 'e', 't'] + nat_decimal(k as nat),
{
    let r = match k {
        0 => "net0",
        1 => "net1",
        2 => "net2",
        _ => "net3",
    };
    proof {
        reveal_strlit("net0");
        reveal_strlit("net1");
        reveal_strlit("net2");
        reveal_strlit("net3");
        assert(nat_decimal(k as nat) =~= seq![digit_char(k as nat)]);
    }
    assert(r@ =~= seq!['n', 'e', 't'] + nat_decimal(k as nat));
    r
}

/// The write of `netK`: the VM's string normalized against the planned
/// one, else an empty string when the plan holds it.
pub open spec fn net_state_write(vm: QemuConfig, p: VmConfig, k: int) -> Seq<(Seq<char>, StateValueView)> {
    api_or_default(
        seq!['n', 'e', 't'] + nat_decimal(k as nat),
        match qemu_net(vm, k) {
            Some(n) => Some(StateValueView::Text(normalize_network_spec(n@, text_view(nth_attr(p.net@, k))))),
            None => None,
        },
        text_view(nth_attr(p.net@, k)) is Some,
        StateValueView::Text(""@),
    )
}

/// The writes of `net0` to `net(n-1)`.
pub open spec fn net_state_writes(vm: QemuConfig, p: VmConfig, n: nat) -> Seq<(Seq<char>, StateValueView)>
    decreases n,
{
    if n == 0 {
        Seq::empty()
    } else {
        net_state_writes(vm, p, (n - 1) as nat) + net_state_write(vm, p, n - 1)
    }
}

/// Whether the plan holds the attribute as a string.
pub open spec fn has_text(o: Option<AttrValue>) -> bool {
    text_view(o) is Some
}

/// The writes that refresh a state from the VM's configuration: each value
/// Proxmox returned, a default for each planned attribute it did not
/// return, and the planned cloud-init settings and `start`.
pub open spec fn from_config_writes(vm: QemuConfig, p: VmConfig) -> Seq<(Seq<char>, StateValueView)> {
    scalar_state_writes(vm, p) + disk_state_writes(vm, p, 10) + net_state_writes(vm, p, 4)
        + planned_setting_writes(p)
}

/// The writes of the VM's scalar settings, from `name` to `description`.
pub open spec fn scalar_state_writes(vm: QemuConfig, p: VmConfig) -> Seq<(Seq<char>, StateValueView)> {
    scalar_state_writes_1(vm, p) + scalar_state_writes_2(vm, p) + scalar_state_writes_3(vm, p)
}

/// Part 1 of the scalar writes.
pub open spec fn scalar_state_writes_1(vm: QemuConfig, p: VmConfig) -> Seq<(Seq<char>, StateValueView)> {
    api_write("name"@, text_sv(vm.name)) + api_or_default("cores"@, whole_sv(opt_u32_wide(vm.cores)), number_bits(p.cores) is Some, StateValueView::Whole(1)) + api_or_default("sockets"@, whole_sv(opt_u32_wide(vm.sockets)), number_bits(p.sockets) is Some, StateValueView::Whole(1)) + api_or_default("memory"@, whole_sv(vm.memory), number_bits(p.memory) is Some, StateValueView::Whole(512)) + api_or_default("cpu"@, text_sv(vm.cpu), has_text(p.cpu), StateValueView::Text("x86-64-v2-AES"@))
}

/// Part 2 of the scalar writes.
pub open spec fn scalar_state_writes_2(vm: QemuConfig, p: VmConfig) -> Seq<(Seq<char>, StateValueView)> {
    api_or_default("bios"@, text_sv(vm.bios), has_text(p.bios), StateValueView::Text("seabios"@)) + planned_only("boot"@, text_sv(vm.boot), has_text(p.boot), StateValueView::Text(""@)) + api_or_default("scsihw"@, text_sv(vm.scsihw), has_text(p.scsihw), StateValueView::Text("lsi"@)) + api_or_default("ostype"@, text_sv(vm.ostype), has_text(p.ostype), StateValueView::Text("other"@)) + api_or_default("agent"@, text_sv(vm.agent), has_text(p.agent), StateValueView::Text("0"@))
}

/// Part 3 of the scalar writes.
pub open spec fn scalar_state_writes_3(vm: QemuConfig, p: VmConfig) -> Seq<(Seq<char>, StateValueView)> {
    api_or_default("onboot"@, flag_sv(vm.onboot), flag_view(p.onboot) is Some, StateValueView::Flag(false)) + api_or_default("tablet"@, flag_sv(vm.tablet), flag_view(p.tablet) is Some, StateValueView::Flag(true)) + api_or_default("protection"@, flag_sv(vm.protection), flag_view(p.protection) is Some, StateValueView::Flag(false)) + planned_only("tags"@, tags_sv(vm.tags), has_text(p.tags), StateValueView::Text(""@)) + planned_only("description"@, text_sv(vm.description), has_text(p.description), StateValueView::Text(""@))
}

/// The planned cloud-init settings and `start`, kept as planned.
pub open spec fn planned_setting_writes(p: VmConfig) -> Seq<(Seq<char>, StateValueView)> {
    text_write("ciuser"@, p.ciuser)
        + text_write("cipassword"@, p.cipassword) + text_write("sshkeys"@, p.sshkeys) + text_write(
        "ipconfig0"@,
        nth_attr(p.ipconfig@, 0),
    ) + text_write("ipconfig1"@, nth_attr(p.ipconfig@, 1)) + text_write(
        "ipconfig2"@,
        nth_attr(p.ipconfig@, 2),
    ) + text_write("ipconfig3"@, nth_attr(p.ipconfig@, 3)) + flag_write("start"@, p.start)
}

/// A `u32` count widened to `u64`.
pub open spec fn opt_u32_wide(o: Option<u32>) -> Option<u64> {
    match o {
        Some(n) => Some(n as u64),
        None => None,
    }
}

/// Appends the VM's value, else `default` when the plan holds the
/// attribute.
fn push_api_or_default(
    state: &mut Vec<StateWrite>,
    name: &str,
    api: Option<StateValue>,
    planned: bool,
    default: StateValue,
)
    ensures
        writes_view(final(state)@) == writes_view(old(state)@) + api_or_default(
            name@,
            opt_value_view(api),
            planned,
            value_view(default),
        ),
{
    let ghost d = value_view(default);
    let ghost a = opt_value_view(api);
    match api {
        Some(v) => push_write(state, name, v),
        None => {
            if planned {
                push_write(state, name, default);
            }
        },
    }
    assert(writes_view(state@) =~= writes_view(old(state)@) + api_or_default(name@, a, planned, d));
}

/// Appends, when the plan holds the attribute, the VM's value or else
/// `default`.
fn push_planned_only(
    state: &mut Vec<StateWrite>,
    name: &str,
    api: Option<StateValue>,
    planned: bool,
    default: StateValue,
)
    ensures
        writes_view(final(state)@) == writes_view(old(state)@) + planned_only(
            name@,
            opt_value_view(api),
            planned,
            value_view(default),
        ),
{
    let ghost d = value_view(default);
    let ghost a = opt_value_view(api);
    if planned {
        match api {
            Some(v) => push_write(state, name, v),
            None => push_write(state, name, default),
        }
    }
    assert(writes_view(state@) =~= writes_view(old(state)@) + planned_only(name@, a, planned, d));
}

fn text_value(o: &Option<String>) -> (r: Option<StateValue>)
    ensures
        opt_value_view(r) == text_sv(*o),
{
    match o {
        Some(s) => Some(StateValue::Text(s.clone())),
        None => None,
    }
}

fn whole_value(o: Option<u64>) -> (r: Option<StateValue>)
    ensures
        opt_value_view(r) == whole_sv(o),
{
    match o {
        Some(n) => Some(StateValue::Whole(n)),
        None => None,
    }
}

fn flag_value_of(o: Option<bool>) -> (r: Option<StateValue>)
    ensures
        opt_value_view(r) == flag_sv(o),
{
    match o {
        Some(b) => Some(StateValue::Flag(b)),
        None => None,
    }
}

fn widen(o: Option<u32>) -> (r: Option<u64>)
    ensures
        r == opt_u32_wide(o),
{
    match o {
        Some(n) => Some(n as u64),
        None => None,
    }
}

fn text_str(s: &str) -> (r: StateValue)
    ensures
        value_view(r) == StateValueView::Text(s@),
{
    StateValue::Text(String::from_str(s))
}

fn push_scalar_state_writes_1(state: &mut Vec<StateWrite>, vm: &QemuConfig, p: &VmConfig)
    ensures
        writes_view(final(state)@) == writes_view(old(state)@) + scalar_state_writes_1(*vm, *p),
{
    let ghost start = writes_view(state@);
        match text_value(&vm.name) {
            Some(v) => push_write(state, "name", v),
            None => {},
        }
        let ghost mut acc = api_write("name"@, text_sv(vm.name));
        push_api_or_default(state, "cores", whole_value(widen(vm.cores)), number_of(&p.cores).is_some(), StateValue::Whole(1));
        proof {
            vstd::seq_lib::lemma_concat_associative(start, acc, api_or_default("cores"@, whole_sv(opt_u32_wide(vm.cores)), number_bits(p.cores) is Some, StateValueView::Whole(1)));
            acc = acc + api_or_default("cores"@, whole_sv(opt_u32_wide(vm.cores)), number_bits(p.cores) is Some, StateValueView::Whole(1));
        }
        push_api_or_default(state, "sockets", whole_value(widen(vm.sockets)), number_of(&p.sockets).is_some(), StateValue::Whole(1));
        proof {
            vstd::seq_lib::lemma_concat_associative(start, acc, api_or_default("sockets"@, whole_sv(opt_u32_wide(vm.sockets)), number_bits(p.sockets) is Some, StateValueView::Whole(1)));
            acc = acc + api_or_default("sockets"@, whole_sv(opt_u32_wide(vm.sockets)), number_bits(p.sockets) is Some, StateValueView::Whole(1));
        }
        push_api_or_default(state, "memory", whole_value(vm.memory), number_of(&p.memory).is_some(), StateValue::Whole(512));
        proof {
            vstd::seq_lib::lemma_concat_associative(start, acc, api_or_default("memory"@, whole_sv(vm.memory), number_bits(p.memory) is Some, StateValueView::Whole(512)));
            acc = acc + api_or_default("memory"@, whole_sv(vm.memory), number_bits(p.memory) is Some, StateValueView::Whole(512));
        }
        push_api_or_default(state, "cpu", text_value(&vm.cpu), text_of(&p.cpu).is_some(), text_str("x86-64-v2-AES"));
        proof {
            vstd::seq_lib::lemma_concat_associative(start, acc, api_or_default("cpu"@, text_sv(vm.cpu), has_text(p.cpu), StateValueView::Text("x86-64-v2-AES"@)));
            acc = acc + api_or_default("cpu"@, text_sv(vm.cpu), has_text(p.cpu), StateValueView::Text("x86-64-v2-AES"@));
        }
        assert(acc == scalar_state_writes_1(*vm, *p));
}

fn push_scalar_state_writes_2(state: &mut Vec<StateWrite>, vm: &QemuConfig, p: &VmConfig)
    ensures
        writes_view(final(state)@) == writes_view(old(state)@) + scalar_state_writes_2(*vm, *p),
{
    let ghost start = writes_view(state@);
        push_api_or_default(state, "bios", text_value(&vm.bios), text_of(&p.bios).is_some(), text_str("seabios"));
        let ghost mut acc = api_or_default("bios"@, text_sv(vm.bios), has_text(p.bios), StateValueView::Text("seabios"@));
        push_planned_only(state, "boot", text_value(&vm.boot), text_of(&p.boot).is_some(), text_str(""));
        proof {
            vstd::seq_lib::lemma_concat_associative(start, acc, planned_only("boot"@, text_sv(vm.boot), has_text(p.boot), StateValueView::Text(""@)));
            acc = acc + planned_only("boot"@, text_sv(vm.boot), has_text(p.boot), StateValueView::Text(""@));
        }
        push_api_or_default(state, "scsihw", text_value(&vm.scsihw), text_of(&p.scsihw).is_some(), text_str("lsi"));
        proof {
            vstd::seq_lib::lemma_concat_associative(start, acc, api_or_default("scsihw"@, text_sv(vm.scsihw), has_text(p.scsihw), StateValueView::Text("lsi"@)));
            acc = acc + api_or_default("scsihw"@, text_sv(vm.scsihw), has_text(p.scsihw), StateValueView::Text("lsi"@));
        }
        push_api_or_default(state, "ostype", text_value(&vm.ostype), text_of(&p.ostype).is_some(), text_str("other"));
        proof {
            vstd::seq_lib::lemma_concat_associative(start, acc, api_or_default("ostype"@, text_sv(vm.ostype), has_text(p.ostype), StateValueView::Text("other"@)));
            acc = acc + api_or_default("ostype"@, text_sv(vm.ostype), has_text(p.ostype), StateValueView::Text("other"@));
        }
        push_api_or_default(state, "agent", text_value(&vm.agent), text_of(&p.agent).is_some(), text_str("0"));
        proof {
            vstd::seq_lib::lemma_concat_associative(start, acc, api_or_default("agent"@, text_sv(vm.agent), has_text(p.agent), StateValueView::Text("0"@)));
            acc = acc + api_or_default("agent"@, text_sv(vm.agent), has_text(p.agent), StateValueView::Text("0"@));
        }
        assert(acc == scalar_state_writes_2(*vm, *p));
}

fn push_scalar_state_writes_3(state: &mut Vec<StateWrite>, vm: &QemuConfig, p: &VmConfig)
    ensures
        writes_view(final(state)@) == writes_view(old(state)@) + scalar_state_writes_3(*vm, *p),
{
    let ghost start = writes_view(state@);
        push_api_or_default(state, "onboot", flag_value_of(vm.onboot), flag_of(&p.onboot).is_some(), StateValue::Flag(false));
        let ghost mut acc = api_or_default("onboot"@, flag_sv(vm.onboot), flag_view(p.onboot) is Some, StateValueView::Flag(false));
        push_api_or_default(state, "tablet", flag_value_of(vm.tablet), flag_of(&p.tablet).is_some(), StateValue::Flag(true));
        proof {
            vstd::seq_lib::lemma_concat_associative(start, acc, api_or_default("tablet"@, flag_sv(vm.tablet), flag_view(p.tablet) is Some, StateValueView::Flag(true)));
            acc = acc + api_or_default("tablet"@, flag_sv(vm.tablet), flag_view(p.tablet) is Some, StateValueView::Flag(true));
        }
        push_api_or_default(state, "protection", flag_value_of(vm.protection), flag_of(&p.protection).is_some(), StateValue::Flag(false));
        proof {
            vstd::seq_lib::lemma_concat_associative(start, acc, api_or_default("protection"@, flag_sv(vm.protection), flag_view(p.protection) is Some, StateValueView::Flag(false)));
            acc = acc + api_or_default("protection"@, flag_sv(vm.protection), flag_view(p.protection) is Some, StateValueView::Flag(false));
        }
        let tags = match &vm.tags {
            Some(t) => Some(StateValue::Text(QemuVmResource::normalize_tags(t.as_str()))),
            None => None,
        };
        push_planned_only(state, "tags", tags, text_of(&p.tags).is_some(), text_str(""));
        proof {
            vstd::seq_lib::lemma_concat_associative(start, acc, planned_only("tags"@, tags_sv(vm.tags), has_text(p.tags), StateValueView::Text(""@)));
            acc = acc + planned_only("tags"@, tags_sv(vm.tags), has_text(p.tags), StateValueView::Text(""@));
        }
        push_planned_only(state, "description", text_value(&vm.description), text_of(&p.description).is_some(), text_str(""));
        proof {
            vstd::seq_lib::lemma_concat_associative(start, acc, planned_only("description"@, text_sv(vm.description), has_text(p.description), StateValueView::Text(""@)));
            acc = acc + planned_only("description"@, text_sv(vm.description), has_text(p.description), StateValueView::Text(""@));
        }
        assert(acc == scalar_state_writes_3(*vm, *p));
}

fn push_scalar_state_writes(state: &mut Vec<StateWrite>, vm: &QemuConfig, p: &VmConfig)
    ensures
        writes_view(final(state)@) == writes_view(old(state)@) + scalar_state_writes(*vm, *p),
{
    let ghost start = writes_view(state@);
    push_scalar_state_writes_1(state, vm, p);
    push_scalar_state_writes_2(state, vm, p);
    proof {
        vstd::seq_lib::lemma_concat_associative(
            start,
            scalar_state_writes_1(*vm, *p),
            scalar_state_writes_2(*vm, *p),
        );
    }
    push_scalar_state_writes_3(state, vm, p);
    proof {
        vstd::seq_lib::lemma_concat_associative(
            start,
            scalar_state_writes_1(*vm, *p) + scalar_state_writes_2(*vm, *p),
            scalar_state_writes_3(*vm, *p),
        );
    }
}

fn push_disk_state_writes(state: &mut Vec<StateWrite>, vm: &QemuConfig, p: &VmConfig)
    ensures
        writes_view(final(state)@) == writes_view(old(state)@) + disk_state_writes(*vm, *p, 10),
{
        let ghost before_disks = writes_view(state@);
        let mut k: usize = 0;
        while k < 10
            invariant
                k <= 10,
                writes_view(state@) == before_disks + disk_state_writes(*vm, *p, k as nat),
            decreases 10 - k,
        {
            let current = planned_disk_text(p, k);
            let planned = current.is_some();
            let api = match qemu_disk_ref(vm, k) {
                Some(d) => {
                    let n = match &current {
                        Some(c) => QemuVmResource::normalize_disk_config(d.as_str(), Some(c.as_str())),
                        None => QemuVmResource::normalize_disk_config(d.as_str(), None),
                    };
                    Some(StateValue::Text(n))
                },
                None => None,
            };
            push_api_or_default(state, state_disk_name_str(k), api, planned, text_str(""));
            assert(writes_view(state@) =~= before_disks + disk_state_writes(*vm, *p, (k + 1) as nat));
            k = k + 1;
        }
        assert(writes_view(state@) =~= before_disks + disk_state_writes(*vm, *p, 10));
}

fn push_net_state_writes(state: &mut Vec<StateWrite>, vm: &QemuConfig, p: &VmConfig)
    ensures
        writes_view(final(state)@) == writes_view(old(state)@) + net_state_writes(*vm, *p, 4),
{
        let ghost before_nets = writes_view(state@);
        let mut k: usize = 0;
        while k < 4
            invariant
                k <= 4,
                writes_view(state@) == before_nets + net_state_writes(*vm, *p, k as nat),
            decreases 4 - k,
        {
            let current = text_at(&p.net, k);
            let planned = current.is_some();
            let api = match qemu_net_ref(vm, k) {
                Some(n) => {
                    let s = match &current {
                        Some(c) => QemuVmResource::normalize_network_config(n.as_str(), Some(c.as_str())),
                        None => QemuVmResource::normalize_network_config(n.as_str(), None),
                    };
                    Some(StateValue::Text(s))
                },
                None => None,
            };
            push_api_or_default(state, net_name_str(k), api, planned, text_str(""));
            assert(writes_view(state@) =~= before_nets + net_state_writes(*vm, *p, (k + 1) as nat));
            k = k + 1;
        }
}

fn push_planned_setting_writes(state: &mut Vec<StateWrite>, vm: &QemuConfig, p: &VmConfig)
    ensures
        writes_view(final(state)@) == writes_view(old(state)@) + planned_setting_writes(*p),
{
    let ghost start = writes_view(state@);
        push_text_if(state, "ciuser", &p.ciuser);
        let ghost mut acc = text_write("ciuser"@, p.ciuser);
        push_text_if(state, "cipassword", &p.cipassword);
        proof {
            vstd::seq_lib::lemma_concat_associative(start, acc, text_write("cipassword"@, p.cipassword));
            acc = acc + text_write("cipassword"@, p.cipassword);
        }
        push_text_if(state, "sshkeys", &p.sshkeys);
        proof {
            vstd::seq_lib::lemma_concat_associative(start, acc, text_write("sshkeys"@, p.sshkeys));
            acc = acc + text_write("sshkeys"@, p.sshkeys);
        }
        let ip0 = attr_at(&p.ipconfig, 0);
        push_text_if(state, "ipconfig0", &ip0);
        proof {
            vstd::seq_lib::lemma_concat_associative(start, acc, text_write("ipconfig0"@, nth_attr(p.ipconfig@, 0)));
            acc = acc + text_write("ipconfig0"@, nth_attr(p.ipconfig@, 0));
        }
        let ip1 = attr_at(&p.ipconfig, 1);
        push_text_if(state, "ipconfig1", &ip1);
        proof {
            vstd::seq_lib::lemma_concat_associative(start, acc, text_write("ipconfig1"@, nth_attr(p.ipconfig@, 1)));
            acc = acc + text_write("ipconfig1"@, nth_attr(p.ipconfig@, 1));
        }
        let ip2 = attr_at(&p.ipconfig, 2);
        push_text_if(state, "ipconfig2", &ip2);
        proof {
            vstd::seq_lib::lemma_concat_associative(start, acc, text_write("ipconfig2"@, nth_attr(p.ipconfig@, 2)));
            acc = acc + text_write("ipconfig2"@, nth_attr(p.ipconfig@, 2));
        }
        let ip3 = attr_at(&p.ipconfig, 3);
        push_text_if(state, "ipconfig3", &ip3);
        proof {
            vstd::seq_lib::lemma_concat_associative(start, acc, text_write("ipconfig3"@, nth_attr(p.ipconfig@, 3)));
            acc = acc + text_write("ipconfig3"@, nth_attr(p.ipconfig@, 3));
        }
        push_flag_if(state, "start", &p.start);
        proof {
            vstd::seq_lib::lemma_concat_associative(start, acc, flag_write("start"@, p.start));
            acc = acc + flag_write("start"@, p.start);
        }
        assert(acc == planned_setting_writes(*p));
}

impl QemuVmResource {
    /// Appends the writes that refresh a state from the VM's configuration.
    pub fn populate_state_from_config(
        state: &mut Vec<StateWrite>,
        vm_config: &QemuConfig,
        planned_state: &VmConfig,
    )
        ensures
            writes_view(final(state)@) == writes_view(old(state)@) + from_config_writes(
                *vm_config,
                *planned_state,
            ),
    {
        let ghost start = writes_view(state@);
        push_scalar_state_writes(state, vm_config, planned_state);
        push_disk_state_writes(state, vm_config, planned_state);
        push_net_state_writes(state, vm_config, planned_state);
        push_planned_setting_writes(state, vm_config, planned_state);
        assert(writes_view(state@) =~= start + from_config_writes(*vm_config, *planned_state));
    }
}

/// A copy of the attribute at position `i` of a family.
fn attr_at(v: &Vec<Option<AttrValue>>, i: usize) -> (r: Option<AttrValue>)
    ensures
        text_view(r) == text_view(nth_attr(v@, i as int)),
        flag_view(r) == flag_view(nth_attr(v@, i as int)),
{
    if i < v.len() {
        match &v[i] {
            Some(a) => Some(clone_attr(a)),
            None => None,
        }
    } else {
        None
    }
}

/// The interface number of a planned `network` block with an `id`.
pub open spec fn network_id_of(n: Option<NetworkBlock>) -> Option<u32> {
    match n {
        Some(b) => match b.id {
            Some(id) => Some(trunc_u32(id.bits)),
            None => None,
        },
        None => None,
    }
}

/// Whether a planned `network` block names interface `i`.
pub open spec fn planned_net_id(ns: Seq<Option<NetworkBlock>>, i: u32) -> bool {
    exists|j: int| 0 <= j < ns.len() && #[trigger] network_id_of(ns[j]) == Some(i)
}

/// The slot of a planned `disk` block that names one.
pub open spec fn disk_slot_of(d: Option<DiskBlock>) -> Option<Seq<char>> {
    match d {
        Some(b) => match b.slot {
            Some(s) => Some(s@),
            None => None,
        },
        None => None,
    }
}

/// Whether a planned `disk` block names `slot`.
pub open spec fn planned_disk_slot(ds: Seq<Option<DiskBlock>>, slot: Seq<char>) -> bool {
    exists|j: int| 0 <= j < ds.len() && #[trigger] disk_slot_of(ds[j]) == Some(slot)
}

/// The block of interface `i`, when planned and configured on the VM.
pub open spec fn nested_net_entry(vm: QemuConfig, ns: Seq<Option<NetworkBlock>>, i: nat) -> Seq<
    ParsedNetworkView,
> {
    match qemu_net(vm, i as int) {
        Some(n) => if planned_net_id(ns, i as u32) {
            seq![parse_network_spec(n@, i as u32)]
        } else {
            Seq::empty()
        },
        None => Seq::empty(),
    }
}

/// The blocks of interfaces `0..n`.
pub open spec fn nested_networks(vm: QemuConfig, ns: Seq<Option<NetworkBlock>>, n: nat) -> Seq<
    ParsedNetworkView,
>
    decreases n,
{
    if n == 0 {
        Seq::empty()
    } else {
        nested_networks(vm, ns, (n - 1) as nat) + nested_net_entry(vm, ns, (n - 1) as nat)
    }
}

/// The block of disk slot `k`, when planned and configured on the VM.
pub open spec fn nested_disk_entry(vm: QemuConfig, ds: Seq<Option<DiskBlock>>, k: nat) -> Seq<
    ParsedDiskView,
> {
    match qemu_disk(vm, k as int) {
        Some(d) => if planned_disk_slot(ds, state_disk_name(k as int)) {
            seq![parse_disk_spec(d@, state_disk_name(k as int))]
        } else {
            Seq::empty()
        },
        None => Seq::empty(),
    }
}

/// The blocks of disk slots `0..n`.
pub open spec fn nested_disks(vm: QemuConfig, ds: Seq<Option<DiskBlock>>, n: nat) -> Seq<ParsedDiskView>
    decreases n,
{
    if n == 0 {
        Seq::empty()
    } else {
        nested_disks(vm, ds, (n - 1) as nat) + nested_disk_entry(vm, ds, (n - 1) as nat)
    }
}

/// The `efidisk0` settings Proxmox returned: storage, format, EFI type
/// and whether keys are pre-enrolled.
pub open spec fn efi_parsed(cfg: Option<String>) -> (
    Option<Seq<char>>,
    Option<Seq<char>>,
    Option<Seq<char>>,
    Option<bool>,
) {
    match cfg {
        Some(c) => {
            let parts = split_spec(c@, ',');
            let rest = parts.drop_first();
            (
                match split_once_spec(parts[0], ':') {
                    Some(kv) => Some(kv.0),
                    None => None,
                },
                last_value_for(rest, "format"@),
                last_value_for(rest, "efitype"@),
                opt_flag(last_value_for(rest, "pre-enrolled-keys"@)),
            )
        },
        None => (None, None, None, None),
    }
}

/// An `efidisk` entry: what Proxmox returned, else the planned value,
/// else `default`.
pub open spec fn efi_field(parsed: Option<AttrView>, planned: Option<AttrValue>, default: AttrView) -> AttrView {
    match parsed {
        Some(v) => v,
        None => match planned {
            Some(a) => attr_view(a),
            None => default,
        },
    }
}

/// A string as an attribute view.
pub open spec fn text_av(o: Option<Seq<char>>) -> Option<AttrView> {
    match o {
        Some(s) => Some(AttrView::Text(s)),
        None => None,
    }
}

/// A flag as an attribute view.
pub open spec fn flag_av(o: Option<bool>) -> Option<AttrView> {
    match o {
        Some(b) => Some(AttrView::Bool(b)),
        None => None,
    }
}

/// The planned `efidisk` block's entry chosen by `f`.
pub open spec fn planned_efi(first: Option<EfiDiskBlock>, k: int) -> Option<AttrValue> {
    match first {
        Some(b) => if k == 0 {
            b.storage
        } else if k == 1 {
            b.format
        } else if k == 2 {
            b.efitype
        } else {
            b.pre_enrolled_keys
        },
        None => None,
    }
}

/// The `efidisk` block written to state.
pub open spec fn efidisk_state_view(vm: QemuConfig, first: Option<EfiDiskBlock>) -> StateValueView {
    let parsed = efi_parsed(vm.efidisk0);
    StateValueView::EfiDisk(
        efi_field(text_av(parsed.0), planned_efi(first, 0), AttrView::Text(""@)),
        efi_field(text_av(parsed.1), planned_efi(first, 1), AttrView::Text("raw"@)),
        efi_field(text_av(parsed.2), planned_efi(first, 2), AttrView::Text("4m"@)),
        efi_field(flag_av(parsed.3), planned_efi(first, 3), AttrView::Bool(false)),
    )
}

/// A planned cloud-init entry, else an empty string.
pub open spec fn ci_field(o: Option<AttrValue>) -> AttrView {
    match o {
        Some(a) => attr_view(a),
        None => AttrView::Text(""@),
    }
}

/// The writes of the nested blocks: `network` and `disk` lists rebuilt
/// from the VM's strings for the interfaces and slots the plan has blocks
/// for, the `efidisk` block merged from the VM, the plan and defaults, and
/// the planned `cloudinit` map with its missing entries filled.
pub open spec fn nested_block_writes(vm: QemuConfig, p: VmConfig) -> Seq<(Seq<char>, StateValueView)> {
    (match p.network {
        Some(ns) => seq![("network"@, StateValueView::Networks(nested_networks(vm, ns@, 4)))],
        None => Seq::empty(),
    }) + (match p.disk {
        Some(ds) => seq![("disk"@, StateValueView::Disks(nested_disks(vm, ds@, 9)))],
        None => Seq::empty(),
    }) + (match p.efidisk {
        Some(es) => if es@.len() > 0 {
            seq![("efidisk"@, efidisk_state_view(vm, es@[0]))]
        } else {
            Seq::empty()
        },
        None => Seq::empty(),
    }) + (match p.cloudinit {
        Some(ci) => seq![
            (
                "cloudinit"@,
                StateValueView::CloudInit(
                    ci_field(ci.user),
                    ci_field(ci.password),
                    ci_field(ci.ssh_keys),
                    ci.has_ipconfig,
                ),
            ),
        ],
        None => Seq::empty(),
    })
}

/// Which of interfaces 0 to 3 the planned blocks name.
fn planned_net_ids(ns: &Vec<Option<NetworkBlock>>) -> (r: Vec<bool>)
    ensures
        r@.len() == 4,
        forall|i: int| 0 <= i < 4 ==> #[trigger] r@[i] == planned_net_id(ns@, i as u32),
{
    let mut has: Vec<bool> = vec![false, false, false, false];
    let mut j: usize = 0;
    while j < ns.len()
        invariant
            j <= ns.len(),
            has@.len() == 4,
            forall|i: int|
                0 <= i < 4 ==> #[trigger] has@[i] == exists|m: int|
                    0 <= m < j && #[trigger] network_id_of(ns@[m]) == Some(i as u32),
        decreases ns.len() - j,
    {
        let ghost before = has@;
        match &ns[j] {
            Some(b) => match &b.id {
                Some(n) => {
                    let id = number_to_u32(n);
                    if id < 4 {
                        has.set(id as usize, true);
                    }
                },
                None => {},
            },
            None => {},
        }
        assert forall|i: int| 0 <= i < 4 implies #[trigger] has@[i] == exists|m: int|
            0 <= m < j + 1 && #[trigger] network_id_of(ns@[m]) == Some(i as u32) by {
            if network_id_of(ns@[j as int]) == Some(i as u32) {
                assert(has@[i]);
            } else {
                assert(has@[i] == before[i]);
                if has@[i] {
                    let m = choose|m: int| 0 <= m < j && #[trigger] network_id_of(ns@[m]) == Some(i as u32);
                    assert(0 <= m < j + 1 && network_id_of(ns@[m]) == Some(i as u32));
                } else {
                    assert forall|m: int| 0 <= m < j + 1 implies #[trigger] network_id_of(ns@[m]) != Some(i as u32) by {
                        if m < j {
                        }
                    }
                }
            }
        }
        j = j + 1;
    }
    has
}

/// Which of the nested disk slots the planned blocks name.
fn planned_disk_slots(ds: &Vec<Option<DiskBlock>>) -> (r: Vec<bool>)
    ensures
        r@.len() == 9,
        forall|k: int| 0 <= k < 9 ==> #[trigger] r@[k] == planned_disk_slot(ds@, state_disk_name(k)),
{
    let mut has: Vec<bool> = vec![false, false, false, false, false, false, false, false, false];
    let mut j: usize = 0;
    while j < ds.len()
        invariant
            j <= ds.len(),
            has@.len() == 9,
            forall|k: int|
                0 <= k < 9 ==> #[trigger] has@[k] == exists|m: int|
                    0 <= m < j && #[trigger] disk_slot_of(ds@[m]) == Some(state_disk_name(k)),
        decreases ds.len() - j,
    {
        let ghost before = has@;
        match &ds[j] {
            Some(b) => match &b.slot {
                Some(sl) => {
                    let sc = chars_of(sl.as_str());
                    let mut k: usize = 0;
                    while k < 9
                        invariant
                            k <= 9,
                            has@.len() == 9,
                            sc@ == sl@,
                            forall|i: int| 0 <= i < k ==> #[trigger] has@[i] == (before[i] || sc@ == state_disk_name(i)),
                            forall|i: int| k <= i < 9 ==> #[trigger] has@[i] == before[i],
                        decreases 9 - k,
                    {
                        if eq_str(&sc, state_disk_name_str(k)) {
                            has.set(k, true);
                        }
                        k = k + 1;
                    }
                },
                None => {},
            },
            None => {},
        }
        assert forall|k: int| 0 <= k < 9 implies #[trigger] has@[k] == exists|m: int|
            0 <= m < j + 1 && #[trigger] disk_slot_of(ds@[m]) == Some(state_disk_name(k)) by {
            if disk_slot_of(ds@[j as int]) == Some(state_disk_name(k)) {
                assert(has@[k]);
            } else {
                assert(has@[k] == before[k]);
                if has@[k] {
                    let m = choose|m: int| 0 <= m < j && #[trigger] disk_slot_of(ds@[m]) == Some(state_disk_name(k));
                    assert(0 <= m < j + 1 && disk_slot_of(ds@[m]) == Some(state_disk_name(k)));
                } else {
                    assert forall|m: int| 0 <= m < j + 1 implies #[trigger] disk_slot_of(ds@[m]) != Some(state_disk_name(k)) by {
                        if m < j {
                        }
                    }
                }
            }
        }
        j = j + 1;
    }
    has
}

/// The `network` blocks rebuilt from the VM's strings.
fn nested_network_blocks(vm: &QemuConfig, ns: &Vec<Option<NetworkBlock>>) -> (r: Vec<ParsedNetwork>)
    ensures
        r@.map_values(|n: ParsedNetwork| n@) == nested_networks(*vm, ns@, 4),
{
    let has = planned_net_ids(ns);
    let mut out: Vec<ParsedNetwork> = Vec::new();
    let mut i: usize = 0;
    while i < 4
        invariant
            i <= 4,
            has@.len() == 4,
            forall|k: int| 0 <= k < 4 ==> #[trigger] has@[k] == planned_net_id(ns@, k as u32),
            out@.map_values(|n: ParsedNetwork| n@) == nested_networks(*vm, ns@, i as nat),
        decreases 4 - i,
    {
        let ghost before = out@.map_values(|n: ParsedNetwork| n@);
        if has[i] {
            match qemu_net_ref(vm, i) {
                Some(n) => {
                    let b = QemuVmResource::parse_network_string(n.as_str(), i as u32);
                    out.push(b);
                },
                None => {},
            }
        }
        assert(out@.map_values(|n: ParsedNetwork| n@) =~= before + nested_net_entry(*vm, ns@, i as nat));
        i = i + 1;
    }
    out
}

/// The `disk` blocks rebuilt from the VM's strings.
fn nested_disk_blocks(vm: &QemuConfig, ds: &Vec<Option<DiskBlock>>) -> (r: Vec<ParsedDisk>)
    ensures
        r@.map_values(|d: ParsedDisk| d@) == nested_disks(*vm, ds@, 9),
{
    let has = planned_disk_slots(ds);
    let mut out: Vec<ParsedDisk> = Vec::new();
    let mut k: usize = 0;
    while k < 9
        invariant
            k <= 9,
            has@.len() == 9,
            forall|i: int| 0 <= i < 9 ==> #[trigger] has@[i] == planned_disk_slot(ds@, state_disk_name(i)),
            out@.map_values(|d: ParsedDisk| d@) == nested_disks(*vm, ds@, k as nat),
        decreases 9 - k,
    {
        let ghost before = out@.map_values(|d: ParsedDisk| d@);
        if has[k] {
            match qemu_disk_ref(vm, k) {
                Some(d) => {
                    let b = QemuVmResource::parse_disk_string(d.as_str(), state_disk_name_str(k));
                    out.push(b);
                },
                None => {},
            }
        }
        assert(out@.map_values(|d: ParsedDisk| d@) =~= before + nested_disk_entry(*vm, ds@, k as nat));
        k = k + 1;
    }
    out
}

/// An `efidisk` entry: what Proxmox returned, else the planned value, else
/// `default`.
fn efi_entry(parsed: Option<AttrValue>, planned: &Option<AttrValue>, default: AttrValue) -> (r: AttrValue)
    requires
        parsed matches Some(v) ==> !(v is Null),
    ensures
        attr_view(r) == efi_field(
            match parsed {
                Some(v) => Some(attr_view(v)),
                None => None,
            },
            *planned,
            attr_view(default),
        ),
{
    match parsed {
        Some(v) => v,
        None => match planned {
            Some(a) => {
                clone_attr(a)
            },
            None => default,
        },
    }
}

/// The `efidisk` block written to state.
fn efidisk_state(vm: &QemuConfig, first: &Option<EfiDiskBlock>) -> (r: EfiDiskState)
    ensures
        value_view(StateValue::EfiDisk(r)) == efidisk_state_view(*vm, *first),
{
    let ghost parsed = efi_parsed(vm.efidisk0);
    let mut storage: Option<AttrValue> = None;
    let mut format: Option<AttrValue> = None;
    let mut efitype: Option<AttrValue> = None;
    let mut keys: Option<AttrValue> = None;
    match &vm.efidisk0 {
        Some(cfg) => {
            let cs = chars_of(cfg.as_str());
            let parts = split_chars(&cs, ',');
            let ghost pv = split_spec(cs@, ',');
            proof {
                lemma_split_len(cs@, ',');
            }
            match split_once_chars(&parts[0], ':') {
                Some((st, _)) => {
                    storage = Some(AttrValue::Text(string_of(&st)));
                },
                None => {},
            }
            let mut rest: Vec<Vec<char>> = Vec::new();
            let mut i: usize = 1;
            while i < parts.len()
                invariant
                    1 <= i <= parts.len(),
                    views(parts@) == pv,
                    views(rest@) == pv.subrange(1, i as int),
                decreases parts.len() - i,
            {
                let ghost before = views(rest@);
                rest.push(parts[i].clone());
                assert(views(rest@) =~= before.push(pv[i as int]));
                assert(pv.subrange(1, i + 1) =~= pv.subrange(1, i as int).push(pv[i as int]));
                i = i + 1;
            }
            assert(pv.subrange(1, pv.len() as int) =~= pv.drop_first());
            match last_for_key(&rest, "format") {
                Some(v) => {
                    format = Some(AttrValue::Text(string_of(&v)));
                },
                None => {},
            }
            match last_for_key(&rest, "efitype") {
                Some(v) => {
                    efitype = Some(AttrValue::Text(string_of(&v)));
                },
                None => {},
            }
            match last_for_key(&rest, "pre-enrolled-keys") {
                Some(v) => {
                    keys = Some(AttrValue::Bool(eq_str(&v, "1") || eq_str(&v, "true")));
                },
                None => {},
            }
        },
        None => {},
    }
    assert(text_av(parsed.0) == match storage {
        Some(v) => Some(attr_view(v)),
        None => None,
    });
    let (p0, p1, p2, p3) = match first {
        Some(b) => (&b.storage, &b.format, &b.efitype, &b.pre_enrolled_keys),
        None => (&None, &None, &None, &None),
    };
    EfiDiskState {
        storage: efi_entry(storage, p0, AttrValue::Text(String::from_str(""))),
        format: efi_entry(format, p1, AttrValue::Text(String::from_str("raw"))),
        efitype: efi_entry(efitype, p2, AttrValue::Text(String::from_str("4m"))),
        pre_enrolled_keys: efi_entry(keys, p3, AttrValue::Bool(false)),
    }
}

/// A planned cloud-init entry, else an empty string.
fn ci_entry(o: &Option<AttrValue>) -> (r: AttrValue)
    ensures
        attr_view(r) == ci_field(*o),
{
    match o {
        Some(a) => {
            clone_attr(a)
        },
        None => AttrValue::Text(String::from_str("")),
    }
}

impl QemuVmResource {
    /// Appends the writes that refresh a state from the VM's configuration,
    /// then the writes of the nested blocks the plan has.
    pub fn populate_state_with_nested_blocks(
        state: &mut Vec<StateWrite>,
        vm_config: &QemuConfig,
        planned_state: &VmConfig,
    )
        ensures
            writes_view(final(state)@) == writes_view(old(state)@) + from_config_writes(
                *vm_config,
                *planned_state,
            ) + nested_block_writes(*vm_config, *planned_state),
    {
        QemuVmResource::populate_state_from_config(state, vm_config, planned_state);
        let ghost mid = writes_view(state@);
        let vm = vm_config;
        let p = planned_state;
        match &p.network {
            Some(ns) => {
                let blocks = nested_network_blocks(vm, ns);
                push_write(state, "network", StateValue::Networks(blocks));
            },
            None => {},
        }
        let ghost w1 = writes_view(state@);
        match &p.disk {
            Some(ds) => {
                let blocks = nested_disk_blocks(vm, ds);
                push_write(state, "disk", StateValue::Disks(blocks));
            },
            None => {},
        }
        let ghost w2 = writes_view(state@);
        match &p.efidisk {
            Some(es) => {
                if es.len() > 0 {
                    let e = efidisk_state(vm, &es[0]);
                    push_write(state, "efidisk", StateValue::EfiDisk(e));
                }
            },
            None => {},
        }
        let ghost w3 = writes_view(state@);
        match &p.cloudinit {
            Some(ci) => {
                let c = CloudInitState {
                    user: ci_entry(&ci.user),
                    password: ci_entry(&ci.password),
                    ssh_keys: ci_entry(&ci.ssh_keys),
                    ipconfig_from_plan: ci.has_ipconfig,
                };
                push_write(state, "cloudinit", StateValue::CloudInit(c));
            },
            None => {},
        }
        assert(writes_view(state@) =~= mid + nested_block_writes(*vm, *p));
    }
}

/// Whether some write names attribute `name`.
pub open spec fn writes_name(w: Seq<(Seq<char>, StateValueView)>, name: Seq<char>) -> bool {
    exists|j: int| 0 <= j < w.len() && #[trigger] w[j].0 == name
}

/// After a failed creation the state holds every attribute and block of
/// the resource's schema, once the plan holds the VM's node, id and name.
pub proof fn lemma_failed_create_covers_schema(p: VmConfig)
    requires
        text_view(p.target_node) is Some,
        number_bits(p.vmid) is Some,
        text_view(p.name) is Some,
    ensures
        forall|i: int|
            0 <= i < vm_attributes().len() ==> writes_name(
                all_attribute_writes(p),
                #[trigger] vm_attributes()[i].name,
            ),
        forall|i: int|
            0 <= i < vm_blocks().len() ==> writes_name(
                all_attribute_writes(p),
                #[trigger] vm_blocks()[i].block_name,
            ),
{
    let w = all_attribute_writes(p);
    let attrs = vm_attributes();
    let blocks = vm_blocks();
    assert(w.len() >= 45);
    assert(attrs[0].name == "vmid"@ && w[1].0 == "vmid"@);
    assert(attrs[1].name == "name"@ && w[2].0 == "name"@);
    assert(attrs[2].name == "target_node"@ && w[0].0 == "target_node"@);
    assert(attrs[3].name == "tags"@ && w[38].0 == "tags"@);
    assert(attrs[4].name == "clone"@ && w[3].0 == "clone"@);
    assert(attrs[5].name == "full_clone"@ && w[4].0 == "full_clone"@);
    assert(attrs[6].name == "os_type"@ && w[5].0 == "os_type"@);
    assert(attrs[7].name == "bios"@ && w[6].0 == "bios"@);
    assert(attrs[8].name == "machine"@ && w[7].0 == "machine"@);
    assert(attrs[9].name == "cpu_type"@ && w[8].0 == "cpu_type"@);
    assert(attrs[10].name == "cores"@ && w[9].0 == "cores"@);
    assert(attrs[11].name == "sockets"@ && w[10].0 == "sockets"@);
    assert(attrs[12].name == "vcpus"@ && w[11].0 == "vcpus"@);
    assert(attrs[13].name == "memory"@ && w[12].0 == "memory"@);
    assert(attrs[14].name == "balloon"@ && w[13].0 == "balloon"@);
    assert(attrs[15].name == "boot"@ && w[14].0 == "boot"@);
    assert(attrs[16].name == "bootdisk"@ && w[15].0 == "bootdisk"@);
    assert(attrs[17].name == "onboot"@ && w[16].0 == "onboot"@);
    assert(attrs[18].name == "scsihw"@ && w[17].0 == "scsihw"@);
    assert(attrs[19].name == "agent"@ && w[18].0 == "agent"@);
    assert(attrs[20].name == "qemu_os"@ && w[19].0 == "qemu_os"@);
    assert(attrs[21].name == "ipconfig0"@ && w[20].0 == "ipconfig0"@);
    assert(attrs[22].name == "ipconfig1"@ && w[21].0 == "ipconfig1"@);
    assert(attrs[23].name == "ipconfig2"@ && w[22].0 == "ipconfig2"@);
    assert(attrs[24].name == "ipconfig3"@ && w[23].0 == "ipconfig3"@);
    assert(attrs[25].name == "ciuser"@ && w[24].0 == "ciuser"@);
    assert(attrs[26].name == "cipassword"@ && w[25].0 == "cipassword"@);
    assert(attrs[27].name == "ciupgrade"@ && w[26].0 == "ciupgrade"@);
    assert(attrs[28].name == "sshkeys"@ && w[27].0 == "sshkeys"@);
    assert(attrs[29].name == "skip_ipv4"@ && w[28].0 == "skip_ipv4"@);
    assert(attrs[30].name == "skip_ipv6"@ && w[29].0 == "skip_ipv6"@);
    assert(attrs[31].name == "additional_wait"@ && w[30].0 == "additional_wait"@);
    assert(attrs[32].name == "automatic_reboot"@ && w[31].0 == "automatic_reboot"@);
    assert(attrs[33].name == "clone_wait"@ && w[32].0 == "clone_wait"@);
    assert(attrs[34].name == "define_connection_info"@ && w[33].0 == "define_connection_info"@);
    assert(attrs[35].name == "description"@ && w[34].0 == "description"@);
    assert(attrs[36].name == "start"@ && w[35].0 == "start"@);
    assert(attrs[37].name == "tablet"@ && w[36].0 == "tablet"@);
    assert(attrs[38].name == "protection"@ && w[37].0 == "protection"@);
    assert(blocks[0].block_name == "network"@ && w[39].0 == "network"@);
    assert(blocks[1].block_name == "disk"@ && w[40].0 == "disk"@);
    assert(blocks[2].block_name == "cdrom"@ && w[41].0 == "cdrom"@);
    assert(blocks[3].block_name == "cloudinit_drive"@ && w[42].0 == "cloudinit_drive"@);
    assert(blocks[4].block_name == "serial"@ && w[43].0 == "serial"@);
    assert(blocks[5].block_name == "efidisk"@ && w[44].0 == "efidisk"@);
    assert forall|i: int| 0 <= i < attrs.len() implies writes_name(w, #[trigger] attrs[i].name) by {
        if i == 0 {
            assert(w[1].0 == attrs[i].name);
        }         else if i == 1 {
            assert(w[2].0 == attrs[i].name);
        }         else if i == 2 {
            assert(w[0].0 == attrs[i].name);
        }         else if i == 3 {
            assert(w[38].0 == attrs[i].name);
        }         else if i == 4 {
            assert(w[3].0 == attrs[i].name);
        }         else if i == 5 {
            assert(w[4].0 == attrs[i].name);
        }         else if i == 6 {
            assert(w[5].0 == attrs[i].name);
        }         else if i == 7 {
            assert(w[6].0 == attrs[i].name);
        }         else if i == 8 {
            assert(w[7].0 == attrs[i].name);
        }         else if i == 9 {
            assert(w[8].0 == attrs[i].name);
        }         else if i == 10 {
            assert(w[9].0 == attrs[i].name);
        }         else if i == 11 {
            assert(w[10].0 == attrs[i].name);
        }         else if i == 12 {
            assert(w[11].0 == attrs[i].name);
        }         else if i == 13 {
            assert(w[12].0 == attrs[i].name);
        }         else if i == 14 {
            assert(w[13].0 == attrs[i].name);
        }         else if i == 15 {
            assert(w[14].0 == attrs[i].name);
        }         else if i == 16 {
            assert(w[15].0 == attrs[i].name);
        }         else if i == 17 {
            assert(w[16].0 == attrs[i].name);
        }         else if i == 18 {
            assert(w[17].0 == attrs[i].name);
        }         else if i == 19 {
            assert(w[18].0 == attrs[i].name);
        }         else if i == 20 {
            assert(w[19].0 == attrs[i].name);
        }         else if i == 21 {
            assert(w[20].0 == attrs[i].name);
        }         else if i == 22 {
            assert(w[21].0 == attrs[i].name);
        }         else if i == 23 {
            assert(w[22].0 == attrs[i].name);
        }         else if i == 24 {
            assert(w[23].0 == attrs[i].name);
        }         else if i == 25 {
            assert(w[24].0 == attrs[i].name);
        }         else if i == 26 {
            assert(w[25].0 == attrs[i].name);
        }         else if i == 27 {
            assert(w[26].0 == attrs[i].name);
        }         else if i == 28 {
            assert(w[27].0 == attrs[i].name);
        }         else if i == 29 {
            assert(w[28].0 == attrs[i].name);
        }         else if i == 30 {
            assert(w[29].0 == attrs[i].name);
        }         else if i == 31 {
            assert(w[30].0 == attrs[i].name);
        }         else if i == 32 {
            assert(w[31].0 == attrs[i].name);
        }         else if i == 33 {
            assert(w[32].0 == attrs[i].name);
        }         else if i == 34 {
            assert(w[33].0 == attrs[i].name);
        }         else if i == 35 {
            assert(w[34].0 == attrs[i].name);
        }         else if i == 36 {
            assert(w[35].0 == attrs[i].name);
        }         else if i == 37 {
            assert(w[36].0 == attrs[i].name);
        }         else if i == 38 {
            assert(w[37].0 == attrs[i].name);
        }
    }
    assert forall|i: int| 0 <= i < blocks.len() implies writes_name(w, #[trigger] blocks[i].block_name) by {
        if i == 0 {
            assert(w[39].0 == blocks[i].block_name);
        }         else if i == 1 {
            assert(w[40].0 == blocks[i].block_name);
        }         else if i == 2 {
            assert(w[41].0 == blocks[i].block_name);
        }         else if i == 3 {
            assert(w[42].0 == blocks[i].block_name);
        }         else if i == 4 {
            assert(w[43].0 == blocks[i].block_name);
        }         else if i == 5 {
            assert(w[44].0 == blocks[i].block_name);
        }
    }
}

/// Whether a write names attribute `name`.
pub open spec fn is_write_of(name: Seq<char>) -> spec_fn((Seq<char>, StateValueView)) -> bool {
    |w: (Seq<char>, StateValueView)| w.0 == name
}

/// The writes among `ws` that name attribute `name`, in order.
pub open spec fn writes_named(ws: Seq<(Seq<char>, StateValueView)>, name: Seq<char>) -> Seq<
    (Seq<char>, StateValueView),
> {
    ws.filter(is_write_of(name))
}

/// Picking the writes of one attribute distributes over appending.
pub proof fn lemma_writes_named_add(
    a: Seq<(Seq<char>, StateValueView)>,
    b: Seq<(Seq<char>, StateValueView)>,
    name: Seq<char>,
)
    ensures
        writes_named(a + b, name) == writes_named(a, name) + writes_named(b, name),
{
    Seq::filter_distributes_over_add(a, b, is_write_of(name));
}

/// A write of attribute `n`, when there is one, is picked for `name`
/// exactly when `n` is `name`.
pub proof fn lemma_writes_named_api(
    n: Seq<char>,
    api: Option<StateValueView>,
    planned: bool,
    default: StateValueView,
    name: Seq<char>,
)
    ensures
        writes_named(api_or_default(n, api, planned, default), name) == if n == name {
            api_or_default(n, api, planned, default)
        } else {
            Seq::empty()
        },
        writes_named(api_write(n, api), name) == if n == name {
            api_write(n, api)
        } else {
            Seq::empty()
        },
{
    reveal(Seq::filter);
    let e = Seq::<(Seq<char>, StateValueView)>::empty();
    assert(e.filter(is_write_of(name)) == e);
    match api {
        Some(v) => {
            assert(seq![(n, v)].drop_last() =~= e);
        },
        None => {
            assert(seq![(n, default)].drop_last() =~= e);
        },
    }
}

/// A write of attribute `n`, when there is one, is picked for `name`
/// exactly when `n` is `name`, for every `n` and `name`.
pub proof fn lemma_writes_named_api_all()
    ensures
        forall|n: Seq<char>, api: Option<StateValueView>, name: Seq<char>|
            #[trigger] writes_named(api_write(n, api), name) == if n == name {
                api_write(n, api)
            } else {
                Seq::empty()
            },
{
    assert forall|n: Seq<char>, api: Option<StateValueView>, name: Seq<char>|
        #[trigger] writes_named(api_write(n, api), name) == if n == name {
            api_write(n, api)
        } else {
            Seq::empty()
        } by {
        lemma_writes_named_api(n, api, false, StateValueView::FromPlanned, name);
    }
}

proof fn lemma_state_disk_names_distinct()
    ensures
        forall|i: int, j: int|
            0 <= i < 10 && 0 <= j < 10 && i != j ==> #[trigger] state_disk_name(i) != #[trigger] state_disk_name(j),
{
    reveal_strlit("scsi0");
    reveal_strlit("scsi1");
    reveal_strlit("scsi2");
    reveal_strlit("scsi3");
    reveal_strlit("virtio0");
    reveal_strlit("virtio1");
    reveal_strlit("ide0");
    reveal_strlit("ide2");
    reveal_strlit("sata0");
    reveal_strlit("efidisk0");
    assert("scsi0"@[4] != "scsi1"@[4] && "scsi0"@[4] != "scsi2"@[4] && "scsi0"@[4] != "scsi3"@[4]);
    assert("scsi1"@[4] != "scsi2"@[4] && "scsi1"@[4] != "scsi3"@[4] && "scsi2"@[4] != "scsi3"@[4]);
    assert("scsi0"@[1] != "sata0"@[1]);
    assert("ide0"@[3] != "ide2"@[3]);
    assert("virtio0"@[6] != "virtio1"@[6]);
    assert("efidisk0"@.len() == 8 && "virtio0"@.len() == 7 && "ide0"@.len() == 4 && "scsi0"@.len() == 5);
}

proof fn lemma_disk_writes_named_upto(vm: QemuConfig, p: VmConfig, n: nat, j: int)
    requires
        n <= 10,
        0 <= j < 10,
    ensures
        writes_named(disk_state_writes(vm, p, n), state_disk_name(j)) == if j < n {
            disk_state_write(vm, p, j)
        } else {
            Seq::empty()
        },
    decreases n,
{
    let name = state_disk_name(j);
    if n == 0 {
        reveal(Seq::filter);
    } else {
        let k = n - 1;
        lemma_disk_writes_named_upto(vm, p, (n - 1) as nat, j);
        lemma_writes_named_add(disk_state_writes(vm, p, (n - 1) as nat), disk_state_write(vm, p, k), name);
        lemma_writes_named_api(
            state_disk_name(k),
            match qemu_disk(vm, k) {
                Some(d) => Some(StateValueView::Text(normalize_disk_spec(d@, text_view(planned_disk(p, k))))),
                None => None,
            },
            text_view(planned_disk(p, k)) is Some,
            StateValueView::Text(""@),
            name,
        );
        lemma_state_disk_names_distinct();
        if j < k {
            assert(state_disk_name(k) != name);
            assert(writes_named(disk_state_writes(vm, p, n), name) =~= disk_state_write(vm, p, j));
        } else if j == k {
            assert(writes_named(disk_state_writes(vm, p, n), name) =~= disk_state_write(vm, p, j));
        } else {
            assert(state_disk_name(k) != name);
            assert(writes_named(disk_state_writes(vm, p, n), name) =~= Seq::<(Seq<char>, StateValueView)>::empty());
        }
    }
}

/// Refreshing the disk attributes writes each of `scsi0` to `scsi3`,
/// `virtio0`, `virtio1`, `ide0`, `ide2`, `sata0` and `efidisk0` once at
/// most, from the VM's disk string of that same name normalized against the
/// planned attribute of that name; where the VM has none, an empty string
/// when the plan holds the attribute, else nothing.
#[verifier::spinoff_prover]
pub proof fn lemma_disk_state_writes_by_name(vm: QemuConfig, p: VmConfig)
    ensures
        ({
            let ws = disk_state_writes(vm, p, 10);
            &&& vm.scsi0 matches Some(d) ==> writes_named(ws, "scsi0"@) == seq![
                ("scsi0"@, StateValueView::Text(normalize_disk_spec(d@, text_view(nth_attr(p.scsi@, 0))))),
            ]
            &&& vm.scsi0 is None ==> writes_named(ws, "scsi0"@) == if text_view(nth_attr(p.scsi@, 0)) is Some {
                seq![("scsi0"@, StateValueView::Text(""@))]
            } else {
                Seq::empty()
            }
            &&& vm.scsi1 matches Some(d) ==> writes_named(ws, "scsi1"@) == seq![
                ("scsi1"@, StateValueView::Text(normalize_disk_spec(d@, text_view(nth_attr(p.scsi@, 1))))),
            ]
            &&& vm.scsi1 is None ==> writes_named(ws, "scsi1"@) == if text_view(nth_attr(p.scsi@, 1)) is Some {
                seq![("scsi1"@, StateValueView::Text(""@))]
            } else {
                Seq::empty()
            }
            &&& vm.scsi2 matches Some(d) ==> writes_named(ws, "scsi2"@) == seq![
                ("scsi2"@, StateValueView::Text(normalize_disk_spec(d@, text_view(nth_attr(p.scsi@, 2))))),
            ]
            &&& vm.scsi2 is None ==> writes_named(ws, "scsi2"@) == if text_view(nth_attr(p.scsi@, 2)) is Some {
                seq![("scsi2"@, StateValueView::Text(""@))]
            } else {
                Seq::empty()
            }
            &&& vm.scsi3 matches Some(d) ==> writes_named(ws, "scsi3"@) == seq![
                ("scsi3"@, StateValueView::Text(normalize_disk_spec(d@, text_view(nth_attr(p.scsi@, 3))))),
            ]
            &&& vm.scsi3 is None ==> writes_named(ws, "scsi3"@) == if text_view(nth_attr(p.scsi@, 3)) is Some {
                seq![("scsi3"@, StateValueView::Text(""@))]
            } else {
                Seq::empty()
            }
            &&& vm.virtio0 matches Some(d) ==> writes_named(ws, "virtio0"@) == seq![
                ("virtio0"@, StateValueView::Text(normalize_disk_spec(d@, text_view(nth_attr(p.virtio@, 0))))),
            ]
            &&& vm.virtio0 is None ==> writes_named(ws, "virtio0"@) == if text_view(nth_attr(p.virtio@, 0)) is Some {
                seq![("virtio0"@, StateValueView::Text(""@))]
            } else {
                Seq::empty()
            }
            &&& vm.virtio1 matches Some(d) ==> writes_named(ws, "virtio1"@) == seq![
                ("virtio1"@, StateValueView::Text(normalize_disk_spec(d@, text_view(nth_attr(p.virtio@, 1))))),
            ]
            &&& vm.virtio1 is None ==> writes_named(ws, "virtio1"@) == if text_view(nth_attr(p.virtio@, 1)) is Some {
                seq![("virtio1"@, StateValueView::Text(""@))]
            } else {
                Seq::empty()
            }
            &&& vm.ide0 matches Some(d) ==> writes_named(ws, "ide0"@) == seq![
                ("ide0"@, StateValueView::Text(normalize_disk_spec(d@, text_view(nth_attr(p.ide@, 0))))),
            ]
            &&& vm.ide0 is None ==> writes_named(ws, "ide0"@) == if text_view(nth_attr(p.ide@, 0)) is Some {
                seq![("ide0"@, StateValueView::Text(""@))]
            } else {
                Seq::empty()
            }
            &&& vm.ide2 matches Some(d) ==> writes_named(ws, "ide2"@) == seq![
                ("ide2"@, StateValueView::Text(normalize_disk_spec(d@, text_view(nth_attr(p.ide@, 2))))),
            ]
            &&& vm.ide2 is None ==> writes_named(ws, "ide2"@) == if text_view(nth_attr(p.ide@, 2)) is Some {
                seq![("ide2"@, StateValueView::Text(""@))]
            } else {
                Seq::empty()
            }
            &&& vm.sata0 matches Some(d) ==> writes_named(ws, "sata0"@) == seq![
                ("sata0"@, StateValueView::Text(normalize_disk_spec(d@, text_view(nth_attr(p.sata@, 0))))),
            ]
            &&& vm.sata0 is None ==> writes_named(ws, "sata0"@) == if text_view(nth_attr(p.sata@, 0)) is Some {
                seq![("sata0"@, StateValueView::Text(""@))]
            } else {
                Seq::empty()
            }
            &&& vm.efidisk0 matches Some(d) ==> writes_named(ws, "efidisk0"@) == seq![
                ("efidisk0"@, StateValueView::Text(normalize_disk_spec(d@, text_view(p.efidisk0)))),
            ]
            &&& vm.efidisk0 is None ==> writes_named(ws, "efidisk0"@) == if text_view(p.efidisk0) is Some {
                seq![("efidisk0"@, StateValueView::Text(""@))]
            } else {
                Seq::empty()
            }
        }),
{
    lemma_disk_writes_named_upto(vm, p, 10, 0);
    lemma_disk_writes_named_upto(vm, p, 10, 1);
    lemma_disk_writes_named_upto(vm, p, 10, 2);
    lemma_disk_writes_named_upto(vm, p, 10, 3);
    lemma_disk_writes_named_upto(vm, p, 10, 4);
    lemma_disk_writes_named_upto(vm, p, 10, 5);
    lemma_disk_writes_named_upto(vm, p, 10, 6);
    lemma_disk_writes_named_upto(vm, p, 10, 7);
    lemma_disk_writes_named_upto(vm, p, 10, 8);
    lemma_disk_writes_named_upto(vm, p, 10, 9);
}

} // verus!
