//! The decisions of the VM resource's operations. Each operation calls the
//! Proxmox API between decisions: a function here says what to call next,
//! and the one after takes what the call returned.
use vstd::prelude::*;
use vstd::string::*;
use crate::text::{chars_of, contains_seq, contains_str, eq_str, nat_decimal, push_str, push_u64, split_chars, split_spec, string_of, views, lemma_split_len};
use crate::number::{is_positive, number_is_positive, number_to_u32, number_to_u64, trunc_u32, trunc_u64};
use crate::values::{Diagnostic, Severity, diag_view, diag_views, number_bits, number_of, text_of, text_view};
use crate::api::common::TaskId;
use crate::api::error::{ApiError, api_error_text};
use crate::api::nodes::qemu::{CreateQemuRequest, QemuConfig, QemuStatus, QemuVmInfo, UpdateQemuRequest};
use crate::api::numeric::{parse_u32, parse_unsigned};
use crate::provider::ProxmoxProviderData;
use crate::resources::nodes::vm_config::{VmConfig, nonempty_list};
use crate::resources::nodes::vm_request::{create_request_spec, opt_u32, update_request_spec};
use crate::resources::nodes::vm_state::{
    StateValue, StateValueView, StateWrite, all_attribute_writes, from_config_writes,
    nested_block_writes, push_write, text_sv, api_write, writes_view, writes_named,
    lemma_writes_named_add, lemma_writes_named_api_all,
};
use crate::resources::nodes::resource_vm::QemuVmResource;

verus! {

/// What a resource is handed when it is configured.
pub enum ProviderDataArg {
    /// Nothing was handed over.
    Missing,
    /// Data of another kind than the Proxmox provider's.
    Foreign,
    Proxmox(ProxmoxProviderData),
}

/// The detail of an API failure: `prefix` followed by the error's text.
pub fn api_error_detail(prefix: &str, e: &ApiError) -> (r: String)
    ensures
        r@ == prefix@ + api_error_text(*e),
{
    let mut out = chars_of(prefix);
    let m = e.message();
    push_str(&mut out, m.as_str());
    string_of(&out)
}

/// A single error diagnostic whose detail is `prefix` and the error's text.
fn api_failure(summary: &str, prefix: &str, e: &ApiError) -> (r: Diagnostic)
    ensures
        diag_view(r) == (Severity::Error, summary@, prefix@ + api_error_text(*e)),
{
    Diagnostic { severity: Severity::Error, summary: String::from_str(summary), detail: api_error_detail(prefix, e) }
}

/// The error reported when the resource has not been configured.
pub open spec fn not_configured() -> (Severity, Seq<char>, Seq<char>) {
    (Severity::Error, "Provider not configured"@, "Provider data was not properly configured"@)
}

/// How a create ends: the writes to apply to the planned state, and the
/// diagnostics.
pub struct CreateOutcome {
    pub writes: Vec<StateWrite>,
    pub diagnostics: Vec<Diagnostic>,
}

/// The first step of a create: finish at once, or send the create request
/// for VM `vmid` to node `node`.
pub enum CreateStep {
    Finish(CreateOutcome),
    Send { node: String, vmid: u32, request: CreateQemuRequest },
}

/// How a read ends: the resource is gone, the current state stays, or the
/// current state is refreshed by the writes.
pub enum ReadState {
    Removed,
    Current,
    Refreshed(Vec<StateWrite>),
}

/// How a read ends, with its diagnostics.
pub struct ReadOutcome {
    pub new_state: ReadState,
    pub diagnostics: Vec<Diagnostic>,
}

/// A step of a read: finish, fetch the VM's configuration, or list the
/// node's VMs to learn whether VM `vmid` exists.
pub enum ReadStep {
    Finish(ReadOutcome),
    FetchConfig { node: String, vmid: u32 },
    ListVms { node: String, vmid: u32 },
}

/// Which state an update leaves: the planned one or the prior one.
#[derive(Clone, Copy, PartialEq, Eq, Structural)]
pub enum UpdateState {
    Planned,
    Prior,
}

/// How an update ends, with its diagnostics.
pub struct UpdateOutcome {
    pub new_state: UpdateState,
    pub diagnostics: Vec<Diagnostic>,
}

/// The first step of an update: finish at once; report that `attribute`
/// could not be read (the update then ends as `update_on_missing_attribute`
/// says: an error with `summary`, whose detail is the read's own error, and
/// the prior state); or send the update request.
pub enum UpdateStep {
    Finish(UpdateOutcome),
    MissingAttribute { summary: String, attribute: String },
    Send { node: String, vmid: u32, request: UpdateQemuRequest },
}

/// What a delete does next: stop the VM, or send the delete request after
/// waiting `wait_secs` seconds, with `purge` saying whether the VM's disks
/// are purged too.
pub enum DeleteAction {
    Stop,
    Delete { wait_secs: Option<u64>, purge: bool },
}

/// Whether an API error says that the VM does not exist.
pub open spec fn is_not_found(e: ApiError) -> bool {
    match e {
        ApiError::ApiError { status, message, .. } => status == 404 || contains_seq(
            message@,
            "does not exist"@,
        ) || contains_seq(message@, "not found"@),
        _ => false,
    }
}

/// Whether any listed VM has id `vmid`.
pub open spec fn lists_vmid(vms: Seq<QemuVmInfo>, vmid: u32) -> bool {
    exists|i: int| 0 <= i < vms.len() && #[trigger] vms[i].vmid == vmid
}

/// Whether a state holds nested blocks: a `network` or `disk` list, or a
/// non-empty `efidisk` list.
pub open spec fn has_nested_blocks(c: VmConfig) -> bool {
    c.network is Some || c.disk is Some || nonempty_list(c.efidisk)
}

/// The writes that refresh a state from the VM's configuration.
pub open spec fn refresh_writes(vm: QemuConfig, current: VmConfig) -> Seq<(Seq<char>, StateValueView)> {
    if has_nested_blocks(current) {
        from_config_writes(vm, current) + nested_block_writes(vm, current)
    } else {
        from_config_writes(vm, current)
    }
}

/// The import id split at `/`: exactly a node and a VM id.
pub open spec fn import_parts(id: Seq<char>) -> Option<(Seq<char>, Seq<char>)> {
    let parts = split_spec(id, '/');
    if parts.len() == 2 {
        Some((parts[0], parts[1]))
    } else {
        None
    }
}

/// The state of an imported VM: its node and id, then what its
/// configuration gives of the name, cores, memory, sockets, CPU, BIOS,
/// OS type, description and EFI disk.
pub open spec fn import_writes(node: Seq<char>, vmid: u32, vm: QemuConfig) -> Seq<
    (Seq<char>, StateValueView),
> {
    seq![("target_node"@, StateValueView::Text(node)), ("vmid"@, StateValueView::Whole(vmid as u64))]
        + api_write("name"@, text_sv(vm.name)) + api_write(
        "cores"@,
        match vm.cores {
            Some(c) => Some(StateValueView::Whole(c as u64)),
            None => None,
        },
    ) + api_write(
        "memory"@,
        match vm.memory {
            Some(m) => Some(StateValueView::Whole(m)),
            None => None,
        },
    ) + api_write(
        "sockets"@,
        match vm.sockets {
            Some(s) => Some(StateValueView::Whole(s as u64)),
            None => None,
        },
    ) + api_write("cpu"@, text_sv(vm.cpu)) + api_write("bios"@, text_sv(vm.bios)) + api_write(
        "ostype"@,
        text_sv(vm.ostype),
    ) + api_write("description"@, text_sv(vm.description)) + api_write(
        "efidisk0"@,
        text_sv(vm.efidisk0),
    )
}

/// Appends a write of the VM's string, when it has one.
fn push_api_text(state: &mut Vec<StateWrite>, name: &str, o: &Option<String>)
    ensures
        writes_view(final(state)@) == writes_view(old(state)@) + api_write(name@, text_sv(*o)),
{
    match o {
        Some(s) => push_write(state, name, StateValue::Text(s.clone())),
        None => {},
    }
    assert(writes_view(state@) =~= writes_view(old(state)@) + api_write(name@, text_sv(*o)));
}

/// Appends a write of the VM's count, when it has one.
fn push_api_whole(state: &mut Vec<StateWrite>, name: &str, o: Option<u64>)
    ensures
        writes_view(final(state)@) == writes_view(old(state)@) + api_write(
            name@,
            match o {
                Some(n) => Some(StateValueView::Whole(n)),
                None => None,
            },
        ),
{
    match o {
        Some(n) => push_write(state, name, StateValue::Whole(n)),
        None => {},
    }
    assert(writes_view(state@) =~= writes_view(old(state)@) + api_write(
        name@,
        match o {
            Some(n) => Some(StateValueView::Whole(n)),
            None => None,
        },
    ));
}

impl QemuVmResource {
    /// Takes the provider's data: an error when none or other data is
    /// handed over, which leaves the resource as it was.
    pub fn configure(&mut self, data: ProviderDataArg) -> (r: Vec<Diagnostic>)
        ensures
            match data {
                ProviderDataArg::Missing => diag_views(r@) == seq![
                    (Severity::Error, "No provider data"@, "No provider data was provided to the resource"@),
                ] && final(self).provider_data == old(self).provider_data,
                ProviderDataArg::Foreign => diag_views(r@) == seq![
                    (
                        Severity::Error,
                        "Invalid provider data"@,
                        "Failed to extract ProxmoxProviderData from provider data"@,
                    ),
                ] && final(self).provider_data == old(self).provider_data,
                ProviderDataArg::Proxmox(d) => r@.len() == 0 && final(self).provider_data == Some(d),
            },
    {
        let mut diagnostics: Vec<Diagnostic> = Vec::new();
        match data {
            ProviderDataArg::Missing => {
                diagnostics.push(
                    Diagnostic::error("No provider data", "No provider data was provided to the resource"),
                );
            },
            ProviderDataArg::Foreign => {
                diagnostics.push(
                    Diagnostic::error(
                        "Invalid provider data",
                        "Failed to extract ProxmoxProviderData from provider data",
                    ),
                );
            },
            ProviderDataArg::Proxmox(d) => {
                self.provider_data = Some(d);
            },
        }
        assert(diag_views(diagnostics@) =~= diagnostics@.map_values(|d: Diagnostic| diag_view(d)));
        diagnostics
    }

    /// The first step of a create: an error when the resource is not
    /// configured; the configuration's error, with every attribute given a
    /// value, when it lacks `target_node` or `vmid`; else the create request.
    pub fn create_start(&self, config: &VmConfig, planned_state: &VmConfig) -> (r: CreateStep)
        ensures
            self.provider_data is None ==> (r matches CreateStep::Finish(o) && o.writes@.len() == 0
                && diag_views(o.diagnostics@) == seq![not_configured()]),
            self.provider_data is Some && (text_view(config.target_node) is None || number_bits(
                config.vmid,
            ) is None) ==> (r matches CreateStep::Finish(o) && writes_view(o.writes@)
                == all_attribute_writes(*planned_state) && diag_views(o.diagnostics@) == seq![
                if text_view(config.target_node) is None {
                    (Severity::Error, "Missing target_node"@, "The 'target_node' attribute is required"@)
                } else {
                    (Severity::Error, "Missing vmid"@, "The 'vmid' attribute is required"@)
                },
            ]),
            self.provider_data is Some && text_view(config.target_node) is Some && number_bits(
                config.vmid,
            ) is Some ==> (r matches CreateStep::Send { node, vmid, request } && Some(node@)
                == text_view(config.target_node) && Some(vmid) == opt_u32(config.vmid)
                && create_request_spec(request, *config, vmid)),
    {
        if self.provider_data.is_none() {
            let mut diagnostics: Vec<Diagnostic> = Vec::new();
            diagnostics.push(
                Diagnostic::error("Provider not configured", "Provider data was not properly configured"),
            );
            assert(diag_views(diagnostics@) =~= seq![not_configured()]);
            return CreateStep::Finish(CreateOutcome { writes: Vec::new(), diagnostics });
        }
        match self.extract_vm_config(config) {
            Ok((node, vmid, request)) => CreateStep::Send { node, vmid, request },
            Err(d) => {
                let mut writes: Vec<StateWrite> = Vec::new();
                QemuVmResource::populate_all_attributes(&mut writes, planned_state);
                assert(writes_view(writes@) =~= all_attribute_writes(*planned_state)) by {
                    assert(writes_view(Seq::<StateWrite>::empty()) =~= Seq::empty());
                }
                let mut diagnostics: Vec<Diagnostic> = Vec::new();
                diagnostics.push(d);
                assert(diag_views(diagnostics@) =~= seq![diag_view(d)]);
                CreateStep::Finish(CreateOutcome { writes, diagnostics })
            },
        }
    }

    /// After the create request: on success, how many seconds to wait
    /// (`additional_wait` cast to `u64`, when it is a number above zero) and
    /// the planned state; on failure, an error and every attribute given a
    /// value.
    pub fn create_finish(
        config: &VmConfig,
        planned_state: &VmConfig,
        result: &Result<TaskId, ApiError>,
    ) -> (r: (Option<u64>, CreateOutcome))
        ensures
            match result {
                Ok(_) => r.0 == match number_bits(config.additional_wait) {
                    Some(b) => if is_positive(b) {
                        Some(trunc_u64(b))
                    } else {
                        None
                    },
                    None => None,
                } && r.1.writes@.len() == 0 && r.1.diagnostics@.len() == 0,
                Err(e) => r.0 is None && writes_view(r.1.writes@) == all_attribute_writes(
                    *planned_state,
                ) && diag_views(r.1.diagnostics@) == seq![
                    (Severity::Error, "Failed to create VM"@, "API error: "@ + api_error_text(*e)),
                ],
            },
    {
        match result {
            Ok(_) => {
                let wait = match number_of(&config.additional_wait) {
                    Some(n) => {
                        if number_is_positive(n) {
                            Some(number_to_u64(n))
                        } else {
                            None
                        }
                    },
                    None => None,
                };
                (wait, CreateOutcome { writes: Vec::new(), diagnostics: Vec::new() })
            },
            Err(e) => {
                let mut diagnostics: Vec<Diagnostic> = Vec::new();
                diagnostics.push(api_failure("Failed to create VM", "API error: ", e));
                assert(diag_views(diagnostics@) =~= seq![
                    (Severity::Error, "Failed to create VM"@, "API error: "@ + api_error_text(*e)),
                ]);
                let mut writes: Vec<StateWrite> = Vec::new();
                QemuVmResource::populate_all_attributes(&mut writes, planned_state);
                assert(writes_view(writes@) =~= all_attribute_writes(*planned_state)) by {
                    assert(writes_view(Seq::<StateWrite>::empty()) =~= Seq::empty());
                }
                (None, CreateOutcome { writes, diagnostics })
            },
        }
    }

    /// The first step of a read: the resource is gone when the state lacks
    /// `target_node` or `vmid`; an error, keeping the state, when the
    /// resource is not configured; else fetch the VM's configuration.
    pub fn read_start(&self, current_state: &VmConfig) -> (r: ReadStep)
        ensures
            text_view(current_state.target_node) is None || number_bits(current_state.vmid) is None
                ==> (r matches ReadStep::Finish(o) && o.new_state is Removed
                && o.diagnostics@.len() == 0),
            text_view(current_state.target_node) is Some && number_bits(current_state.vmid) is Some
                && self.provider_data is None ==> (r matches ReadStep::Finish(o)
                && o.new_state is Current && diag_views(o.diagnostics@) == seq![not_configured()]),
            text_view(current_state.target_node) is Some && number_bits(current_state.vmid) is Some
                && self.provider_data is Some ==> (r matches ReadStep::FetchConfig { node, vmid }
                && Some(node@) == text_view(current_state.target_node) && Some(vmid) == opt_u32(
                current_state.vmid,
            )),
    {
        let node = match text_of(&current_state.target_node) {
            Some(n) => n,
            None => {
                return ReadStep::Finish(
                    ReadOutcome { new_state: ReadState::Removed, diagnostics: Vec::new() },
                );
            },
        };
        let vmid = match number_of(&current_state.vmid) {
            Some(n) => number_to_u32(n),
            None => {
                return ReadStep::Finish(
                    ReadOutcome { new_state: ReadState::Removed, diagnostics: Vec::new() },
                );
            },
        };
        if self.provider_data.is_none() {
            let mut diagnostics: Vec<Diagnostic> = Vec::new();
            diagnostics.push(
                Diagnostic::error("Provider not configured", "Provider data was not properly configured"),
            );
            assert(diag_views(diagnostics@) =~= seq![not_configured()]);
            return ReadStep::Finish(ReadOutcome { new_state: ReadState::Current, diagnostics });
        }
        ReadStep::FetchConfig { node, vmid }
    }

    /// After fetching VM `vmid`'s configuration from node `node`: refresh
    /// the state (with its nested blocks when it holds any); the resource is
    /// gone when Proxmox says the VM does not exist; list the node's VMs when
    /// the service is unavailable; else an error, keeping the state.
    pub fn read_on_config(
        current_state: &VmConfig,
        node: String,
        vmid: u32,
        result: &Result<QemuConfig, ApiError>,
    ) -> (r: ReadStep)
        ensures
            match result {
                Ok(vm) => r matches ReadStep::Finish(o) && o.new_state matches ReadState::Refreshed(
                    w,
                ) && writes_view(w@) == refresh_writes(*vm, *current_state)
                    && o.diagnostics@.len() == 0,
                Err(e) => if is_not_found(*e) {
                    r matches ReadStep::Finish(o) && o.new_state is Removed && o.diagnostics@.len()
                        == 0
                } else if *e is ServiceUnavailable {
                    r matches ReadStep::ListVms { node: n, vmid: v } && n == node && v == vmid
                } else {
                    r matches ReadStep::Finish(o) && o.new_state is Current && diag_views(
                        o.diagnostics@,
                    ) == seq![(Severity::Error, "Failed to read VM"@, "API error: "@ + api_error_text(*e))]
                },
            },
    {
        match result {
            Ok(vm) => {
                let mut writes: Vec<StateWrite> = Vec::new();
                let nested = current_state.network.is_some() || current_state.disk.is_some() || match &current_state.efidisk {
                    Some(v) => v.len() > 0,
                    None => false,
                };
                if nested {
                    QemuVmResource::populate_state_with_nested_blocks(&mut writes, vm, current_state);
                } else {
                    QemuVmResource::populate_state_from_config(&mut writes, vm, current_state);
                }
                assert(writes_view(writes@) =~= refresh_writes(*vm, *current_state)) by {
                    assert(writes_view(Seq::<StateWrite>::empty()) =~= Seq::empty());
                }
                ReadStep::Finish(
                    ReadOutcome { new_state: ReadState::Refreshed(writes), diagnostics: Vec::new() },
                )
            },
            Err(e) => {
                let gone = match e {
                    ApiError::ApiError { status, message, .. } => {
                        let m = chars_of(message.as_str());
                        *status == 404 || contains_str(&m, "does not exist") || contains_str(
                            &m,
                            "not found",
                        )
                    },
                    _ => false,
                };
                if gone {
                    return ReadStep::Finish(
                        ReadOutcome { new_state: ReadState::Removed, diagnostics: Vec::new() },
                    );
                }
                match e {
                    ApiError::ServiceUnavailable => ReadStep::ListVms { node, vmid },
                    _ => {
                        let mut diagnostics: Vec<Diagnostic> = Vec::new();
                        diagnostics.push(api_failure("Failed to read VM", "API error: ", e));
                        assert(diag_views(diagnostics@) =~= seq![
                            (Severity::Error, "Failed to read VM"@, "API error: "@ + api_error_text(*e)),
                        ]);
                        ReadStep::Finish(ReadOutcome { new_state: ReadState::Current, diagnostics })
                    },
                }
            },
        }
    }

    /// After listing the node's VMs: when VM `vmid` is listed, an error
    /// keeping the state; when it is not, the resource is gone; when the list
    /// failed, an error keeping the state.
    pub fn read_on_list(vmid: u32, result: &Result<Vec<QemuVmInfo>, ApiError>) -> (r: ReadOutcome)
        ensures
            match result {
                Ok(vms) => if lists_vmid(vms@, vmid) {
                    r.new_state is Current && diag_views(r.diagnostics@) == seq![
                        (
                            Severity::Error,
                            "Failed to read VM"@,
                            "Service temporarily unavailable, please try again"@,
                        ),
                    ]
                } else {
                    r.new_state is Removed && r.diagnostics@.len() == 0
                },
                Err(_) => r.new_state is Current && diag_views(r.diagnostics@) == seq![
                    (
                        Severity::Error,
                        "Failed to read VM"@,
                        "Service unavailable and unable to verify VM existence"@,
                    ),
                ],
            },
    {
        let mut diagnostics: Vec<Diagnostic> = Vec::new();
        match result {
            Ok(vms) => {
                let mut found = false;
                let mut i: usize = 0;
                while i < vms.len()
                    invariant
                        i <= vms.len(),
                        found == exists|j: int| 0 <= j < i && #[trigger] vms@[j].vmid == vmid,
                    decreases vms.len() - i,
                {
                    if vms[i].vmid == vmid {
                        found = true;
                    }
                    i = i + 1;
                }
                if found {
                    diagnostics.push(
                        Diagnostic::error(
                            "Failed to read VM",
                            "Service temporarily unavailable, please try again",
                        ),
                    );
                    assert(diag_views(diagnostics@) =~= seq![
                        (
                            Severity::Error,
                            "Failed to read VM"@,
                            "Service temporarily unavailable, please try again"@,
                        ),
                    ]);
                    ReadOutcome { new_state: ReadState::Current, diagnostics }
                } else {
                    ReadOutcome { new_state: ReadState::Removed, diagnostics }
                }
            },
            Err(_) => {
                diagnostics.push(
                    Diagnostic::error(
                        "Failed to read VM",
                        "Service unavailable and unable to verify VM existence",
                    ),
                );
                assert(diag_views(diagnostics@) =~= seq![
                    (
                        Severity::Error,
                        "Failed to read VM"@,
                        "Service unavailable and unable to verify VM existence"@,
                    ),
                ]);
                ReadOutcome { new_state: ReadState::Current, diagnostics }
            },
        }
    }

    /// The first step of an update: an error keeping the planned state when
    /// the resource is not configured; `target_node` or `vmid` missing from
    /// the configuration, in that order; else the update request.
    pub fn update_start(&self, config: &VmConfig) -> (r: UpdateStep)
        ensures
            self.provider_data is None ==> (r matches UpdateStep::Finish(o) && o.new_state
                == UpdateState::Planned && diag_views(o.diagnostics@) == seq![not_configured()]),
            self.provider_data is Some && text_view(config.target_node) is None ==> (r matches UpdateStep::MissingAttribute {
                summary,
                attribute,
            } && summary@ == "Missing node"@ && attribute@ == "target_node"@),
            self.provider_data is Some && text_view(config.target_node) is Some && number_bits(
                config.vmid,
            ) is None ==> (r matches UpdateStep::MissingAttribute { summary, attribute }
                && summary@ == "Missing vmid"@ && attribute@ == "vmid"@),
            self.provider_data is Some && text_view(config.target_node) is Some && number_bits(
                config.vmid,
            ) is Some ==> (r matches UpdateStep::Send { node, vmid, request } && Some(node@)
                == text_view(config.target_node) && Some(vmid) == opt_u32(config.vmid)
                && update_request_spec(request, *config)),
    {
        if self.provider_data.is_none() {
            let mut diagnostics: Vec<Diagnostic> = Vec::new();
            diagnostics.push(
                Diagnostic::error("Provider not configured", "Provider data was not properly configured"),
            );
            assert(diag_views(diagnostics@) =~= seq![not_configured()]);
            return UpdateStep::Finish(UpdateOutcome { new_state: UpdateState::Planned, diagnostics });
        }
        let node = match text_of(&config.target_node) {
            Some(n) => n,
            None => {
                return UpdateStep::MissingAttribute {
                    summary: String::from_str("Missing node"),
                    attribute: String::from_str("target_node"),
                };
            },
        };
        let vmid = match number_of(&config.vmid) {
            Some(n) => number_to_u32(n),
            None => {
                return UpdateStep::MissingAttribute {
                    summary: String::from_str("Missing vmid"),
                    attribute: String::from_str("vmid"),
                };
            },
        };
        match self.build_update_request(config) {
            Ok(request) => UpdateStep::Send { node, vmid, request },
            Err(d) => {
                let mut diagnostics: Vec<Diagnostic> = Vec::new();
                diagnostics.push(d);
                UpdateStep::Finish(UpdateOutcome { new_state: UpdateState::Prior, diagnostics })
            },
        }
    }

    /// How an update ends when the configuration lacks an attribute it
    /// needs: the prior state, and an error with `summary` whose detail is
    /// the text with which reading the attribute failed.
    pub fn update_on_missing_attribute(summary: String, detail: String) -> (r: UpdateOutcome)
        ensures
            r.new_state == UpdateState::Prior,
            diag_views(r.diagnostics@) == seq![(Severity::Error, summary@, detail@)],
    {
        let mut diagnostics: Vec<Diagnostic> = Vec::new();
        diagnostics.push(Diagnostic { severity: Severity::Error, summary, detail });
        assert(diag_views(diagnostics@) =~= seq![diag_view(diagnostics@[0])]);
        UpdateOutcome { new_state: UpdateState::Prior, diagnostics }
    }

    /// After the update request: the planned state on success; an error and
    /// the prior state on failure.
    pub fn update_finish(result: &Result<(), ApiError>) -> (r: UpdateOutcome)
        ensures
            match result {
                Ok(_) => r.new_state == UpdateState::Planned && r.diagnostics@.len() == 0,
                Err(e) => r.new_state == UpdateState::Prior && diag_views(r.diagnostics@) == seq![
                    (Severity::Error, "Failed to update VM"@, "API error: "@ + api_error_text(*e)),
                ],
            },
    {
        match result {
            Ok(_) => UpdateOutcome { new_state: UpdateState::Planned, diagnostics: Vec::new() },
            Err(e) => {
                let mut diagnostics: Vec<Diagnostic> = Vec::new();
                diagnostics.push(api_failure("Failed to update VM", "API error: ", e));
                assert(diag_views(diagnostics@) =~= seq![
                    (Severity::Error, "Failed to update VM"@, "API error: "@ + api_error_text(*e)),
                ]);
                UpdateOutcome { new_state: UpdateState::Prior, diagnostics }
            },
        }
    }

    /// The VM a delete removes: none (and nothing to do) when the resource
    /// is not configured or the prior state lacks `target_node` or `vmid`.
    pub fn delete_target(&self, prior_state: &VmConfig) -> (r: Option<(String, u32)>)
        ensures
            match r {
                Some((node, vmid)) => self.provider_data is Some && Some(node@) == text_view(
                    prior_state.target_node,
                ) && Some(vmid) == opt_u32(prior_state.vmid),
                None => self.provider_data is None || text_view(prior_state.target_node) is None
                    || number_bits(prior_state.vmid) is None,
            },
    {
        if self.provider_data.is_none() {
            return None;
        }
        let node = match text_of(&prior_state.target_node) {
            Some(n) => n,
            None => {
                return None;
            },
        };
        match number_of(&prior_state.vmid) {
            Some(n) => Some((node, number_to_u32(n))),
            None => None,
        }
    }

    /// After reading the VM's status before deleting it: stop it first when
    /// it is `running`; else delete it at once, without purging its disks,
    /// with a warning when the status could not be read.
    pub fn delete_on_status(result: &Result<QemuStatus, ApiError>) -> (r: (DeleteAction, Vec<Diagnostic>))
        ensures
            match result {
                Ok(s) => r.0 == (if s.status@ == "running"@ {
                    DeleteAction::Stop
                } else {
                    DeleteAction::Delete { wait_secs: None, purge: false }
                }) && r.1@.len() == 0,
                Err(e) => r.0 == (DeleteAction::Delete { wait_secs: None, purge: false }) && diag_views(r.1@) == seq![
                    (
                        Severity::Warning,
                        "Could not check VM status"@,
                        "Failed to check if VM is running: "@ + api_error_text(*e)
                            + ". Attempting deletion anyway."@,
                    ),
                ],
            },
    {
        match result {
            Ok(s) => {
                let sc = chars_of(s.status.as_str());
                if eq_str(&sc, "running") {
                    (DeleteAction::Stop, Vec::new())
                } else {
                    (DeleteAction::Delete { wait_secs: None, purge: false }, Vec::new())
                }
            },
            Err(e) => {
                let mut out = chars_of("Failed to check if VM is running: ");
                let m = e.message();
                push_str(&mut out, m.as_str());
                push_str(&mut out, ". Attempting deletion anyway.");
                let mut diagnostics: Vec<Diagnostic> = Vec::new();
                diagnostics.push(
                    Diagnostic {
                        severity: Severity::Warning,
                        summary: String::from_str("Could not check VM status"),
                        detail: string_of(&out),
                    },
                );
                assert(diag_views(diagnostics@) =~= seq![
                    (
                        Severity::Warning,
                        "Could not check VM status"@,
                        "Failed to check if VM is running: "@ + api_error_text(*e)
                            + ". Attempting deletion anyway."@,
                    ),
                ]);
                (DeleteAction::Delete { wait_secs: None, purge: false }, diagnostics)
            },
        }
    }

    /// After stopping the VM: delete it either way, without purging its
    /// disks; after waiting five seconds on success, at once and with a
    /// warning on failure.
    pub fn delete_on_stop(result: &Result<TaskId, ApiError>) -> (r: (DeleteAction, Vec<Diagnostic>))
        ensures
            match result {
                Ok(_) => r.0 == (DeleteAction::Delete { wait_secs: Some(5u64), purge: false }) && r.1@.len() == 0,
                Err(e) => r.0 == (DeleteAction::Delete { wait_secs: None, purge: false }) && diag_views(r.1@) == seq![
                    (
                        Severity::Warning,
                        "Failed to stop VM"@,
                        "Could not stop VM before deletion: "@ + api_error_text(*e)
                            + ". Attempting deletion anyway."@,
                    ),
                ],
            },
    {
        match result {
            Ok(_) => (DeleteAction::Delete { wait_secs: Some(5), purge: false }, Vec::new()),
            Err(e) => {
                let mut out = chars_of("Could not stop VM before deletion: ");
                let m = e.message();
                push_str(&mut out, m.as_str());
                push_str(&mut out, ". Attempting deletion anyway.");
                let mut diagnostics: Vec<Diagnostic> = Vec::new();
                diagnostics.push(
                    Diagnostic {
                        severity: Severity::Warning,
                        summary: String::from_str("Failed to stop VM"),
                        detail: string_of(&out),
                    },
                );
                assert(diag_views(diagnostics@) =~= seq![
                    (
                        Severity::Warning,
                        "Failed to stop VM"@,
                        "Could not stop VM before deletion: "@ + api_error_text(*e)
                            + ". Attempting deletion anyway."@,
                    ),
                ]);
                (DeleteAction::Delete { wait_secs: None, purge: false }, diagnostics)
            },
        }
    }

    /// After the delete request: an error when it failed.
    pub fn delete_on_delete(result: &Result<TaskId, ApiError>) -> (r: Vec<Diagnostic>)
        ensures
            match result {
                Ok(_) => r@.len() == 0,
                Err(e) => diag_views(r@) == seq![
                    (Severity::Error, "Failed to delete VM"@, "API error: "@ + api_error_text(*e)),
                ],
            },
    {
        match result {
            Ok(_) => Vec::new(),
            Err(e) => {
                let mut diagnostics: Vec<Diagnostic> = Vec::new();
                diagnostics.push(api_failure("Failed to delete VM", "API error: ", e));
                assert(diag_views(diagnostics@) =~= seq![
                    (Severity::Error, "Failed to delete VM"@, "API error: "@ + api_error_text(*e)),
                ]);
                diagnostics
            },
        }
    }

    /// The VM an import id names: `node/vmid`. An error when the id is not
    /// two parts, when the VM id is not a `u32`, or when the resource is not
    /// configured, in that order.
    pub fn import_target(&self, id: &str) -> (r: Result<(String, u32), Diagnostic>)
        ensures
            match import_parts(id@) {
                None => r matches Err(d) && diag_view(d) == (
                    Severity::Error,
                    "Invalid import ID"@,
                    "Import ID must be in the format 'node/vmid'"@,
                ),
                Some((node, v)) => match parse_unsigned(v, u32::MAX as nat) {
                    Err(_) => r matches Err(d) && diag_view(d) == (
                        Severity::Error,
                        "Invalid VMID"@,
                        "VMID must be a valid number"@,
                    ),
                    Ok(vmid) => if self.provider_data is None {
                        r matches Err(d) && diag_view(d) == (
                            Severity::Error,
                            "Provider not configured"@,
                            "Unable to import resource without provider configuration"@,
                        )
                    } else {
                        r matches Ok((n, i)) && n@ == node && i == vmid as u32
                    },
                },
            },
    {
        let cs = chars_of(id);
        let parts = split_chars(&cs, '/');
        if parts.len() != 2 {
            return Err(Diagnostic::error("Invalid import ID", "Import ID must be in the format 'node/vmid'"));
        }
        let node = string_of(&parts[0]);
        let vs = string_of(&parts[1]);
        let vmid = match parse_u32(vs.as_str()) {
            Ok(v) => v,
            Err(_) => {
                return Err(Diagnostic::error("Invalid VMID", "VMID must be a valid number"));
            },
        };
        if self.provider_data.is_none() {
            return Err(
                Diagnostic::error(
                    "Provider not configured",
                    "Unable to import resource without provider configuration",
                ),
            );
        }
        Ok((node, vmid))
    }

    /// The error when VM `vmid`'s configuration could not be fetched.
    pub fn import_fetch_error(vmid: u32, e: &ApiError) -> (r: Diagnostic)
        ensures
            diag_view(r) == (
                Severity::Error,
                "Failed to fetch VM configuration"@,
                "Error fetching VM "@ + nat_decimal(vmid as nat) + ": "@ + api_error_text(*e),
            ),
    {
        let mut out = chars_of("Error fetching VM ");
        push_u64(&mut out, vmid as u64);
        push_str(&mut out, ": ");
        let m = e.message();
        push_str(&mut out, m.as_str());
        Diagnostic {
            severity: Severity::Error,
            summary: String::from_str("Failed to fetch VM configuration"),
            detail: string_of(&out),
        }
    }

    /// The state of an imported VM, written into an empty state.
    pub fn import_state_writes(node: &str, vmid: u32, vm_config: &QemuConfig) -> (r: Vec<StateWrite>)
        ensures
            writes_view(r@) == import_writes(node@, vmid, *vm_config),
    {
        let mut state: Vec<StateWrite> = Vec::new();
        push_write(&mut state, "target_node", StateValue::Text(String::from_str(node)));
        push_write(&mut state, "vmid", StateValue::Whole(vmid as u64));
        let ghost head = writes_view(state@);
        assert(head =~= seq![
            ("target_node"@, StateValueView::Text(node@)),
            ("vmid"@, StateValueView::Whole(vmid as u64)),
        ]);
        let vm = vm_config;
        push_api_text(&mut state, "name", &vm.name);
        let cores = match vm.cores {
            Some(c) => Some(c as u64),
            None => None,
        };
        push_api_whole(&mut state, "cores", cores);
        push_api_whole(&mut state, "memory", vm.memory);
        let sockets = match vm.sockets {
            Some(s) => Some(s as u64),
            None => None,
        };
        push_api_whole(&mut state, "sockets", sockets);
        push_api_text(&mut state, "cpu", &vm.cpu);
        push_api_text(&mut state, "bios", &vm.bios);
        push_api_text(&mut state, "ostype", &vm.ostype);
        push_api_text(&mut state, "description", &vm.description);
        push_api_text(&mut state, "efidisk0", &vm.efidisk0);
        assert(writes_view(state@) =~= import_writes(node@, vmid, *vm));
        state
    }
}

/// The id `node/vmid` of a VM on a node whose name holds no `/` names that
/// node and that VM id: importing by a VM's id finds the VM.
pub proof fn lemma_import_id_round_trip(node: Seq<char>, vmid: u32)
    requires
        !node.contains('/'),
    ensures
        import_parts(node + seq!['/'] + nat_decimal(vmid as nat)) == Some(
            (node, nat_decimal(vmid as nat)),
        ),
        parse_unsigned(nat_decimal(vmid as nat), u32::MAX as nat) == Ok::<nat, crate::api::numeric::IntErrorKind>(
            vmid as nat,
        ),
{
    let d = nat_decimal(vmid as nat);
    crate::api::numeric::lemma_decimal_digits(vmid as nat);
    assert(!d.contains('/')) by {
        if d.contains('/') {
            let i = choose|i: int| 0 <= i < d.len() && d[i] == '/';
            assert(crate::api::numeric::is_digit(d[i]));
        }
    }
    crate::text::lemma_split_free(node, '/');
    crate::text::lemma_split_append_free(node, '/', d);
    crate::api::numeric::lemma_parse_decimal(vmid as nat, u32::MAX as nat);
}

proof fn lemma_import_names_distinct()
    ensures
        "target_node"@ != "vmid"@,
        "target_node"@ != "name"@,
        "target_node"@ != "cores"@,
        "target_node"@ != "memory"@,
        "target_node"@ != "sockets"@,
        "target_node"@ != "cpu"@,
        "target_node"@ != "bios"@,
        "target_node"@ != "ostype"@,
        "target_node"@ != "description"@,
        "target_node"@ != "efidisk0"@,
        "vmid"@ != "name"@,
        "vmid"@ != "cores"@,
        "vmid"@ != "memory"@,
        "vmid"@ != "sockets"@,
        "vmid"@ != "cpu"@,
        "vmid"@ != "bios"@,
        "vmid"@ != "ostype"@,
        "vmid"@ != "description"@,
        "vmid"@ != "efidisk0"@,
        "name"@ != "cores"@,
        "name"@ != "memory"@,
        "name"@ != "sockets"@,
        "name"@ != "cpu"@,
        "name"@ != "bios"@,
        "name"@ != "ostype"@,
        "name"@ != "description"@,
        "name"@ != "efidisk0"@,
        "cores"@ != "memory"@,
        "cores"@ != "sockets"@,
        "cores"@ != "cpu"@,
        "cores"@ != "bios"@,
        "cores"@ != "ostype"@,
        "cores"@ != "description"@,
        "cores"@ != "efidisk0"@,
        "memory"@ != "sockets"@,
        "memory"@ != "cpu"@,
        "memory"@ != "bios"@,
        "memory"@ != "ostype"@,
        "memory"@ != "description"@,
        "memory"@ != "efidisk0"@,
        "sockets"@ != "cpu"@,
        "sockets"@ != "bios"@,
        "sockets"@ != "ostype"@,
        "sockets"@ != "description"@,
        "sockets"@ != "efidisk0"@,
        "cpu"@ != "bios"@,
        "cpu"@ != "ostype"@,
        "cpu"@ != "description"@,
        "cpu"@ != "efidisk0"@,
        "bios"@ != "ostype"@,
        "bios"@ != "description"@,
        "bios"@ != "efidisk0"@,
        "ostype"@ != "description"@,
        "ostype"@ != "efidisk0"@,
        "description"@ != "efidisk0"@,
{
    reveal_strlit("target_node");
    reveal_strlit("vmid");
    reveal_strlit("name");
    reveal_strlit("cores");
    reveal_strlit("memory");
    reveal_strlit("sockets");
    reveal_strlit("cpu");
    reveal_strlit("bios");
    reveal_strlit("ostype");
    reveal_strlit("description");
    reveal_strlit("efidisk0");
    assert("name"@[0] != "bios"@[0] && "name"@[0] != "vmid"@[0] && "bios"@[0] != "vmid"@[0]);
    assert("memory"@[0] != "ostype"@[0]);
    assert("target_node"@[0] != "description"@[0]);
    assert("target_node"@.len() == 11);
    assert("vmid"@.len() == 4);
    assert("name"@.len() == 4);
    assert("cores"@.len() == 5);
    assert("memory"@.len() == 6);
    assert("sockets"@.len() == 7);
    assert("cpu"@.len() == 3);
    assert("bios"@.len() == 4);
    assert("ostype"@.len() == 6);
    assert("description"@.len() == 11);
    assert("efidisk0"@.len() == 8);
}

/// Picking the writes of one attribute from an imported VM's state picks
/// them from each of its writes in turn.
proof fn lemma_import_named(node: Seq<char>, vmid: u32, vm: QemuConfig, name: Seq<char>)
    ensures
        writes_named(import_writes(node, vmid, vm), name) == writes_named(
            api_write("target_node"@, Some(StateValueView::Text(node))),
            name,
        ) + writes_named(api_write("vmid"@, Some(StateValueView::Whole(vmid as u64))), name)
            + writes_named(api_write("name"@, text_sv(vm.name)), name) + writes_named(
            api_write(
                "cores"@,
                match vm.cores {
                    Some(c) => Some(StateValueView::Whole(c as u64)),
                    None => None,
                },
            ),
            name,
        ) + writes_named(
            api_write(
                "memory"@,
                match vm.memory {
                    Some(m) => Some(StateValueView::Whole(m)),
                    None => None,
                },
            ),
            name,
        ) + writes_named(
            api_write(
                "sockets"@,
                match vm.sockets {
                    Some(s) => Some(StateValueView::Whole(s as u64)),
                    None => None,
                },
            ),
            name,
        ) + writes_named(api_write("cpu"@, text_sv(vm.cpu)), name) + writes_named(
            api_write("bios"@, text_sv(vm.bios)),
            name,
        ) + writes_named(api_write("ostype"@, text_sv(vm.ostype)), name) + writes_named(
            api_write("description"@, text_sv(vm.description)),
            name,
        ) + writes_named(api_write("efidisk0"@, text_sv(vm.efidisk0)), name),
{
    let w_api_0 = Some(StateValueView::Text(node));
    let w_api_1 = Some(StateValueView::Whole(vmid as u64));
    let w_api_2 = text_sv(vm.name);
    let w_api_3 = match vm.cores {
        Some(c) => Some(StateValueView::Whole(c as u64)),
        None => None,
    };
    let w_api_4 = match vm.memory {
        Some(m) => Some(StateValueView::Whole(m)),
        None => None,
    };
    let w_api_5 = match vm.sockets {
        Some(s) => Some(StateValueView::Whole(s as u64)),
        None => None,
    };
    let w_api_6 = text_sv(vm.cpu);
    let w_api_7 = text_sv(vm.bios);
    let w_api_8 = text_sv(vm.ostype);
    let w_api_9 = text_sv(vm.description);
    let w_api_10 = text_sv(vm.efidisk0);
    let w0 = api_write("target_node"@, w_api_0);
    let w1 = api_write("vmid"@, w_api_1);
    let w2 = api_write("name"@, w_api_2);
    let w3 = api_write("cores"@, w_api_3);
    let w4 = api_write("memory"@, w_api_4);
    let w5 = api_write("sockets"@, w_api_5);
    let w6 = api_write("cpu"@, w_api_6);
    let w7 = api_write("bios"@, w_api_7);
    let w8 = api_write("ostype"@, w_api_8);
    let w9 = api_write("description"@, w_api_9);
    let w10 = api_write("efidisk0"@, w_api_10);
    assert(seq![
        ("target_node"@, StateValueView::Text(node)),
        ("vmid"@, StateValueView::Whole(vmid as u64)),
    ] =~= w0 + w1);
    assert(import_writes(node, vmid, vm) == w0 + w1 + w2 + w3 + w4 + w5 + w6 + w7 + w8 + w9 + w10);
    lemma_writes_named_add(w0, w1, name);
    lemma_writes_named_add(w0 + w1, w2, name);
    lemma_writes_named_add((w0 + w1) + w2, w3, name);
    lemma_writes_named_add(((w0 + w1) + w2) + w3, w4, name);
    lemma_writes_named_add((((w0 + w1) + w2) + w3) + w4, w5, name);
    lemma_writes_named_add(((((w0 + w1) + w2) + w3) + w4) + w5, w6, name);
    lemma_writes_named_add((((((w0 + w1) + w2) + w3) + w4) + w5) + w6, w7, name);
    lemma_writes_named_add(((((((w0 + w1) + w2) + w3) + w4) + w5) + w6) + w7, w8, name);
    lemma_writes_named_add((((((((w0 + w1) + w2) + w3) + w4) + w5) + w6) + w7) + w8, w9, name);
    lemma_writes_named_add(((((((((w0 + w1) + w2) + w3) + w4) + w5) + w6) + w7) + w8) + w9, w10, name);
}

/// The state of an imported VM writes its node and id once each, and each
/// of `name`, `cores`, `memory`, `sockets`, `cpu`, `bios`, `ostype`,
/// `description` and `efidisk0` once, from the VM configuration's field of
/// that same name, when the configuration has it, and not at all otherwise.
#[verifier::spinoff_prover]
pub proof fn lemma_import_writes_by_name(node: Seq<char>, vmid: u32, vm: QemuConfig)
    ensures
        ({
            let ws = import_writes(node, vmid, vm);
            &&& writes_named(ws, "target_node"@) == seq![("target_node"@, StateValueView::Text(node))]
            &&& writes_named(ws, "vmid"@) == seq![("vmid"@, StateValueView::Whole(vmid as u64))]
            &&& vm.name matches Some(x) ==> writes_named(ws, "name"@)
                == seq![("name"@, StateValueView::Text(x@))]
            &&& vm.name is None ==> writes_named(ws, "name"@)
                == Seq::<(Seq<char>, StateValueView)>::empty()
            &&& vm.cores matches Some(x) ==> writes_named(ws, "cores"@)
                == seq![("cores"@, StateValueView::Whole(x as u64))]
            &&& vm.cores is None ==> writes_named(ws, "cores"@)
                == Seq::<(Seq<char>, StateValueView)>::empty()
            &&& vm.memory matches Some(x) ==> writes_named(ws, "memory"@)
                == seq![("memory"@, StateValueView::Whole(x))]
            &&& vm.memory is None ==> writes_named(ws, "memory"@)
                == Seq::<(Seq<char>, StateValueView)>::empty()
            &&& vm.sockets matches Some(x) ==> writes_named(ws, "sockets"@)
                == seq![("sockets"@, StateValueView::Whole(x as u64))]
            &&& vm.sockets is None ==> writes_named(ws, "sockets"@)
                == Seq::<(Seq<char>, StateValueView)>::empty()
            &&& vm.cpu matches Some(x) ==> writes_named(ws, "cpu"@)
                == seq![("cpu"@, StateValueView::Text(x@))]
            &&& vm.cpu is None ==> writes_named(ws, "cpu"@)
                == Seq::<(Seq<char>, StateValueView)>::empty()
            &&& vm.bios matches Some(x) ==> writes_named(ws, "bios"@)
                == seq![("bios"@, StateValueView::Text(x@))]
            &&& vm.bios is None ==> writes_named(ws, "bios"@)
                == Seq::<(Seq<char>, StateValueView)>::empty()
            &&& vm.ostype matches Some(x) ==> writes_named(ws, "ostype"@)
                == seq![("ostype"@, StateValueView::Text(x@))]
            &&& vm.ostype is None ==> writes_named(ws, "ostype"@)
                == Seq::<(Seq<char>, StateValueView)>::empty()
            &&& vm.description matches Some(x) ==> writes_named(ws, "description"@)
                == seq![("description"@, StateValueView::Text(x@))]
            &&& vm.description is None ==> writes_named(ws, "description"@)
                == Seq::<(Seq<char>, StateValueView)>::empty()
            &&& vm.efidisk0 matches Some(x) ==> writes_named(ws, "efidisk0"@)
                == seq![("efidisk0"@, StateValueView::Text(x@))]
            &&& vm.efidisk0 is None ==> writes_named(ws, "efidisk0"@)
                == Seq::<(Seq<char>, StateValueView)>::empty()
        }),
{
    let ws = import_writes(node, vmid, vm);
    assert(writes_named(ws, "target_node"@) =~= api_write("target_node"@, Some(StateValueView::Text(node)))) by {
        lemma_import_named(node, vmid, vm, "target_node"@);
        lemma_import_names_distinct();
        lemma_writes_named_api_all();
    }
    assert(writes_named(ws, "vmid"@) =~= api_write("vmid"@, Some(StateValueView::Whole(vmid as u64)))) by {
        lemma_import_named(node, vmid, vm, "vmid"@);
        lemma_import_names_distinct();
        lemma_writes_named_api_all();
    }
    assert(writes_named(ws, "name"@) =~= api_write("name"@, text_sv(vm.name))) by {
        lemma_import_named(node, vmid, vm, "name"@);
        lemma_import_names_distinct();
        lemma_writes_named_api_all();
    }
    assert(writes_named(ws, "cores"@) =~= api_write(
        "cores"@,
        match vm.cores {
            Some(c) => Some(StateValueView::Whole(c as u64)),
            None => None,
        },
    )) by {
        lemma_import_named(node, vmid, vm, "cores"@);
        lemma_import_names_distinct();
        lemma_writes_named_api_all();
    }
    assert(writes_named(ws, "memory"@) =~= api_write(
        "memory"@,
        match vm.memory {
            Some(m) => Some(StateValueView::Whole(m)),
            None => None,
        },
    )) by {
        lemma_import_named(node, vmid, vm, "memory"@);
        lemma_import_names_distinct();
        lemma_writes_named_api_all();
    }
    assert(writes_named(ws, "sockets"@) =~= api_write(
        "sockets"@,
        match vm.sockets {
            Some(s) => Some(StateValueView::Whole(s as u64)),
            None => None,
        },
    )) by {
        lemma_import_named(node, vmid, vm, "sockets"@);
        lemma_import_names_distinct();
        lemma_writes_named_api_all();
    }
    assert(writes_named(ws, "cpu"@) =~= api_write("cpu"@, text_sv(vm.cpu))) by {
        lemma_import_named(node, vmid, vm, "cpu"@);
        lemma_import_names_distinct();
        lemma_writes_named_api_all();
    }
    assert(writes_named(ws, "bios"@) =~= api_write("bios"@, text_sv(vm.bios))) by {
        lemma_import_named(node, vmid, vm, "bios"@);
        lemma_import_names_distinct();
        lemma_writes_named_api_all();
    }
    assert(writes_named(ws, "ostype"@) =~= api_write("ostype"@, text_sv(vm.ostype))) by {
        lemma_import_named(node, vmid, vm, "ostype"@);
        lemma_import_names_distinct();
        lemma_writes_named_api_all();
    }
    assert(writes_named(ws, "description"@) =~= api_write("description"@, text_sv(vm.description))) by {
        lemma_import_named(node, vmid, vm, "description"@);
        lemma_import_names_distinct();
        lemma_writes_named_api_all();
    }
    assert(writes_named(ws, "efidisk0"@) =~= api_write("efidisk0"@, text_sv(vm.efidisk0))) by {
        lemma_import_named(node, vmid, vm, "efidisk0"@);
        lemma_import_names_distinct();
        lemma_writes_named_api_all();
    }
}

} // verus!
