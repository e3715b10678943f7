//! Validation of a VM configuration: value ranges, the BIOS, and where
//! `iothread` is set on a disk that cannot use it.
use vstd::prelude::*;
use vstd::string::*;
use crate::text::{chars_of, contains_seq, contains_str, eq_str, nat_decimal, push_all, push_str, push_u64, string_of};
use crate::number::{in_closed_range, number_in_range, number_to_u32, trunc_u32};
use crate::values::{
    Diagnostic, Severity, diag_view, diag_views, nth_attr, number_bits, number_of, text_at, text_of,
    text_view,
};
use crate::resources::nodes::vm_config::{VmConfig, nonempty_list};
use crate::resources::nodes::resource_vm::QemuVmResource;

verus! {

/// Whether a disk string turns `iothread` on.
pub open spec fn has_iothread(t: Option<Seq<char>>) -> bool {
    match t {
        Some(d) => contains_seq(d, "iothread=1"@) || contains_seq(d, "iothread=true"@),
        None => false,
    }
}

/// The SCSI controller of a configuration; `lsi` when it names none.
pub open spec fn scsihw_or_default(c: VmConfig) -> Seq<char> {
    match text_view(c.scsihw) {
        Some(s) => s,
        None => "lsi"@,
    }
}

/// The warning for `scsiI`, when it has `iothread` on and the controller
/// is not `virtio-scsi-single`.
pub open spec fn scsi_iothread_warning(c: VmConfig, i: nat) -> Seq<(Severity, Seq<char>, Seq<char>)> {
    if has_iothread(text_view(nth_attr(c.scsi@, i as int))) && scsihw_or_default(c)
        != "virtio-scsi-single"@ {
        seq![
            (
                Severity::Warning,
                "iothread requires virtio-scsi-single"@,
                "Disk scsi"@ + nat_decimal(i) + " has iothread enabled but scsihw is '"@
                    + scsihw_or_default(c)
                    + "'. iothread is only valid with scsihw='virtio-scsi-single'"@,
            ),
        ]
    } else {
        Seq::empty()
    }
}

/// The warning for `sataI`, when it has `iothread` on.
pub open spec fn sata_iothread_warning(c: VmConfig, i: nat) -> Seq<(Severity, Seq<char>, Seq<char>)> {
    if has_iothread(text_view(nth_attr(c.sata@, i as int))) {
        seq![
            (
                Severity::Warning,
                "iothread not supported for SATA"@,
                "Disk sata"@ + nat_decimal(i)
                    + " has iothread enabled but iothread is not supported for SATA disks. Use SCSI with virtio-scsi-single or VirtIO disks instead."@,
            ),
        ]
    } else {
        Seq::empty()
    }
}

/// The warning for `ideI`, when it has `iothread` on.
pub open spec fn ide_iothread_warning(c: VmConfig, i: nat) -> Seq<(Severity, Seq<char>, Seq<char>)> {
    if has_iothread(text_view(nth_attr(c.ide@, i as int))) {
        seq![
            (
                Severity::Warning,
                "iothread not supported for IDE"@,
                "Disk ide"@ + nat_decimal(i)
                    + " has iothread enabled but iothread is not supported for IDE disks. Use SCSI with virtio-scsi-single or VirtIO disks instead."@,
            ),
        ]
    } else {
        Seq::empty()
    }
}

/// The warnings for `scsi0` to `scsi(n-1)`, in order.
pub open spec fn scsi_iothread_warnings(c: VmConfig, n: nat) -> Seq<(Severity, Seq<char>, Seq<char>)>
    decreases n,
{
    if n == 0 {
        Seq::empty()
    } else {
        scsi_iothread_warnings(c, (n - 1) as nat) + scsi_iothread_warning(c, (n - 1) as nat)
    }
}

/// The warnings for `sata0` to `sata(n-1)`, in order.
pub open spec fn sata_iothread_warnings(c: VmConfig, n: nat) -> Seq<(Severity, Seq<char>, Seq<char>)>
    decreases n,
{
    if n == 0 {
        Seq::empty()
    } else {
        sata_iothread_warnings(c, (n - 1) as nat) + sata_iothread_warning(c, (n - 1) as nat)
    }
}

/// The warnings for `ide0` to `ide(n-1)`, in order.
pub open spec fn ide_iothread_warnings(c: VmConfig, n: nat) -> Seq<(Severity, Seq<char>, Seq<char>)>
    decreases n,
{
    if n == 0 {
        Seq::empty()
    } else {
        ide_iothread_warnings(c, (n - 1) as nat) + ide_iothread_warning(c, (n - 1) as nat)
    }
}

/// The `iothread` warnings of a configuration: `scsi0` to `scsi30`, then
/// `sata0` to `sata5`, then `ide0` to `ide3`.
pub open spec fn iothread_warnings(c: VmConfig) -> Seq<(Severity, Seq<char>, Seq<char>)> {
    scsi_iothread_warnings(c, 31) + sata_iothread_warnings(c, 6) + ide_iothread_warnings(c, 4)
}

/// An error when `vmid`, cast to `u32`, is outside 100 to 999999999.
pub open spec fn vmid_check(c: VmConfig) -> Seq<(Severity, Seq<char>, Seq<char>)> {
    match number_bits(c.vmid) {
        Some(b) => if 100 <= trunc_u32(b) <= 999999999 {
            Seq::empty()
        } else {
            seq![(Severity::Error, "Invalid VMID"@, "VMID must be between 100 and 999999999"@)]
        },
        None => Seq::empty(),
    }
}

/// An error `(summary, detail)` when the number is present and outside
/// `lo..=hi`.
pub open spec fn range_check(
    bits: Option<u64>,
    lo: nat,
    hi: nat,
    summary: Seq<char>,
    detail: Seq<char>,
) -> Seq<(Severity, Seq<char>, Seq<char>)> {
    match bits {
        Some(b) => if in_closed_range(b, lo, hi) {
            Seq::empty()
        } else {
            seq![(Severity::Error, summary, detail)]
        },
        None => Seq::empty(),
    }
}

/// The BIOS checks: an error for a BIOS other than `seabios` and `ovmf`, a
/// warning for `ovmf` without an EFI disk.
pub open spec fn bios_check(c: VmConfig) -> Seq<(Severity, Seq<char>, Seq<char>)> {
    match text_view(c.bios) {
        Some(b) => (if b != "seabios"@ && b != "ovmf"@ {
            seq![(Severity::Error, "Invalid BIOS"@, "BIOS must be either 'seabios' or 'ovmf'"@)]
        } else {
            Seq::empty()
        }) + (if b == "ovmf"@ && text_view(c.efidisk0) is None && !nonempty_list(c.efidisk) {
            seq![
                (
                    Severity::Warning,
                    "OVMF requires EFI disk"@,
                    "When using OVMF BIOS, you should configure efidisk0 (e.g., efidisk0 = \"local-lvm:1,format=qcow2\") or use the efidisk block. Without it, a temporary EFI vars disk will be used."@,
                ),
            ]
        } else {
            Seq::empty()
        }),
        None => Seq::empty(),
    }
}

/// All diagnostics of a configuration, in the order they are reported.
pub open spec fn validate_spec(c: VmConfig) -> Seq<(Severity, Seq<char>, Seq<char>)> {
    vmid_check(c) + range_check(
        number_bits(c.cores),
        1,
        128,
        "Invalid cores"@,
        "Cores must be between 1 and 128"@,
    ) + range_check(
        number_bits(c.sockets),
        1,
        4,
        "Invalid sockets"@,
        "Sockets must be between 1 and 4"@,
    ) + range_check(
        number_bits(c.memory),
        16,
        8388608,
        "Invalid memory"@,
        "Memory must be between 16 MB and 8 TB"@,
    ) + bios_check(c) + iothread_warnings(c)
}

/// Whether a disk string turns `iothread` on.
fn iothread_on(t: &Option<String>) -> (r: bool)
    ensures
        r == has_iothread(crate::text::opt_view(*t)),
{
    match t {
        Some(d) => {
            let dc = chars_of(d.as_str());
            contains_str(&dc, "iothread=1") || contains_str(&dc, "iothread=true")
        },
        None => false,
    }
}

/// Appends `d`; the views grow by its view.
fn push_diag(diags: &mut Vec<Diagnostic>, d: Diagnostic)
    ensures
        diag_views(final(diags)@) == diag_views(old(diags)@).push(diag_view(d)),
{
    diags.push(d);
    assert(diag_views(diags@) =~= diag_views(old(diags)@).push(diag_view(d)));
}

/// Appends a range error when the number is present and outside `lo..=hi`.
fn push_range_check(
    diags: &mut Vec<Diagnostic>,
    o: &Option<crate::values::AttrValue>,
    lo: u64,
    hi: u64,
    summary: &str,
    detail: &str,
)
    requires
        1 <= lo,
        hi < u64::MAX,
    ensures
        diag_views(final(diags)@) == diag_views(old(diags)@) + range_check(
            number_bits(*o),
            lo as nat,
            hi as nat,
            summary@,
            detail@,
        ),
{
    match number_of(o) {
        Some(n) => {
            if !number_in_range(n, lo, hi) {
                push_diag(diags, Diagnostic::error(summary, detail));
            } else {
                assert(diag_views(diags@) =~= diag_views(diags@) + Seq::<
                    (Severity, Seq<char>, Seq<char>),
                >::empty());
            }
        },
        None => {
            assert(diag_views(diags@) =~= diag_views(diags@) + Seq::<
                (Severity, Seq<char>, Seq<char>),
            >::empty());
        },
    }
    assert(diag_views(diags@) =~= diag_views(old(diags)@) + range_check(
        number_bits(*o),
        lo as nat,
        hi as nat,
        summary@,
        detail@,
    ));
}

impl QemuVmResource {
    /// Appends the `iothread` warnings of a configuration.
    pub fn validate_iothread(&self, config: &VmConfig, diagnostics: &mut Vec<Diagnostic>)
        ensures
            diag_views(final(diagnostics)@) == diag_views(old(diagnostics)@) + iothread_warnings(
                *config,
            ),
    {
        let ghost start = diag_views(diagnostics@);
        let scsihw: Vec<char> = match text_of(&config.scsihw) {
            Some(s) => chars_of(s.as_str()),
            None => chars_of("lsi"),
        };
        let single = eq_str(&scsihw, "virtio-scsi-single");
        let mut i: usize = 0;
        while i < 31
            invariant
                i <= 31,
                scsihw@ == scsihw_or_default(*config),
                single == (scsihw@ == "virtio-scsi-single"@),
                diag_views(diagnostics@) == start + scsi_iothread_warnings(*config, i as nat),
            decreases 31 - i,
        {
            let ghost before = diag_views(diagnostics@);
            if iothread_on(&text_at(&config.scsi, i)) && !single {
                let mut out = chars_of("Disk scsi");
                push_u64(&mut out, i as u64);
                push_str(&mut out, " has iothread enabled but scsihw is '");
                push_all(&mut out, &scsihw);
                push_str(&mut out, "'. iothread is only valid with scsihw='virtio-scsi-single'");
                let d = Diagnostic {
                    severity: Severity::Warning,
                    summary: String::from_str("iothread requires virtio-scsi-single"),
                    detail: string_of(&out),
                };
                push_diag(diagnostics, d);
            }
            assert(diag_views(diagnostics@) =~= before + scsi_iothread_warning(*config, i as nat));
            i = i + 1;
        }
        let mut i: usize = 0;
        while i < 6
            invariant
                i <= 6,
                diag_views(diagnostics@) == start + scsi_iothread_warnings(*config, 31)
                    + sata_iothread_warnings(*config, i as nat),
            decreases 6 - i,
        {
            let ghost before = diag_views(diagnostics@);
            if iothread_on(&text_at(&config.sata, i)) {
                let mut out = chars_of("Disk sata");
                push_u64(&mut out, i as u64);
                push_str(
                    &mut out,
                    " has iothread enabled but iothread is not supported for SATA disks. Use SCSI with virtio-scsi-single or VirtIO disks instead.",
                );
                let d = Diagnostic {
                    severity: Severity::Warning,
                    summary: String::from_str("iothread not supported for SATA"),
                    detail: string_of(&out),
                };
                push_diag(diagnostics, d);
            }
            assert(diag_views(diagnostics@) =~= before + sata_iothread_warning(*config, i as nat));
            i = i + 1;
        }
        let mut i: usize = 0;
        while i < 4
            invariant
                i <= 4,
                diag_views(diagnostics@) == start + scsi_iothread_warnings(*config, 31)
                    + sata_iothread_warnings(*config, 6) + ide_iothread_warnings(*config, i as nat),
            decreases 4 - i,
        {
            let ghost before = diag_views(diagnostics@);
            if iothread_on(&text_at(&config.ide, i)) {
                let mut out = chars_of("Disk ide");
                push_u64(&mut out, i as u64);
                push_str(
                    &mut out,
                    " has iothread enabled but iothread is not supported for IDE disks. Use SCSI with virtio-scsi-single or VirtIO disks instead.",
                );
                let d = Diagnostic {
                    severity: Severity::Warning,
                    summary: String::from_str("iothread not supported for IDE"),
                    detail: string_of(&out),
                };
                push_diag(diagnostics, d);
            }
            assert(diag_views(diagnostics@) =~= before + ide_iothread_warning(*config, i as nat));
            i = i + 1;
        }
        assert(diag_views(diagnostics@) =~= start + iothread_warnings(*config));
    }

    /// The diagnostics of a configuration: the range checks of `vmid`,
    /// `cores`, `sockets` and `memory`, the BIOS checks, then the
    /// `iothread` warnings.
    pub fn validate(&self, config: &VmConfig) -> (r: Vec<Diagnostic>)
        ensures
            diag_views(r@) == validate_spec(*config),
    {
        let mut diagnostics: Vec<Diagnostic> = Vec::new();
        assert(diag_views(diagnostics@) =~= Seq::<(Severity, Seq<char>, Seq<char>)>::empty());
        match number_of(&config.vmid) {
            Some(n) => {
                let v = number_to_u32(n);
                if !(100 <= v && v <= 999999999) {
                    push_diag(
                        &mut diagnostics,
                        Diagnostic::error("Invalid VMID", "VMID must be between 100 and 999999999"),
                    );
                }
            },
            None => {},
        }
        assert(diag_views(diagnostics@) =~= vmid_check(*config));
        let ghost s1 = diag_views(diagnostics@);
        push_range_check(
            &mut diagnostics,
            &config.cores,
            1,
            128,
            "Invalid cores",
            "Cores must be between 1 and 128",
        );
        push_range_check(
            &mut diagnostics,
            &config.sockets,
            1,
            4,
            "Invalid sockets",
            "Sockets must be between 1 and 4",
        );
        push_range_check(
            &mut diagnostics,
            &config.memory,
            16,
            8388608,
            "Invalid memory",
            "Memory must be between 16 MB and 8 TB",
        );
        let ghost s2 = diag_views(diagnostics@);
        match text_of(&config.bios) {
            Some(b) => {
                let bc = chars_of(b.as_str());
                let is_ovmf = eq_str(&bc, "ovmf");
                if !eq_str(&bc, "seabios") && !is_ovmf {
                    push_diag(
                        &mut diagnostics,
                        Diagnostic::error("Invalid BIOS", "BIOS must be either 'seabios' or 'ovmf'"),
                    );
                }
                if is_ovmf {
                    let has_efidisk0 = text_of(&config.efidisk0).is_some();
                    let has_efidisk_block = match &config.efidisk {
                        Some(v) => v.len() > 0,
                        None => false,
                    };
                    if !has_efidisk0 && !has_efidisk_block {
                        push_diag(
                            &mut diagnostics,
                            Diagnostic::warning(
                                "OVMF requires EFI disk",
                                "When using OVMF BIOS, you should configure efidisk0 (e.g., efidisk0 = \"local-lvm:1,format=qcow2\") or use the efidisk block. Without it, a temporary EFI vars disk will be used.",
                            ),
                        );
                    }
                }
            },
            None => {},
        }
        assert(diag_views(diagnostics@) =~= s2 + bios_check(*config));
        self.validate_iothread(config, &mut diagnostics);
        assert(diag_views(diagnostics@) =~= validate_spec(*config));
        diagnostics
    }
}

} // verus!
