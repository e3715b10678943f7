//! Disk strings of a QEMU VM (`scsi0`, `virtio0`, `ide2`, `efidisk0`, …):
//! reading them into blocks and writing blocks back.
use vstd::prelude::*;
use vstd::string::*;
use crate::text;
use crate::number::{Number, number_to_u32, trunc_u32};
use crate::text::{
    trim_end, chars_of, clone_opt, contains_str, eq_str, push_all, push_entry, push_i64, push_str,
    split_chars, split_once_chars, starts_with_str, string_of,
};
use crate::resources::nodes::network::{flag_value, last_value_for, opt_entry, opt_flag, values_for};
use crate::resources::nodes::resource_vm::QemuVmResource;
use crate::values::{AttrValue, text_of, text_view};

verus! {

/// Whether `c` is numeric in the sense of std's `char::is_numeric` (one of
/// Unicode's number categories).
pub uninterp spec fn char_is_numeric(c: char) -> bool;

/// Calls std's `char::is_numeric`; its result is named `char_is_numeric`.
#[verifier::external_body]
fn is_numeric(c: char) -> (r: bool)
    ensures
        r == char_is_numeric(c),
        ('0' <= c && c <= '9') ==> r,
{
    c.is_numeric()
}

/// Whether every character of `s` is an ASCII digit.
pub open spec fn ascii_digits(s: Seq<char>) -> bool {
    forall|i: int| 0 <= i < s.len() ==> '0' <= #[trigger] s[i] <= '9'
}

/// The size a volume gives when every one of its characters is numeric:
/// the volume followed by `G`.
pub open spec fn volume_size_spec(volume: Seq<char>, numeric: bool) -> Option<Seq<char>> {
    if numeric {
        Some(volume + "G"@)
    } else {
        None
    }
}

/// The size a volume gives, `numeric` saying whether every one of its
/// characters is numeric: `volume` followed by `G`, or none.
pub fn volume_size(volume: &str, numeric: bool) -> (r: Option<String>)
    ensures
        text::opt_view(r) == volume_size_spec(volume@, numeric),
{
    if numeric {
        let mut z = chars_of(volume);
        push_str(&mut z, "G");
        Some(string_of(&z))
    } else {
        None
    }
}

/// Whether every character of `s` is numeric.
pub open spec fn all_numeric(s: Seq<char>) -> bool {
    forall|i: int| 0 <= i < s.len() ==> #[trigger] char_is_numeric(s[i])
}

/// The disk type a slot name starts with.
pub open spec fn disk_type_of(slot: Seq<char>) -> Seq<char> {
    if text::starts_with_seq(slot, "scsi"@) {
        "scsi"@
    } else if text::starts_with_seq(slot, "virtio"@) {
        "virtio"@
    } else if text::starts_with_seq(slot, "ide"@) {
        "ide"@
    } else if text::starts_with_seq(slot, "sata"@) {
        "sata"@
    } else {
        "unknown"@
    }
}

/// A disk string read into its attributes.
pub struct ParsedDisk {
    pub slot: String,
    pub disk_type: String,
    pub storage: String,
    pub iso: Option<String>,
    pub size: Option<String>,
    pub media: Option<String>,
    pub format: Option<String>,
    pub iothread: Option<bool>,
    pub emulatessd: Option<bool>,
    pub discard: Option<bool>,
    pub cache: Option<String>,
    pub backup: Option<bool>,
    pub replicate: Option<bool>,
}

/// What a `ParsedDisk` holds.
pub struct ParsedDiskView {
    pub slot: Seq<char>,
    pub disk_type: Seq<char>,
    pub storage: Seq<char>,
    pub iso: Option<Seq<char>>,
    pub size: Option<Seq<char>>,
    pub media: Option<Seq<char>>,
    pub format: Option<Seq<char>>,
    pub iothread: Option<bool>,
    pub emulatessd: Option<bool>,
    pub discard: Option<bool>,
    pub cache: Option<Seq<char>>,
    pub backup: Option<bool>,
    pub replicate: Option<bool>,
}

impl View for ParsedDisk {
    type V = ParsedDiskView;

    open spec fn view(&self) -> ParsedDiskView {
        ParsedDiskView {
            slot: self.slot@,
            disk_type: self.disk_type@,
            storage: self.storage@,
            iso: text::opt_view(self.iso),
            size: text::opt_view(self.size),
            media: text::opt_view(self.media),
            format: text::opt_view(self.format),
            iothread: self.iothread,
            emulatessd: self.emulatessd,
            discard: self.discard,
            cache: text::opt_view(self.cache),
            backup: self.backup,
            replicate: self.replicate,
        }
    }
}

/// How Proxmox writes an enabled `discard`: `on` or `1`.
pub open spec fn discard_value(v: Seq<char>) -> bool {
    v == "on"@ || v == "1"@
}

/// The storage, ISO path and size that the first part of a disk string
/// gives: `storage:iso/…` names an ISO, `storage:cloudinit` neither, and
/// `storage:N` with every character numeric a size of `NG`.
pub open spec fn disk_head(first: Seq<char>) -> (Seq<char>, Option<Seq<char>>, Option<Seq<char>>) {
    match text::split_once_spec(first, ':') {
        Some((storage, rest)) => if text::contains_seq(rest, "iso/"@) {
            (storage, Some(rest), None)
        } else if rest == "cloudinit"@ {
            (storage, None, None)
        } else {
            (storage, None, volume_size_spec(rest, all_numeric(rest)))
        },
        None => (first, None, None),
    }
}

/// The attributes of disk string `s` in `slot`. A size not given by the
/// first part comes from the first `size=` part; the other attributes come
/// from the last part after the first that names them.
pub open spec fn parse_disk_spec(s: Seq<char>, slot: Seq<char>) -> ParsedDiskView {
    let parts = text::split_spec(s, ',');
    let head = disk_head(parts[0]);
    let rest = parts.drop_first();
    let sizes = values_for(parts, "size"@);
    ParsedDiskView {
        slot: slot,
        disk_type: disk_type_of(slot),
        storage: head.0,
        iso: head.1,
        size: match head.2 {
            Some(z) => Some(z),
            None => if sizes.len() > 0 {
                Some(sizes[0])
            } else {
                None
            },
        },
        media: last_value_for(rest, "media"@),
        format: last_value_for(rest, "format"@),
        iothread: opt_flag(last_value_for(rest, "iothread"@)),
        emulatessd: opt_flag(last_value_for(rest, "ssd"@)),
        discard: match last_value_for(rest, "discard"@) {
            Some(v) => Some(discard_value(v)),
            None => None,
        },
        cache: last_value_for(rest, "cache"@),
        backup: opt_flag(last_value_for(rest, "backup"@)),
        replicate: opt_flag(last_value_for(rest, "replicate"@)),
    }
}

/// The value of the last part among `parts` that gives `key`.
pub(crate) fn last_for_key(parts: &Vec<Vec<char>>, key: &str) -> (r: Option<Vec<char>>)
    ensures
        match r {
            Some(v) => last_value_for(text::views(parts@), key@) == Some(v@),
            None => last_value_for(text::views(parts@), key@) is None,
        },
{
    let kv = chars_of(key);
    let mut r: Option<Vec<char>> = None;
    let mut i: usize = 0;
    let ghost pv = text::views(parts@);
    assert(pv.take(0) =~= Seq::<Seq<char>>::empty());
    while i < parts.len()
        invariant
            i <= parts.len(),
            kv@ == key@,
            pv == text::views(parts@),
            match r {
                Some(v) => last_value_for(pv.take(i as int), key@) == Some(v@),
                None => last_value_for(pv.take(i as int), key@) is None,
            },
        decreases parts.len() - i,
    {
        assert(pv.take(i + 1).drop_last() =~= pv.take(i as int));
        assert(pv.take(i + 1).last() == parts@[i as int]@);
        match split_once_chars(&parts[i], '=') {
            Some((k, v)) => {
                if text::eq_chars(&k, &kv) {
                    r = Some(v);
                }
            },
            None => {},
        }
        i = i + 1;
    }
    assert(pv.take(parts.len() as int) =~= pv);
    r
}

/// The value of the first part among `parts` that gives `key`.
fn first_for_key(parts: &Vec<Vec<char>>, key: &str) -> (r: Option<Vec<char>>)
    ensures
        match r {
            Some(v) => values_for(text::views(parts@), key@).len() > 0 && values_for(
                text::views(parts@),
                key@,
            )[0] == v@,
            None => values_for(text::views(parts@), key@).len() == 0,
        },
{
    let kv = chars_of(key);
    let mut i: usize = 0;
    let ghost pv = text::views(parts@);
    assert(pv.take(0) =~= Seq::<Seq<char>>::empty());
    while i < parts.len()
        invariant
            i <= parts.len(),
            kv@ == key@,
            pv == text::views(parts@),
            values_for(pv.take(i as int), key@).len() == 0,
        decreases parts.len() - i,
    {
        assert(pv.take(i + 1).drop_last() =~= pv.take(i as int));
        assert(pv.take(i + 1).last() == parts@[i as int]@);
        match split_once_chars(&parts[i], '=') {
            Some((k, v)) => {
                if text::eq_chars(&k, &kv) {
                    proof {
                        lemma_values_for_prefix(pv, i + 1, key@);
                    }
                    return Some(v);
                }
            },
            None => {},
        }
        i = i + 1;
    }
    assert(pv.take(parts.len() as int) =~= pv);
    None
}

/// The values found in a prefix of the parts come first among all values.
proof fn lemma_values_for_prefix(parts: Seq<Seq<char>>, n: int, key: Seq<char>)
    requires
        0 <= n <= parts.len(),
    ensures
        values_for(parts.take(n), key).len() <= values_for(parts, key).len(),
        forall|j: int|
            0 <= j < values_for(parts.take(n), key).len() ==> values_for(parts, key)[j]
                == values_for(parts.take(n), key)[j],
    decreases parts.len() - n,
{
    if n < parts.len() {
        lemma_values_for_prefix(parts, n + 1, key);
        let t = parts.take(n + 1);
        assert(t.drop_last() =~= parts.take(n));
    } else {
        assert(parts.take(n) =~= parts);
    }
}

/// Whether every character of `v` is numeric.
fn all_numeric_chars(v: &Vec<char>) -> (r: bool)
    ensures
        r == all_numeric(v@),
        ascii_digits(v@) ==> r,
{
    let mut i: usize = 0;
    while i < v.len()
        invariant
            i <= v.len(),
            forall|j: int| 0 <= j < i ==> #[trigger] char_is_numeric(v@[j]),
        decreases v.len() - i,
    {
        if !is_numeric(v[i]) {
            assert(!('0' <= v@[i as int] <= '9'));
            return false;
        }
        i = i + 1;
    }
    true
}

/// An optional flag value read as a boolean.
fn flag_of_chars(o: &Option<Vec<char>>) -> (r: Option<bool>)
    ensures
        r == match o {
            Some(v) => Some(flag_value(v@)),
            None => None,
        },
{
    match o {
        Some(v) => Some(eq_str(v, "1") || eq_str(v, "true")),
        None => None,
    }
}

/// An optional value as an optional `String`.
fn opt_string(o: &Option<Vec<char>>) -> (r: Option<String>)
    ensures
        text::opt_view(r) == match o {
            Some(v) => Some(v@),
            None => None,
        },
{
    match o {
        Some(v) => Some(string_of(v)),
        None => None,
    }
}

impl QemuVmResource {
    /// Reads a disk string such as `local-lvm:10,format=raw,iothread=1` in
    /// `slot` into its attributes.
    pub fn parse_disk_string(disk_string: &str, slot: &str) -> (r: ParsedDisk)
        ensures
            r@ == parse_disk_spec(disk_string@, slot@),
            match text::split_once_spec(text::split_spec(disk_string@, ',')[0], ':') {
                Some((_, volume)) => ascii_digits(volume) ==> all_numeric(volume),
                None => true,
            },
    {
        let slot_chars = chars_of(slot);
        let disk_type = if starts_with_str(&slot_chars, "scsi") {
            "scsi"
        } else if starts_with_str(&slot_chars, "virtio") {
            "virtio"
        } else if starts_with_str(&slot_chars, "ide") {
            "ide"
        } else if starts_with_str(&slot_chars, "sata") {
            "sata"
        } else {
            "unknown"
        };
        let s = chars_of(disk_string);
        let parts = split_chars(&s, ',');
        let ghost pv = text::split_spec(s@, ',');
        proof {
            text::lemma_split_len(s@, ',');
        }
        let first = &parts[0];
        let mut storage: Vec<char> = first.clone();
        let mut iso: Option<Vec<char>> = None;
        let mut head_size: Option<Vec<char>> = None;
        match split_once_chars(first, ':') {
            Some((st, rest)) => {
                storage = st;
                let numeric = all_numeric_chars(&rest);
                if contains_str(&rest, "iso/") {
                    iso = Some(rest);
                } else if eq_str(&rest, "cloudinit") {
                } else {
                    let volume = string_of(&rest);
                    head_size = match volume_size(volume.as_str(), numeric) {
                        Some(z) => Some(chars_of(z.as_str())),
                        None => None,
                    };
                }
            },
            None => {},
        }
        proof {
            let h = disk_head(pv[0]);
            assert(storage@ == h.0);
            assert(match iso {
                Some(v) => h.1 == Some(v@),
                None => h.1 is None,
            });
            assert(match head_size {
                Some(v) => h.2 == Some(v@),
                None => h.2 is None,
            });
        }
        let size = match head_size {
            Some(z) => Some(z),
            None => first_for_key(&parts, "size"),
        };
        let mut rest_parts: Vec<Vec<char>> = Vec::new();
        let mut i: usize = 1;
        while i < parts.len()
            invariant
                1 <= i <= parts.len(),
                text::views(parts@) == pv,
                text::views(rest_parts@) == pv.subrange(1, i as int),
            decreases parts.len() - i,
        {
            let ghost before = text::views(rest_parts@);
            rest_parts.push(parts[i].clone());
            assert(text::views(rest_parts@) =~= before.push(pv[i as int]));
            assert(pv.subrange(1, i + 1) =~= pv.subrange(1, i as int).push(pv[i as int]));
            i = i + 1;
        }
        assert(pv.subrange(1, parts.len() as int) =~= pv.drop_first());
        let media = last_for_key(&rest_parts, "media");
        let format = last_for_key(&rest_parts, "format");
        let iothread = last_for_key(&rest_parts, "iothread");
        let ssd = last_for_key(&rest_parts, "ssd");
        let discard = last_for_key(&rest_parts, "discard");
        let cache = last_for_key(&rest_parts, "cache");
        let backup = last_for_key(&rest_parts, "backup");
        let replicate = last_for_key(&rest_parts, "replicate");
        let discard_flag = match &discard {
            Some(v) => Some(eq_str(v, "on") || eq_str(v, "1")),
            None => None,
        };
        ParsedDisk {
            slot: String::from_str(slot),
            disk_type: String::from_str(disk_type),
            storage: string_of(&storage),
            iso: opt_string(&iso),
            size: opt_string(&size),
            media: opt_string(&media),
            format: opt_string(&format),
            iothread: flag_of_chars(&iothread),
            emulatessd: flag_of_chars(&ssd),
            discard: discard_flag,
            cache: opt_string(&cache),
            backup: flag_of_chars(&backup),
            replicate: flag_of_chars(&replicate),
        }
    }
}

/// A `disk` block of the configuration, as the string builder reads it:
/// each attribute present when the block holds it with the expected type;
/// the I/O limits are the block's numbers truncated to integers.
pub struct DiskBlock {
    pub slot: Option<String>,
    pub storage: Option<String>,
    pub size: Option<String>,
    pub format: Option<String>,
    pub iothread: Option<bool>,
    pub emulatessd: Option<bool>,
    pub discard: Option<bool>,
    pub backup: Option<bool>,
    pub replicate: Option<bool>,
    pub readonly: Option<bool>,
    pub iops_r_burst: Option<i64>,
    pub iops_r_concurrent: Option<i64>,
    pub iops_wr_burst: Option<i64>,
    pub iops_wr_concurrent: Option<i64>,
    pub mbps_r_burst: Option<i64>,
    pub mbps_r_concurrent: Option<i64>,
    pub mbps_wr_burst: Option<i64>,
    pub mbps_wr_concurrent: Option<i64>,
}

/// `,text` when `cond` holds, nothing otherwise.
pub open spec fn opt_flag_entry(cond: bool, entry: Seq<char>) -> Seq<char> {
    if cond {
        seq![','] + entry
    } else {
        Seq::<char>::empty()
    }
}

/// The decimal text of an optional integer.
pub open spec fn opt_num(v: Option<i64>) -> Option<Seq<char>> {
    match v {
        Some(n) => Some(text::int_decimal(n as int)),
        None => None,
    }
}

/// `,format=F` for a non-empty format.
pub open spec fn disk_format_text(b: DiskBlock) -> Seq<char> {
    match b.format {
        Some(f) => if f@.len() > 0 {
            seq![','] + "format="@ + f@
        } else {
            Seq::<char>::empty()
        },
        None => Seq::<char>::empty(),
    }
}

/// The flag entries of a disk block, in order.
pub open spec fn disk_flags_text(b: DiskBlock) -> Seq<char> {
    opt_flag_entry(b.iothread == Some(true), "iothread=1"@) + opt_flag_entry(
        b.emulatessd == Some(true),
        "ssd=1"@,
    ) + opt_flag_entry(b.discard == Some(true), "discard=on"@) + opt_flag_entry(
        b.backup == Some(false),
        "backup=0"@,
    ) + opt_flag_entry(b.replicate == Some(false), "replicate=0"@) + opt_flag_entry(
        b.readonly == Some(true),
        "ro=1"@,
    )
}

/// The I/O and bandwidth limit entries of a disk block, in order.
pub open spec fn disk_limits_text(b: DiskBlock) -> Seq<char> {
    opt_entry("iops_rd_max"@, opt_num(b.iops_r_burst)) + opt_entry(
        "iops_rd"@,
        opt_num(b.iops_r_concurrent),
    ) + opt_entry("iops_wr_max"@, opt_num(b.iops_wr_burst)) + opt_entry(
        "iops_wr"@,
        opt_num(b.iops_wr_concurrent),
    ) + opt_entry("mbps_rd_max"@, opt_num(b.mbps_r_burst)) + opt_entry(
        "mbps_rd"@,
        opt_num(b.mbps_r_concurrent),
    ) + opt_entry("mbps_wr_max"@, opt_num(b.mbps_wr_burst)) + opt_entry(
        "mbps_wr"@,
        opt_num(b.mbps_wr_concurrent),
    )
}

/// The Proxmox disk string of a block with storage `storage` and size
/// `size`: `storage:N` (the size without its trailing `G`, then `g`), then
/// the format, the flags and the limits.
pub open spec fn disk_block_spec(b: DiskBlock, storage: Seq<char>, size: Seq<char>) -> Seq<char> {
    storage + seq![':'] + text::trim_end_char(text::trim_end_char(size, 'G'), 'g') + disk_format_text(b)
        + disk_flags_text(b) + disk_limits_text(b)
}

/// Appends `,text` when `cond` holds.
fn push_flag(out: &mut Vec<char>, cond: bool, entry: &str)
    ensures
        final(out)@ == old(out)@ + opt_flag_entry(cond, entry@),
{
    let ghost start = out@;
    if cond {
        out.push(',');
        push_str(out, entry);
        assert(out@ =~= start + opt_flag_entry(cond, entry@));
    } else {
        assert(out@ =~= start + opt_flag_entry(cond, entry@));
    }
}

/// Appends `,key=N` for a present integer.
fn push_num(out: &mut Vec<char>, key: &str, v: Option<i64>)
    ensures
        final(out)@ == old(out)@ + opt_entry(key@, opt_num(v)),
{
    match v {
        Some(n) => {
            let mut d: Vec<char> = Vec::new();
            push_i64(&mut d, n);
            assert(d@ =~= text::int_decimal(n as int));
            push_entry(out, key, &d);
        },
        None => {
            assert(out@ =~= out@ + opt_entry(key@, opt_num(v)));
        },
    }
}

/// Appends the flag entries of `b`.
fn push_disk_flags(out: &mut Vec<char>, b: &DiskBlock)
    ensures
        final(out)@ == old(out)@ + disk_flags_text(*b),
{
    let ghost s0 = out@;
    let ghost p1 = opt_flag_entry(b.iothread == Some(true), "iothread=1"@);
    let ghost p2 = opt_flag_entry(b.emulatessd == Some(true), "ssd=1"@);
    let ghost p3 = opt_flag_entry(b.discard == Some(true), "discard=on"@);
    let ghost p4 = opt_flag_entry(b.backup == Some(false), "backup=0"@);
    let ghost p5 = opt_flag_entry(b.replicate == Some(false), "replicate=0"@);
    let ghost p6 = opt_flag_entry(b.readonly == Some(true), "ro=1"@);
    push_flag(out, b.iothread == Some(true), "iothread=1");
    push_flag(out, b.emulatessd == Some(true), "ssd=1");
    proof { vstd::seq_lib::lemma_concat_associative(s0, p1, p2); }
    push_flag(out, b.discard == Some(true), "discard=on");
    proof { vstd::seq_lib::lemma_concat_associative(s0, p1 + p2, p3); }
    push_flag(out, b.backup == Some(false), "backup=0");
    proof { vstd::seq_lib::lemma_concat_associative(s0, p1 + p2 + p3, p4); }
    push_flag(out, b.replicate == Some(false), "replicate=0");
    proof { vstd::seq_lib::lemma_concat_associative(s0, p1 + p2 + p3 + p4, p5); }
    push_flag(out, b.readonly == Some(true), "ro=1");
    proof { vstd::seq_lib::lemma_concat_associative(s0, p1 + p2 + p3 + p4 + p5, p6); }
}

/// Appends the limit entries of `b`.
fn push_disk_limits(out: &mut Vec<char>, b: &DiskBlock)
    ensures
        final(out)@ == old(out)@ + disk_limits_text(*b),
{
    let ghost s0 = out@;
    let ghost p1 = opt_entry("iops_rd_max"@, opt_num(b.iops_r_burst));
    let ghost p2 = opt_entry("iops_rd"@, opt_num(b.iops_r_concurrent));
    let ghost p3 = opt_entry("iops_wr_max"@, opt_num(b.iops_wr_burst));
    let ghost p4 = opt_entry("iops_wr"@, opt_num(b.iops_wr_concurrent));
    let ghost p5 = opt_entry("mbps_rd_max"@, opt_num(b.mbps_r_burst));
    let ghost p6 = opt_entry("mbps_rd"@, opt_num(b.mbps_r_concurrent));
    let ghost p7 = opt_entry("mbps_wr_max"@, opt_num(b.mbps_wr_burst));
    let ghost p8 = opt_entry("mbps_wr"@, opt_num(b.mbps_wr_concurrent));
    push_num(out, "iops_rd_max", b.iops_r_burst);
    push_num(out, "iops_rd", b.iops_r_concurrent);
    proof { vstd::seq_lib::lemma_concat_associative(s0, p1, p2); }
    push_num(out, "iops_wr_max", b.iops_wr_burst);
    proof { vstd::seq_lib::lemma_concat_associative(s0, p1 + p2, p3); }
    push_num(out, "iops_wr", b.iops_wr_concurrent);
    proof { vstd::seq_lib::lemma_concat_associative(s0, p1 + p2 + p3, p4); }
    push_num(out, "mbps_rd_max", b.mbps_r_burst);
    proof { vstd::seq_lib::lemma_concat_associative(s0, p1 + p2 + p3 + p4, p5); }
    push_num(out, "mbps_rd", b.mbps_r_concurrent);
    proof { vstd::seq_lib::lemma_concat_associative(s0, p1 + p2 + p3 + p4 + p5, p6); }
    push_num(out, "mbps_wr_max", b.mbps_wr_burst);
    proof { vstd::seq_lib::lemma_concat_associative(s0, p1 + p2 + p3 + p4 + p5 + p6, p7); }
    push_num(out, "mbps_wr", b.mbps_wr_concurrent);
    proof { vstd::seq_lib::lemma_concat_associative(s0, p1 + p2 + p3 + p4 + p5 + p6 + p7, p8); }
}

/// The disk string of `b` with the given storage and size.
fn disk_block_chars(b: &DiskBlock, storage: &String, size: &String) -> (r: Vec<char>)
    ensures
        r@ == disk_block_spec(*b, storage@, size@),
{
    let mut out: Vec<char> = chars_of(storage.as_str());
    out.push(':');
    let sz = chars_of(size.as_str());
    let t1 = trim_end(&sz, 'G');
    let t2 = trim_end(&t1, 'g');
    push_all(&mut out, &t2);
    let ghost s0 = out@;
    match &b.format {
        Some(f) => {
            if f.unicode_len() > 0 {
                out.push(',');
                push_str(&mut out, "format=");
                push_str(&mut out, f.as_str());
            }
        },
        None => {},
    }
    assert(out@ =~= s0 + disk_format_text(*b));
    push_disk_flags(&mut out, b);
    push_disk_limits(&mut out, b);
    out
}

/// A `cdrom` block: slot and ISO path when held as strings.
pub struct CdromBlock {
    pub slot: Option<String>,
    pub iso: Option<String>,
}

/// A `cloudinit_drive` block: slot and storage when held as strings.
pub struct CloudInitDriveBlock {
    pub slot: Option<String>,
    pub storage: Option<String>,
}

/// A `serial` block: its `id` number and its `type`.
pub struct SerialBlock {
    pub id: Option<Number>,
    pub kind: Option<String>,
}

/// An `efidisk` block: each of its attributes as the block holds it.
pub struct EfiDiskBlock {
    pub storage: Option<AttrValue>,
    pub efitype: Option<AttrValue>,
    pub format: Option<AttrValue>,
    pub pre_enrolled_keys: Option<AttrValue>,
}

/// The slot and string of a `disk` block that converts.
pub open spec fn disk_block_ok(d: Option<DiskBlock>) -> Option<(Seq<char>, Seq<char>)> {
    match d {
        Some(b) => match (b.slot, b.storage, b.size) {
            (Some(sl), Some(st), Some(sz)) => Some((sl@, disk_block_spec(b, st@, sz@))),
            _ => None,
        },
        None => None,
    }
}

/// The slot and string of a `cdrom` block that converts.
pub open spec fn cdrom_block_ok(c: Option<CdromBlock>) -> Option<(Seq<char>, Seq<char>)> {
    match c {
        Some(b) => match (b.slot, b.iso) {
            (Some(sl), Some(iso)) => Some((sl@, iso@ + ",media=cdrom"@)),
            _ => None,
        },
        None => None,
    }
}

/// The slot and string of a `cloudinit_drive` block that converts.
pub open spec fn cloudinit_drive_ok(c: Option<CloudInitDriveBlock>) -> Option<(Seq<char>, Seq<char>)> {
    match c {
        Some(b) => match (b.slot, b.storage) {
            (Some(sl), Some(st)) => Some((sl@, st@ + ":cloudinit"@)),
            _ => None,
        },
        None => None,
    }
}

/// The port number and type of a `serial` block that converts.
pub open spec fn serial_block_ok(s: Option<SerialBlock>) -> Option<(u32, Seq<char>)> {
    match s {
        Some(b) => match (b.id, b.kind) {
            (Some(id), Some(t)) => Some((trunc_u32(id.bits), t@)),
            _ => None,
        },
        None => None,
    }
}

/// The string of an `efidisk` block that converts.
pub open spec fn efidisk_block_ok(e: Option<EfiDiskBlock>) -> Option<Seq<char>> {
    match e {
        Some(b) => match text_view(b.storage) {
            Some(st) => Some(st + ":1"@ + opt_entry("efitype"@, text_view(b.efitype))),
            None => None,
        },
        None => None,
    }
}

/// The disk string to keep in state: the configured one when it is in the
/// short form (holding `format=` and no `vm-`), else the one Proxmox
/// returned.
pub open spec fn normalize_disk_spec(disk: Seq<char>, current: Option<Seq<char>>) -> Seq<char> {
    match current {
        Some(c) => if text::contains_seq(c, "format="@) && !text::contains_seq(c, "vm-"@) {
            c
        } else {
            disk
        },
        None => disk,
    }
}

/// Tags with every `;` written as `,`.
pub open spec fn tags_spec(tags: Seq<char>) -> Seq<char> {
    tags.map_values(|c: char| if c == ';' { ',' } else { c })
}

/// Normalized tags hold no `;`, and normalizing them again changes
/// nothing.
pub proof fn lemma_tags_normalized(tags: Seq<char>)
    ensures
        !tags_spec(tags).contains(';'),
        tags_spec(tags_spec(tags)) == tags_spec(tags),
{
    assert(tags_spec(tags_spec(tags)) =~= tags_spec(tags));
}

/// A disk string kept from the plan is kept again when refreshed against
/// itself: normalizing against the configured string is idempotent.
pub proof fn lemma_disk_normalize_idempotent(disk: Seq<char>, current: Option<Seq<char>>)
    ensures
        normalize_disk_spec(normalize_disk_spec(disk, current), current) == normalize_disk_spec(
            disk,
            current,
        ),
{
}

impl QemuVmResource {
    /// The slot and Proxmox disk string of a `disk` block; an error when the
    /// block is not a map (`None`) or lacks its slot, storage or size, in
    /// that order.
    pub fn disk_block_to_api_string(disk: &Option<DiskBlock>) -> (r: Result<(String, String), String>)
        ensures
            match disk {
                None => r matches Err(e) && e@ == "Disk must be a map"@,
                Some(b) => match (b.slot, b.storage, b.size) {
                    (None, _, _) => r matches Err(e) && e@ == "Slot is required"@,
                    (Some(_), None, _) => r matches Err(e) && e@ == "Storage is required"@,
                    (Some(_), Some(_), None) => r matches Err(e) && e@ == "Size is required"@,
                    (Some(slot), Some(st), Some(sz)) => r matches Ok((s, d)) && s@ == slot@ && d@
                        == disk_block_spec(*b, st@, sz@),
                },
            },
    {
        match disk {
            None => Err(String::from_str("Disk must be a map")),
            Some(b) => {
                let slot = match &b.slot {
                    Some(s) => s.clone(),
                    None => {
                        return Err(String::from_str("Slot is required"));
                    },
                };
                let storage = match &b.storage {
                    Some(s) => s,
                    None => {
                        return Err(String::from_str("Storage is required"));
                    },
                };
                let size = match &b.size {
                    Some(s) => s,
                    None => {
                        return Err(String::from_str("Size is required"));
                    },
                };
                let d = disk_block_chars(b, storage, size);
                Ok((slot, string_of(&d)))
            },
        }
    }

    /// The slot and Proxmox string of a `cdrom` block: `ISO,media=cdrom`.
    pub fn cdrom_block_to_api_string(cdrom: &Option<CdromBlock>) -> (r: Result<(String, String), String>)
        ensures
            match cdrom {
                None => r matches Err(e) && e@ == "CD-ROM must be a map"@,
                Some(b) => match (b.slot, b.iso) {
                    (None, _) => r matches Err(e) && e@ == "Slot is required"@,
                    (Some(_), None) => r matches Err(e) && e@ == "ISO is required"@,
                    (Some(slot), Some(iso)) => r matches Ok((s, d)) && s@ == slot@ && d@ == iso@
                        + ",media=cdrom"@,
                },
            },
    {
        match cdrom {
            None => Err(String::from_str("CD-ROM must be a map")),
            Some(b) => {
                let slot = match &b.slot {
                    Some(s) => s.clone(),
                    None => {
                        return Err(String::from_str("Slot is required"));
                    },
                };
                let iso = match &b.iso {
                    Some(s) => s,
                    None => {
                        return Err(String::from_str("ISO is required"));
                    },
                };
                let mut out = chars_of(iso.as_str());
                push_str(&mut out, ",media=cdrom");
                Ok((slot, string_of(&out)))
            },
        }
    }

    /// The slot and Proxmox string of a `cloudinit_drive` block:
    /// `STORAGE:cloudinit`.
    pub fn cloudinit_drive_block_to_api_string(ci_drive: &Option<CloudInitDriveBlock>) -> (r: Result<
        (String, String),
        String,
    >)
        ensures
            match ci_drive {
                None => r matches Err(e) && e@ == "Cloud-init drive must be a map"@,
                Some(b) => match (b.slot, b.storage) {
                    (None, _) => r matches Err(e) && e@ == "Slot is required"@,
                    (Some(_), None) => r matches Err(e) && e@ == "Storage is required"@,
                    (Some(slot), Some(st)) => r matches Ok((s, d)) && s@ == slot@ && d@ == st@
                        + ":cloudinit"@,
                },
            },
    {
        match ci_drive {
            None => Err(String::from_str("Cloud-init drive must be a map")),
            Some(b) => {
                let slot = match &b.slot {
                    Some(s) => s.clone(),
                    None => {
                        return Err(String::from_str("Slot is required"));
                    },
                };
                let storage = match &b.storage {
                    Some(s) => s,
                    None => {
                        return Err(String::from_str("Storage is required"));
                    },
                };
                let mut out = chars_of(storage.as_str());
                push_str(&mut out, ":cloudinit");
                Ok((slot, string_of(&out)))
            },
        }
    }

    /// The port number and type of a `serial` block.
    pub fn serial_block_to_api_string(serial: &Option<SerialBlock>) -> (r: Result<(u32, String), String>)
        ensures
            match serial {
                None => r matches Err(e) && e@ == "Serial must be a map"@,
                Some(b) => match (b.id, b.kind) {
                    (None, _) => r matches Err(e) && e@ == "ID is required"@,
                    (Some(_), None) => r matches Err(e) && e@ == "Type is required"@,
                    (Some(id), Some(t)) => r matches Ok((i, s)) && i == trunc_u32(id.bits) && s@
                        == t@,
                },
            },
    {
        match serial {
            None => Err(String::from_str("Serial must be a map")),
            Some(b) => {
                let id = match &b.id {
                    Some(i) => number_to_u32(i),
                    None => {
                        return Err(String::from_str("ID is required"));
                    },
                };
                match &b.kind {
                    Some(t) => Ok((id, t.clone())),
                    None => Err(String::from_str("Type is required")),
                }
            },
        }
    }

    /// The Proxmox string of an `efidisk` block: `STORAGE:1`, then
    /// `efitype=…` when given.
    pub fn efidisk_block_to_api_string(efidisk: &Option<EfiDiskBlock>) -> (r: Result<String, String>)
        ensures
            match efidisk {
                None => r matches Err(e) && e@ == "EFI disk must be a map"@,
                Some(b) => match text_view(b.storage) {
                    None => r matches Err(e) && e@ == "Storage is required"@,
                    Some(st) => r matches Ok(d) && d@ == st + ":1"@ + opt_entry(
                        "efitype"@,
                        text_view(b.efitype),
                    ),
                },
            },
    {
        match efidisk {
            None => Err(String::from_str("EFI disk must be a map")),
            Some(b) => {
                let storage = match text_of(&b.storage) {
                    Some(s) => s,
                    None => {
                        return Err(String::from_str("Storage is required"));
                    },
                };
                let mut out = chars_of(storage.as_str());
                push_str(&mut out, ":1");
                match text_of(&b.efitype) {
                    Some(t) => {
                        let tv = chars_of(t.as_str());
                        push_entry(&mut out, "efitype", &tv);
                    },
                    None => {},
                }
                assert(out@ =~= storage@ + ":1"@ + opt_entry("efitype"@, text_view(b.efitype)));
                Ok(string_of(&out))
            },
        }
    }

    /// The disk string to keep in state: the configured one when it is in
    /// the short form (`storage:size,format=…`, holding `format=` and no
    /// `vm-`), else the one Proxmox returned.
    pub fn normalize_disk_config(disk_config: &str, current_config: Option<&str>) -> (r: String)
        ensures
            r@ == normalize_disk_spec(
                disk_config@,
                match current_config {
                    Some(c) => Some(c@),
                    None => None,
                },
            ),
    {
        match current_config {
            Some(c) => {
                let cv = chars_of(c);
                if contains_str(&cv, "format=") && !contains_str(&cv, "vm-") {
                    return String::from_str(c);
                }
            },
            None => {},
        }
        String::from_str(disk_config)
    }

    /// Tags with every `;` written as `,`.
    pub fn normalize_tags(tags: &str) -> (r: String)
        ensures
            r@ == tags_spec(tags@),
    {
        let cs = chars_of(tags);
        let mut out: Vec<char> = Vec::new();
        let mut i: usize = 0;
        while i < cs.len()
            invariant
                i <= cs.len(),
                cs@ == tags@,
                out@ == tags@.take(i as int).map_values(|c: char| if c == ';' { ',' } else { c }),
            decreases cs.len() - i,
        {
            let c = cs[i];
            if c == ';' {
                out.push(',');
            } else {
                out.push(c);
            }
            i = i + 1;
            assert(out@ =~= tags@.take(i as int).map_values(
                |c: char|
                    if c == ';' {
                        ','
                    } else {
                        c
                    },
            ));
        }
        assert(tags@.take(cs.len() as int) =~= tags@);
        string_of(&out)
    }
}

} // verus!
