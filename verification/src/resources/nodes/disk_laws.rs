//! Laws of disk strings: reading back the string written for a `disk`
//! block gives the block's flags and format.
use vstd::prelude::*;
use vstd::string::*;
use crate::text;
use crate::text::{opt_view, split_spec};
use crate::resources::nodes::disk::{
    DiskBlock, disk_block_spec, disk_flags_text, disk_format_text, disk_limits_text, opt_flag_entry,
    parse_disk_spec,
};
use crate::resources::nodes::network::{opt_entry, opt_int_text, values_for};
use crate::resources::nodes::network_laws::{
    add_entry, kv, opt_free, opt_seq, lemma_bits, lemma_int_text_free, lemma_split_entry, lemma_values_entry,
};

verus! {

/// `v` when `cond` holds, nothing otherwise.
pub open spec fn value_if(cond: bool, v: Seq<char>) -> Option<Seq<char>> {
    if cond {
        Some(v)
    } else {
        None
    }
}

/// The format a disk string gives: a non-empty `format`.
pub open spec fn format_value(b: DiskBlock) -> Option<Seq<char>> {
    match b.format {
        Some(f) => value_if(f@.len() > 0, f@),
        None => None,
    }
}

proof fn lemma_trim_free(s: Seq<char>, c: char, x: char)
    requires
        !s.contains(x),
    ensures
        !text::trim_end_char(s, c).contains(x),
    decreases s.len(),
{
    if s.len() > 0 && s.last() == c {
        assert(!s.drop_last().contains(x)) by {
            if s.drop_last().contains(x) {
                let i = choose|i: int| 0 <= i < s.drop_last().len() && s.drop_last()[i] == x;
                assert(s[i] == x);
            }
        }
        lemma_trim_free(s.drop_last(), c, x);
    }
}

proof fn lemma_flag_entry(cond: bool, lit: Seq<char>, k: Seq<char>, v: Seq<char>)
    requires
        lit =~= k + seq!['='] + v,
    ensures
        opt_flag_entry(cond, lit) == opt_entry(k, value_if(cond, v)),
{
    if cond {
        assert(seq![','] + lit =~= seq![','] + k + seq!['='] + v);
    }
}

proof fn lemma_disk_literals()
    ensures
        "format="@ =~= "format"@ + seq!['='],
        "iothread=1"@ =~= "iothread"@ + seq!['='] + "1"@,
        "ssd=1"@ =~= "ssd"@ + seq!['='] + "1"@,
        "discard=on"@ =~= "discard"@ + seq!['='] + "on"@,
        "backup=0"@ =~= "backup"@ + seq!['='] + "0"@,
        "replicate=0"@ =~= "replicate"@ + seq!['='] + "0"@,
        "ro=1"@ =~= "ro"@ + seq!['='] + "1"@,
{
    reveal_strlit("format=");
    reveal_strlit("format");
    reveal_strlit("iothread=1");
    reveal_strlit("iothread");
    reveal_strlit("1");
    reveal_strlit("ssd=1");
    reveal_strlit("ssd");
    reveal_strlit("discard=on");
    reveal_strlit("discard");
    reveal_strlit("on");
    reveal_strlit("backup=0");
    reveal_strlit("backup");
    reveal_strlit("0");
    reveal_strlit("replicate=0");
    reveal_strlit("replicate");
    reveal_strlit("ro=1");
    reveal_strlit("ro");
}

/// The keys of a disk string's entries: none is `backup` but `backup`
/// itself, and none holds `,` or `=`.
proof fn lemma_disk_keys()
    ensures
        "format"@ != "backup"@ && "iothread"@ != "backup"@ && "ssd"@ != "backup"@,
        "discard"@ != "backup"@ && "replicate"@ != "backup"@ && "ro"@ != "backup"@,
        "iops_rd_max"@ != "backup"@ && "iops_rd"@ != "backup"@ && "iops_wr_max"@ != "backup"@,
        "iops_wr"@ != "backup"@ && "mbps_rd_max"@ != "backup"@ && "mbps_rd"@ != "backup"@,
        "mbps_wr_max"@ != "backup"@ && "mbps_wr"@ != "backup"@,
        "format"@ != "iothread"@ && "format"@ != "ssd"@ && "format"@ != "discard"@,
        "format"@ != "replicate"@ && "format"@ != "ro"@,
        "iothread"@ != "ssd"@ && "iothread"@ != "discard"@ && "iothread"@ != "replicate"@,
        "iothread"@ != "ro"@,
        "ssd"@ != "discard"@ && "ssd"@ != "replicate"@ && "ssd"@ != "ro"@,
        "discard"@ != "replicate"@ && "discard"@ != "ro"@ && "replicate"@ != "ro"@,
        "discard"@ != "iops_rd"@ && "discard"@ != "iops_wr"@ && "discard"@ != "mbps_rd"@,
        "discard"@ != "mbps_wr"@,
        "iops_rd_max"@ != "iops_wr_max"@ && "iops_rd_max"@ != "mbps_rd_max"@ && "iops_rd_max"@ != "mbps_wr_max"@,
        "iops_wr_max"@ != "mbps_rd_max"@ && "iops_wr_max"@ != "mbps_wr_max"@ && "mbps_rd_max"@ != "mbps_wr_max"@,
        "iops_rd"@ != "iops_wr"@ && "iops_rd"@ != "mbps_rd"@ && "iops_rd"@ != "mbps_wr"@,
        "iops_wr"@ != "mbps_rd"@ && "iops_wr"@ != "mbps_wr"@ && "mbps_rd"@ != "mbps_wr"@,
        "iops_rd"@ != "discard"@ && "iops_wr"@ != "discard"@,
        !"format"@.contains(',') && !"format"@.contains('='),
        !"iothread"@.contains(',') && !"iothread"@.contains('='),
        !"ssd"@.contains(',') && !"ssd"@.contains('='),
        !"discard"@.contains(',') && !"discard"@.contains('='),
        !"backup"@.contains(',') && !"backup"@.contains('='),
        !"replicate"@.contains(',') && !"replicate"@.contains('='),
        !"ro"@.contains(',') && !"ro"@.contains('='),
        !"iops_rd_max"@.contains(',') && !"iops_rd_max"@.contains('='),
        !"iops_rd"@.contains(',') && !"iops_rd"@.contains('='),
        !"iops_wr_max"@.contains(',') && !"iops_wr_max"@.contains('='),
        !"iops_wr"@.contains(',') && !"iops_wr"@.contains('='),
        !"mbps_rd_max"@.contains(',') && !"mbps_rd_max"@.contains('='),
        !"mbps_rd"@.contains(',') && !"mbps_rd"@.contains('='),
        !"mbps_wr_max"@.contains(',') && !"mbps_wr_max"@.contains('='),
        !"mbps_wr"@.contains(',') && !"mbps_wr"@.contains('='),
        !"1"@.contains(',') && !"0"@.contains(',') && !"on"@.contains(','),
        "format"@.len() == 6,
        "iothread"@.len() == 8,
        "ssd"@.len() == 3,
        "discard"@.len() == 7,
        "backup"@.len() == 6,
        "replicate"@.len() == 9,
        "ro"@.len() == 2,
        "iops_rd_max"@.len() == 11,
        "iops_rd"@.len() == 7,
        "iops_wr_max"@.len() == 11,
        "iops_wr"@.len() == 7,
        "mbps_rd_max"@.len() == 11,
        "mbps_rd"@.len() == 7,
        "mbps_wr_max"@.len() == 11,
        "mbps_wr"@.len() == 7,
        "media"@.len() == 5,
        "cache"@.len() == 5,
{
    reveal_strlit("format");
    reveal_strlit("iothread");
    reveal_strlit("ssd");
    reveal_strlit("discard");
    reveal_strlit("backup");
    reveal_strlit("replicate");
    reveal_strlit("ro");
    reveal_strlit("iops_rd_max");
    reveal_strlit("iops_rd");
    reveal_strlit("iops_wr_max");
    reveal_strlit("iops_wr");
    reveal_strlit("mbps_rd_max");
    reveal_strlit("mbps_rd");
    reveal_strlit("mbps_wr_max");
    reveal_strlit("mbps_wr");
    reveal_strlit("1");
    reveal_strlit("0");
    reveal_strlit("on");
    reveal_strlit("media");
    reveal_strlit("cache");
    assert("format"@[0] != "backup"@[0]);
    assert("discard"@[0] != "iops_rd"@[0] && "discard"@[0] != "mbps_rd"@[0]);
    assert("format"@.len() == 6);
    assert("iops_rd_max"@[0] != "mbps_rd_max"@[0] && "iops_rd_max"@[5] != "iops_wr_max"@[5]);
    assert("mbps_rd_max"@[5] != "mbps_wr_max"@[5] && "iops_wr_max"@[0] != "mbps_wr_max"@[0]);
    assert("iops_rd"@[0] != "mbps_rd"@[0] && "iops_rd"@[5] != "iops_wr"@[5]);
    assert("mbps_rd"@[5] != "mbps_wr"@[5] && "iops_wr"@[0] != "mbps_wr"@[0]);
    assert("backup"@.len() == 6 && "iothread"@.len() == 8 && "ssd"@.len() == 3);
    assert("discard"@.len() == 7 && "replicate"@.len() == 9 && "ro"@.len() == 2);
    assert("iops_rd_max"@.len() == 11 && "iops_rd"@.len() == 7 && "iops_wr_max"@.len() == 11);
    assert("iops_wr"@.len() == 7 && "mbps_rd_max"@.len() == 11 && "mbps_rd"@.len() == 7);
    assert("mbps_wr_max"@.len() == 11 && "mbps_wr"@.len() == 7);
}

proof fn lemma_drop_first_entry(p: Seq<Seq<char>>, k: Seq<char>, v: Option<Seq<char>>)
    requires
        p.len() >= 1,
    ensures
        add_entry(p, k, v).drop_first() == add_entry(p.drop_first(), k, v),
        add_entry(p, k, v)[0] == p[0],
{
    match v {
        Some(x) => {
            assert(p.push(kv(k, x)).drop_first() =~= p.drop_first().push(
                kv(k, x),
            ));
        },
        None => {},
    }
}

proof fn lemma_append_six(
    x: Seq<char>,
    a: Seq<char>,
    b: Seq<char>,
    c: Seq<char>,
    d: Seq<char>,
    e: Seq<char>,
    f: Seq<char>,
)
    ensures
        x + (a + b + c + d + e + f) == x + a + b + c + d + e + f,
{
    vstd::seq_lib::lemma_concat_associative(x, a + b + c + d + e, f);
    vstd::seq_lib::lemma_concat_associative(x, a + b + c + d, e);
    vstd::seq_lib::lemma_concat_associative(x, a + b + c, d);
    vstd::seq_lib::lemma_concat_associative(x, a + b, c);
    vstd::seq_lib::lemma_concat_associative(x, a, b);
}

proof fn lemma_append_eight(
    x: Seq<char>,
    a: Seq<char>,
    b: Seq<char>,
    c: Seq<char>,
    d: Seq<char>,
    e: Seq<char>,
    f: Seq<char>,
    g: Seq<char>,
    h: Seq<char>,
)
    ensures
        x + (a + b + c + d + e + f + g + h) == x + a + b + c + d + e + f + g + h,
{
    vstd::seq_lib::lemma_concat_associative(x, a + b + c + d + e + f + g, h);
    vstd::seq_lib::lemma_concat_associative(x, a + b + c + d + e + f, g);
    lemma_append_six(x, a, b, c, d, e, f);
}

/// The disk string of a block, entry by entry after its head.
proof fn lemma_disk_text_entries(b: DiskBlock, head: Seq<char>)
    ensures
        ({
    let v0 = format_value(b);
    let e0 = opt_entry("format"@, v0);
    let v1 = value_if(b.iothread == Some(true), "1"@);
    let e1 = opt_entry("iothread"@, v1);
    let v2 = value_if(b.emulatessd == Some(true), "1"@);
    let e2 = opt_entry("ssd"@, v2);
    let v3 = value_if(b.discard == Some(true), "on"@);
    let e3 = opt_entry("discard"@, v3);
    let v4 = value_if(b.backup == Some(false), "0"@);
    let e4 = opt_entry("backup"@, v4);
    let v5 = value_if(b.replicate == Some(false), "0"@);
    let e5 = opt_entry("replicate"@, v5);
    let v6 = value_if(b.readonly == Some(true), "1"@);
    let e6 = opt_entry("ro"@, v6);
    let v7 = opt_int_text(b.iops_r_burst);
    let e7 = opt_entry("iops_rd_max"@, v7);
    let v8 = opt_int_text(b.iops_r_concurrent);
    let e8 = opt_entry("iops_rd"@, v8);
    let v9 = opt_int_text(b.iops_wr_burst);
    let e9 = opt_entry("iops_wr_max"@, v9);
    let v10 = opt_int_text(b.iops_wr_concurrent);
    let e10 = opt_entry("iops_wr"@, v10);
    let v11 = opt_int_text(b.mbps_r_burst);
    let e11 = opt_entry("mbps_rd_max"@, v11);
    let v12 = opt_int_text(b.mbps_r_concurrent);
    let e12 = opt_entry("mbps_rd"@, v12);
    let v13 = opt_int_text(b.mbps_wr_burst);
    let e13 = opt_entry("mbps_wr_max"@, v13);
    let v14 = opt_int_text(b.mbps_wr_concurrent);
    let e14 = opt_entry("mbps_wr"@, v14);
            head + disk_format_text(b) + disk_flags_text(b) + disk_limits_text(b) == head + e0 + e1 + e2 + e3 + e4
                + e5 + e6 + e7 + e8 + e9 + e10 + e11 + e12 + e13 + e14
        }),
{
    let v0 = format_value(b);
    let e0 = opt_entry("format"@, v0);
    let v1 = value_if(b.iothread == Some(true), "1"@);
    let e1 = opt_entry("iothread"@, v1);
    let v2 = value_if(b.emulatessd == Some(true), "1"@);
    let e2 = opt_entry("ssd"@, v2);
    let v3 = value_if(b.discard == Some(true), "on"@);
    let e3 = opt_entry("discard"@, v3);
    let v4 = value_if(b.backup == Some(false), "0"@);
    let e4 = opt_entry("backup"@, v4);
    let v5 = value_if(b.replicate == Some(false), "0"@);
    let e5 = opt_entry("replicate"@, v5);
    let v6 = value_if(b.readonly == Some(true), "1"@);
    let e6 = opt_entry("ro"@, v6);
    let v7 = opt_int_text(b.iops_r_burst);
    let e7 = opt_entry("iops_rd_max"@, v7);
    let v8 = opt_int_text(b.iops_r_concurrent);
    let e8 = opt_entry("iops_rd"@, v8);
    let v9 = opt_int_text(b.iops_wr_burst);
    let e9 = opt_entry("iops_wr_max"@, v9);
    let v10 = opt_int_text(b.iops_wr_concurrent);
    let e10 = opt_entry("iops_wr"@, v10);
    let v11 = opt_int_text(b.mbps_r_burst);
    let e11 = opt_entry("mbps_rd_max"@, v11);
    let v12 = opt_int_text(b.mbps_r_concurrent);
    let e12 = opt_entry("mbps_rd"@, v12);
    let v13 = opt_int_text(b.mbps_wr_burst);
    let e13 = opt_entry("mbps_wr_max"@, v13);
    let v14 = opt_int_text(b.mbps_wr_concurrent);
    let e14 = opt_entry("mbps_wr"@, v14);
    lemma_disk_literals();
    assert(disk_format_text(b) == e0) by {
        match b.format {
            Some(f) => {
                if f@.len() > 0 {
                    assert(seq![','] + "format="@ + f@ =~= seq![','] + "format"@ + seq!['='] + f@);
                }
            },
            None => {},
        }
    }
    lemma_flag_entry(b.iothread == Some(true), "iothread=1"@, "iothread"@, "1"@);
    lemma_flag_entry(b.emulatessd == Some(true), "ssd=1"@, "ssd"@, "1"@);
    lemma_flag_entry(b.discard == Some(true), "discard=on"@, "discard"@, "on"@);
    lemma_flag_entry(b.backup == Some(false), "backup=0"@, "backup"@, "0"@);
    lemma_flag_entry(b.replicate == Some(false), "replicate=0"@, "replicate"@, "0"@);
    lemma_flag_entry(b.readonly == Some(true), "ro=1"@, "ro"@, "1"@);
    assert(disk_flags_text(b) == e1 + e2 + e3 + e4 + e5 + e6);
    assert(disk_limits_text(b) == e7 + e8 + e9 + e10 + e11 + e12 + e13 + e14);
    let x = head + e0;
    lemma_append_six(x, e1, e2, e3, e4, e5, e6);
    let y = x + e1 + e2 + e3 + e4 + e5 + e6;
    lemma_append_eight(y, e7, e8, e9, e10, e11, e12, e13, e14);
}

/// The entries after the head of the disk string written for `b`, as the
/// parts a split at `,` gives.
spec fn disk_entry_parts(b: DiskBlock) -> Seq<Seq<char>> {
    let r0 = Seq::<Seq<char>>::empty();
    let r1 = add_entry(r0, "format"@, format_value(b));
    let r2 = add_entry(r1, "iothread"@, value_if(b.iothread == Some(true), "1"@));
    let r3 = add_entry(r2, "ssd"@, value_if(b.emulatessd == Some(true), "1"@));
    let r4 = add_entry(r3, "discard"@, value_if(b.discard == Some(true), "on"@));
    let r5 = add_entry(r4, "backup"@, value_if(b.backup == Some(false), "0"@));
    let r6 = add_entry(r5, "replicate"@, value_if(b.replicate == Some(false), "0"@));
    let r7 = add_entry(r6, "ro"@, value_if(b.readonly == Some(true), "1"@));
    let r8 = add_entry(r7, "iops_rd_max"@, opt_int_text(b.iops_r_burst));
    let r9 = add_entry(r8, "iops_rd"@, opt_int_text(b.iops_r_concurrent));
    let r10 = add_entry(r9, "iops_wr_max"@, opt_int_text(b.iops_wr_burst));
    let r11 = add_entry(r10, "iops_wr"@, opt_int_text(b.iops_wr_concurrent));
    let r12 = add_entry(r11, "mbps_rd_max"@, opt_int_text(b.mbps_r_burst));
    let r13 = add_entry(r12, "mbps_rd"@, opt_int_text(b.mbps_r_concurrent));
    let r14 = add_entry(r13, "mbps_wr_max"@, opt_int_text(b.mbps_wr_burst));
    let r15 = add_entry(r14, "mbps_wr"@, opt_int_text(b.mbps_wr_concurrent));
    r15
}

proof fn lemma_disk_parts(b: DiskBlock, head: Seq<char>)
    requires
        !head.contains(','),
        opt_free(format_value(b)),
    ensures
        split_spec(head + disk_format_text(b) + disk_flags_text(b) + disk_limits_text(b), ',')[0] == head,
        split_spec(head + disk_format_text(b) + disk_flags_text(b) + disk_limits_text(b), ',').drop_first()
            == disk_entry_parts(b),
{
    let v0 = format_value(b);
    let v1 = value_if(b.iothread == Some(true), "1"@);
    let v2 = value_if(b.emulatessd == Some(true), "1"@);
    let v3 = value_if(b.discard == Some(true), "on"@);
    let v4 = value_if(b.backup == Some(false), "0"@);
    let v5 = value_if(b.replicate == Some(false), "0"@);
    let v6 = value_if(b.readonly == Some(true), "1"@);
    let v7 = opt_int_text(b.iops_r_burst);
    let v8 = opt_int_text(b.iops_r_concurrent);
    let v9 = opt_int_text(b.iops_wr_burst);
    let v10 = opt_int_text(b.iops_wr_concurrent);
    let v11 = opt_int_text(b.mbps_r_burst);
    let v12 = opt_int_text(b.mbps_r_concurrent);
    let v13 = opt_int_text(b.mbps_wr_burst);
    let v14 = opt_int_text(b.mbps_wr_concurrent);
    let s0 = head + opt_entry("format"@, v0);
    let s1 = s0 + opt_entry("iothread"@, v1);
    let s2 = s1 + opt_entry("ssd"@, v2);
    let s3 = s2 + opt_entry("discard"@, v3);
    let s4 = s3 + opt_entry("backup"@, v4);
    let s5 = s4 + opt_entry("replicate"@, v5);
    let s6 = s5 + opt_entry("ro"@, v6);
    let s7 = s6 + opt_entry("iops_rd_max"@, v7);
    let s8 = s7 + opt_entry("iops_rd"@, v8);
    let s9 = s8 + opt_entry("iops_wr_max"@, v9);
    let s10 = s9 + opt_entry("iops_wr"@, v10);
    let s11 = s10 + opt_entry("mbps_rd_max"@, v11);
    let s12 = s11 + opt_entry("mbps_rd"@, v12);
    let s13 = s12 + opt_entry("mbps_wr_max"@, v13);
    let s14 = s13 + opt_entry("mbps_wr"@, v14);
    lemma_disk_text_entries(b, head);
    lemma_int_text_free(b.iops_r_burst);
    lemma_int_text_free(b.iops_r_concurrent);
    lemma_int_text_free(b.iops_wr_burst);
    lemma_int_text_free(b.iops_wr_concurrent);
    lemma_int_text_free(b.mbps_r_burst);
    lemma_int_text_free(b.mbps_r_concurrent);
    lemma_int_text_free(b.mbps_wr_burst);
    lemma_int_text_free(b.mbps_wr_concurrent);
    lemma_disk_keys();
    text::lemma_split_free(head, ',');
    lemma_split_entry(head, "format"@, v0);
    lemma_split_entry(s0, "iothread"@, v1);
    lemma_split_entry(s1, "ssd"@, v2);
    lemma_split_entry(s2, "discard"@, v3);
    lemma_split_entry(s3, "backup"@, v4);
    lemma_split_entry(s4, "replicate"@, v5);
    lemma_split_entry(s5, "ro"@, v6);
    lemma_split_entry(s6, "iops_rd_max"@, v7);
    lemma_split_entry(s7, "iops_rd"@, v8);
    lemma_split_entry(s8, "iops_wr_max"@, v9);
    lemma_split_entry(s9, "iops_wr"@, v10);
    lemma_split_entry(s10, "mbps_rd_max"@, v11);
    lemma_split_entry(s11, "mbps_rd"@, v12);
    lemma_split_entry(s12, "mbps_wr_max"@, v13);
    lemma_split_entry(s13, "mbps_wr"@, v14);
    let p0 = seq![head];
    let r0 = Seq::<Seq<char>>::empty();
    assert(p0.drop_first() =~= r0);
    let p1 = add_entry(p0, "format"@, v0);
    let r1 = add_entry(r0, "format"@, v0);
    lemma_drop_first_entry(p0, "format"@, v0);
    let p2 = add_entry(p1, "iothread"@, v1);
    let r2 = add_entry(r1, "iothread"@, v1);
    lemma_drop_first_entry(p1, "iothread"@, v1);
    let p3 = add_entry(p2, "ssd"@, v2);
    let r3 = add_entry(r2, "ssd"@, v2);
    lemma_drop_first_entry(p2, "ssd"@, v2);
    let p4 = add_entry(p3, "discard"@, v3);
    let r4 = add_entry(r3, "discard"@, v3);
    lemma_drop_first_entry(p3, "discard"@, v3);
    let p5 = add_entry(p4, "backup"@, v4);
    let r5 = add_entry(r4, "backup"@, v4);
    lemma_drop_first_entry(p4, "backup"@, v4);
    let p6 = add_entry(p5, "replicate"@, v5);
    let r6 = add_entry(r5, "replicate"@, v5);
    lemma_drop_first_entry(p5, "replicate"@, v5);
    let p7 = add_entry(p6, "ro"@, v6);
    let r7 = add_entry(r6, "ro"@, v6);
    lemma_drop_first_entry(p6, "ro"@, v6);
    let p8 = add_entry(p7, "iops_rd_max"@, v7);
    let r8 = add_entry(r7, "iops_rd_max"@, v7);
    lemma_drop_first_entry(p7, "iops_rd_max"@, v7);
    let p9 = add_entry(p8, "iops_rd"@, v8);
    let r9 = add_entry(r8, "iops_rd"@, v8);
    lemma_drop_first_entry(p8, "iops_rd"@, v8);
    let p10 = add_entry(p9, "iops_wr_max"@, v9);
    let r10 = add_entry(r9, "iops_wr_max"@, v9);
    lemma_drop_first_entry(p9, "iops_wr_max"@, v9);
    let p11 = add_entry(p10, "iops_wr"@, v10);
    let r11 = add_entry(r10, "iops_wr"@, v10);
    lemma_drop_first_entry(p10, "iops_wr"@, v10);
    let p12 = add_entry(p11, "mbps_rd_max"@, v11);
    let r12 = add_entry(r11, "mbps_rd_max"@, v11);
    lemma_drop_first_entry(p11, "mbps_rd_max"@, v11);
    let p13 = add_entry(p12, "mbps_rd"@, v12);
    let r13 = add_entry(r12, "mbps_rd"@, v12);
    lemma_drop_first_entry(p12, "mbps_rd"@, v12);
    let p14 = add_entry(p13, "mbps_wr_max"@, v13);
    let r14 = add_entry(r13, "mbps_wr_max"@, v13);
    lemma_drop_first_entry(p13, "mbps_wr_max"@, v13);
    let p15 = add_entry(p14, "mbps_wr"@, v14);
    let r15 = add_entry(r14, "mbps_wr"@, v14);
    lemma_drop_first_entry(p14, "mbps_wr"@, v14);
    assert(split_spec(s14, ',') == p15);
}

/// The values an entry gives for `key`.
spec fn given(k: Seq<char>, v: Option<Seq<char>>, key: Seq<char>) -> Seq<Seq<char>> {
    if k == key {
        opt_seq(v)
    } else {
        Seq::<Seq<char>>::empty()
    }
}

proof fn lemma_values_given(parts: Seq<Seq<char>>, k: Seq<char>, v: Option<Seq<char>>, key: Seq<char>)
    requires
        !k.contains('='),
    ensures
        values_for(add_entry(parts, k, v), key) == values_for(parts, key) + given(k, v, key),
{
    lemma_values_entry(parts, k, v);
    assert(values_for(add_entry(parts, k, v), key) =~= values_for(parts, key) + given(k, v, key));
}

proof fn lemma_disk_entry_values_key(b: DiskBlock, key: Seq<char>)
    ensures
        values_for(disk_entry_parts(b), key) == values_for(Seq::<Seq<char>>::empty(), key)
            + given("format"@, format_value(b), key)
            + given("iothread"@, value_if(b.iothread == Some(true), "1"@), key)
            + given("ssd"@, value_if(b.emulatessd == Some(true), "1"@), key)
            + given("discard"@, value_if(b.discard == Some(true), "on"@), key)
            + given("backup"@, value_if(b.backup == Some(false), "0"@), key)
            + given("replicate"@, value_if(b.replicate == Some(false), "0"@), key)
            + given("ro"@, value_if(b.readonly == Some(true), "1"@), key)
            + given("iops_rd_max"@, opt_int_text(b.iops_r_burst), key)
            + given("iops_rd"@, opt_int_text(b.iops_r_concurrent), key)
            + given("iops_wr_max"@, opt_int_text(b.iops_wr_burst), key)
            + given("iops_wr"@, opt_int_text(b.iops_wr_concurrent), key)
            + given("mbps_rd_max"@, opt_int_text(b.mbps_r_burst), key)
            + given("mbps_rd"@, opt_int_text(b.mbps_r_concurrent), key)
            + given("mbps_wr_max"@, opt_int_text(b.mbps_wr_burst), key)
            + given("mbps_wr"@, opt_int_text(b.mbps_wr_concurrent), key),
{
    lemma_disk_keys();
    let r1 = add_entry(Seq::<Seq<char>>::empty(), "format"@, format_value(b));
    lemma_values_given(Seq::<Seq<char>>::empty(), "format"@, format_value(b), key);
    let r2 = add_entry(r1, "iothread"@, value_if(b.iothread == Some(true), "1"@));
    lemma_values_given(r1, "iothread"@, value_if(b.iothread == Some(true), "1"@), key);
    let r3 = add_entry(r2, "ssd"@, value_if(b.emulatessd == Some(true), "1"@));
    lemma_values_given(r2, "ssd"@, value_if(b.emulatessd == Some(true), "1"@), key);
    let r4 = add_entry(r3, "discard"@, value_if(b.discard == Some(true), "on"@));
    lemma_values_given(r3, "discard"@, value_if(b.discard == Some(true), "on"@), key);
    let r5 = add_entry(r4, "backup"@, value_if(b.backup == Some(false), "0"@));
    lemma_values_given(r4, "backup"@, value_if(b.backup == Some(false), "0"@), key);
    let r6 = add_entry(r5, "replicate"@, value_if(b.replicate == Some(false), "0"@));
    lemma_values_given(r5, "replicate"@, value_if(b.replicate == Some(false), "0"@), key);
    let r7 = add_entry(r6, "ro"@, value_if(b.readonly == Some(true), "1"@));
    lemma_values_given(r6, "ro"@, value_if(b.readonly == Some(true), "1"@), key);
    let r8 = add_entry(r7, "iops_rd_max"@, opt_int_text(b.iops_r_burst));
    lemma_values_given(r7, "iops_rd_max"@, opt_int_text(b.iops_r_burst), key);
    let r9 = add_entry(r8, "iops_rd"@, opt_int_text(b.iops_r_concurrent));
    lemma_values_given(r8, "iops_rd"@, opt_int_text(b.iops_r_concurrent), key);
    let r10 = add_entry(r9, "iops_wr_max"@, opt_int_text(b.iops_wr_burst));
    lemma_values_given(r9, "iops_wr_max"@, opt_int_text(b.iops_wr_burst), key);
    let r11 = add_entry(r10, "iops_wr"@, opt_int_text(b.iops_wr_concurrent));
    lemma_values_given(r10, "iops_wr"@, opt_int_text(b.iops_wr_concurrent), key);
    let r12 = add_entry(r11, "mbps_rd_max"@, opt_int_text(b.mbps_r_burst));
    lemma_values_given(r11, "mbps_rd_max"@, opt_int_text(b.mbps_r_burst), key);
    let r13 = add_entry(r12, "mbps_rd"@, opt_int_text(b.mbps_r_concurrent));
    lemma_values_given(r12, "mbps_rd"@, opt_int_text(b.mbps_r_concurrent), key);
    let r14 = add_entry(r13, "mbps_wr_max"@, opt_int_text(b.mbps_wr_burst));
    lemma_values_given(r13, "mbps_wr_max"@, opt_int_text(b.mbps_wr_burst), key);
    let r15 = add_entry(r14, "mbps_wr"@, opt_int_text(b.mbps_wr_concurrent));
    lemma_values_given(r14, "mbps_wr"@, opt_int_text(b.mbps_wr_concurrent), key);
}

proof fn lemma_disk_entry_values(b: DiskBlock)
    ensures
        values_for(disk_entry_parts(b), "backup"@) == opt_seq(value_if(b.backup == Some(false), "0"@)),
        values_for(disk_entry_parts(b), "replicate"@) == opt_seq(value_if(b.replicate == Some(false), "0"@)),
        values_for(disk_entry_parts(b), "format"@) == opt_seq(format_value(b)),
        values_for(disk_entry_parts(b), "iothread"@) == opt_seq(value_if(b.iothread == Some(true), "1"@)),
        values_for(disk_entry_parts(b), "ssd"@) == opt_seq(value_if(b.emulatessd == Some(true), "1"@)),
        values_for(disk_entry_parts(b), "discard"@) == opt_seq(value_if(b.discard == Some(true), "on"@)),
        values_for(disk_entry_parts(b), "media"@) == Seq::<Seq<char>>::empty(),
        values_for(disk_entry_parts(b), "cache"@) == Seq::<Seq<char>>::empty(),
        values_for(disk_entry_parts(b), "iops_rd_max"@) == opt_seq(opt_int_text(b.iops_r_burst)),
        values_for(disk_entry_parts(b), "iops_rd"@) == opt_seq(opt_int_text(b.iops_r_concurrent)),
        values_for(disk_entry_parts(b), "iops_wr_max"@) == opt_seq(opt_int_text(b.iops_wr_burst)),
        values_for(disk_entry_parts(b), "iops_wr"@) == opt_seq(opt_int_text(b.iops_wr_concurrent)),
        values_for(disk_entry_parts(b), "mbps_rd_max"@) == opt_seq(opt_int_text(b.mbps_r_burst)),
        values_for(disk_entry_parts(b), "mbps_rd"@) == opt_seq(opt_int_text(b.mbps_r_concurrent)),
        values_for(disk_entry_parts(b), "mbps_wr_max"@) == opt_seq(opt_int_text(b.mbps_wr_burst)),
        values_for(disk_entry_parts(b), "mbps_wr"@) == opt_seq(opt_int_text(b.mbps_wr_concurrent)),
{
    lemma_disk_keys();
    assert(values_for(Seq::<Seq<char>>::empty(), "backup"@) == Seq::<Seq<char>>::empty());
    assert(values_for(disk_entry_parts(b), "backup"@) =~= opt_seq(value_if(b.backup == Some(false), "0"@))) by {
        lemma_disk_entry_values_key(b, "backup"@);
    }
    assert(values_for(disk_entry_parts(b), "replicate"@) =~= opt_seq(value_if(b.replicate == Some(false), "0"@))) by {
        lemma_disk_entry_values_key(b, "replicate"@);
    }
    assert(values_for(disk_entry_parts(b), "format"@) =~= opt_seq(format_value(b))) by {
        lemma_disk_entry_values_key(b, "format"@);
    }
    assert(values_for(disk_entry_parts(b), "iothread"@) =~= opt_seq(value_if(b.iothread == Some(true), "1"@))) by {
        lemma_disk_entry_values_key(b, "iothread"@);
    }
    assert(values_for(disk_entry_parts(b), "ssd"@) =~= opt_seq(value_if(b.emulatessd == Some(true), "1"@))) by {
        lemma_disk_entry_values_key(b, "ssd"@);
    }
    assert(values_for(disk_entry_parts(b), "discard"@) =~= opt_seq(value_if(b.discard == Some(true), "on"@))) by {
        lemma_disk_entry_values_key(b, "discard"@);
    }
    assert(values_for(disk_entry_parts(b), "media"@) =~= Seq::<Seq<char>>::empty()) by {
        lemma_disk_entry_values_key(b, "media"@);
    }
    assert(values_for(disk_entry_parts(b), "cache"@) =~= Seq::<Seq<char>>::empty()) by {
        lemma_disk_entry_values_key(b, "cache"@);
    }
    assert(values_for(disk_entry_parts(b), "iops_rd_max"@) =~= opt_seq(opt_int_text(b.iops_r_burst))) by {
        lemma_disk_entry_values_key(b, "iops_rd_max"@);
    }
    assert(values_for(disk_entry_parts(b), "iops_rd"@) =~= opt_seq(opt_int_text(b.iops_r_concurrent))) by {
        lemma_disk_entry_values_key(b, "iops_rd"@);
    }
    assert(values_for(disk_entry_parts(b), "iops_wr_max"@) =~= opt_seq(opt_int_text(b.iops_wr_burst))) by {
        lemma_disk_entry_values_key(b, "iops_wr_max"@);
    }
    assert(values_for(disk_entry_parts(b), "iops_wr"@) =~= opt_seq(opt_int_text(b.iops_wr_concurrent))) by {
        lemma_disk_entry_values_key(b, "iops_wr"@);
    }
    assert(values_for(disk_entry_parts(b), "mbps_rd_max"@) =~= opt_seq(opt_int_text(b.mbps_r_burst))) by {
        lemma_disk_entry_values_key(b, "mbps_rd_max"@);
    }
    assert(values_for(disk_entry_parts(b), "mbps_rd"@) =~= opt_seq(opt_int_text(b.mbps_r_concurrent))) by {
        lemma_disk_entry_values_key(b, "mbps_rd"@);
    }
    assert(values_for(disk_entry_parts(b), "mbps_wr_max"@) =~= opt_seq(opt_int_text(b.mbps_wr_burst))) by {
        lemma_disk_entry_values_key(b, "mbps_wr_max"@);
    }
    assert(values_for(disk_entry_parts(b), "mbps_wr"@) =~= opt_seq(opt_int_text(b.mbps_wr_concurrent))) by {
        lemma_disk_entry_values_key(b, "mbps_wr"@);
    }
}


/// The disk string written for a block gives `backup=0` exactly when the
/// block's `backup` is `false`, and then once. Reading the string back
/// gives the block's flags: a `backup` or `replicate` of `false` where the
/// block turns it off, an `iothread`, `ssd` or `discard` of `true` where
/// the block turns it on, none of them otherwise, and the block's format
/// when it is not empty; each I/O and bandwidth limit the block sets is
/// given once, under its own key, as its decimal text. This holds for a
/// block whose storage, size and format hold no `,`.
#[verifier::spinoff_prover]
pub proof fn lemma_disk_flags_read(b: DiskBlock, storage: Seq<char>, size: Seq<char>, slot: Seq<char>)
    requires
        !storage.contains(','),
        !size.contains(','),
        opt_free(opt_view(b.format)),
    ensures
        ({
            let s = disk_block_spec(b, storage, size);
            let rest = split_spec(s, ',').drop_first();
            &&& values_for(rest, "backup"@) == if b.backup == Some(false) {
                seq!["0"@]
            } else {
                Seq::<Seq<char>>::empty()
            }
            &&& parse_disk_spec(s, slot).backup == if b.backup == Some(false) {
                Some(false)
            } else {
                None
            }
            &&& parse_disk_spec(s, slot).replicate == if b.replicate == Some(false) {
                Some(false)
            } else {
                None
            }
            &&& parse_disk_spec(s, slot).format == format_value(b)
            &&& parse_disk_spec(s, slot).iothread == if b.iothread == Some(true) {
                Some(true)
            } else {
                None
            }
            &&& parse_disk_spec(s, slot).emulatessd == if b.emulatessd == Some(true) {
                Some(true)
            } else {
                None
            }
            &&& parse_disk_spec(s, slot).discard == if b.discard == Some(true) {
                Some(true)
            } else {
                None
            }
            &&& parse_disk_spec(s, slot).media is None
            &&& parse_disk_spec(s, slot).cache is None
            &&& values_for(rest, "iops_rd_max"@) == opt_seq(opt_int_text(b.iops_r_burst))
            &&& values_for(rest, "iops_rd"@) == opt_seq(opt_int_text(b.iops_r_concurrent))
            &&& values_for(rest, "iops_wr_max"@) == opt_seq(opt_int_text(b.iops_wr_burst))
            &&& values_for(rest, "iops_wr"@) == opt_seq(opt_int_text(b.iops_wr_concurrent))
            &&& values_for(rest, "mbps_rd_max"@) == opt_seq(opt_int_text(b.mbps_r_burst))
            &&& values_for(rest, "mbps_rd"@) == opt_seq(opt_int_text(b.mbps_r_concurrent))
            &&& values_for(rest, "mbps_wr_max"@) == opt_seq(opt_int_text(b.mbps_wr_burst))
            &&& values_for(rest, "mbps_wr"@) == opt_seq(opt_int_text(b.mbps_wr_concurrent))
        }),
{
    let t = text::trim_end_char(text::trim_end_char(size, 'G'), 'g');
    lemma_trim_free(size, 'G', ',');
    lemma_trim_free(text::trim_end_char(size, 'G'), 'g', ',');
    let head = storage + seq![':'] + t;
    assert(!head.contains(',')) by {
        if head.contains(',') {
            let i = choose|i: int| 0 <= i < head.len() && head[i] == ',';
            if i < storage.len() {
                assert(storage[i] == ',');
            } else if i > storage.len() {
                assert(t[i - storage.len() - 1] == ',');
            }
        }
    }
    assert(opt_free(format_value(b)));
    lemma_disk_parts(b, head);
    lemma_disk_entry_values(b);
    lemma_bits();
    reveal_strlit("on");
    assert(crate::resources::nodes::disk::discard_value("on"@));
}

} // verus!
