//! Laws of network strings: normalising one a second time changes
//! nothing, reading back the string written for a block gives the
//! block's attributes, and a string led by a NIC model with its MAC
//! address reads and normalises as that model.
use vstd::prelude::*;
use vstd::string::*;
use crate::text;
use crate::text::{join_spec, seq_le, split_once_spec, split_spec};
use crate::resources::nodes::network::{
    insert_by_key, is_model_name, normalize_network_spec, normalize_scan, normalize_step,
    param_text, param_texts, should_remove_mac, sort_by_key, ParamView, NetworkBlock, network_block_spec,
    opt_entry, opt_int_text, parse_network_spec, values_for,
};

verus! {

/// Any two character sequences are ordered one way or the other.
pub proof fn lemma_seq_le_total(a: Seq<char>, b: Seq<char>)
    ensures
        seq_le(a, b) || seq_le(b, a),
    decreases a.len(),
{
    if a.len() > 0 && b.len() > 0 {
        if a[0] == b[0] {
            lemma_seq_le_total(a.drop_first(), b.drop_first());
        } else {
            let (x, y) = (a[0], b[0]);
            vstd::utf8::char_u32_cast(x, x as u32);
            vstd::utf8::char_u32_cast(y, y as u32);
            assert((x as u32) != (y as u32));
        }
    }
}

/// Each key orders before or equal to the next one.
pub open spec fn keys_sorted(s: Seq<ParamView>) -> bool
    decreases s.len(),
{
    s.len() <= 1 || (keys_sorted(s.drop_last()) && seq_le(s.drop_last().last().0, s.last().0))
}

proof fn lemma_insert_sorted(s: Seq<ParamView>, x: ParamView)
    requires
        keys_sorted(s),
    ensures
        keys_sorted(insert_by_key(s, x)),
        insert_by_key(s, x).len() == s.len() + 1,
        insert_by_key(s, x).last() == x || (s.len() > 0 && insert_by_key(s, x).last() == s.last()),
    decreases s.len(),
{
    if s.len() == 0 {
    } else if seq_le(s.last().0, x.0) {
        let r = s.push(x);
        assert(r.drop_last() =~= s);
    } else {
        let inner = insert_by_key(s.drop_last(), x);
        lemma_insert_sorted(s.drop_last(), x);
        let r = inner.push(s.last());
        assert(r.drop_last() =~= inner);
        if inner.last() == x {
            lemma_seq_le_total(s.last().0, x.0);
        }
    }
}

proof fn lemma_sort_sorted(s: Seq<ParamView>)
    ensures
        keys_sorted(sort_by_key(s)),
        sort_by_key(s).len() == s.len(),
    decreases s.len(),
{
    if s.len() > 0 {
        lemma_sort_sorted(s.drop_last());
        lemma_insert_sorted(sort_by_key(s.drop_last()), s.last());
    }
}

proof fn lemma_sorted_fixed(s: Seq<ParamView>)
    requires
        keys_sorted(s),
    ensures
        sort_by_key(s) == s,
    decreases s.len(),
{
    if s.len() > 0 {
        lemma_sorted_fixed(s.drop_last());
        assert(s.drop_last().push(s.last()) =~= s);
    }
}

/// A parameter as the normaliser keeps it: a key without `=` that names no
/// model, and neither key nor value holding `,`.
pub open spec fn param_ok(p: ParamView) -> bool {
    &&& !p.0.contains('=')
    &&& !p.0.contains(',')
    &&& !p.1.contains(',')
    &&& !is_model_name(p.0)
}

pub open spec fn all_params_ok(s: Seq<ParamView>) -> bool {
    forall|i: int| 0 <= i < s.len() ==> param_ok(#[trigger] s[i])
}

proof fn lemma_insert_ok(s: Seq<ParamView>, x: ParamView)
    requires
        all_params_ok(s),
        param_ok(x),
    ensures
        all_params_ok(insert_by_key(s, x)),
    decreases s.len(),
{
    if s.len() == 0 {
        assert(insert_by_key(s, x) =~= seq![x]);
    } else if seq_le(s.last().0, x.0) {
        let r = s.push(x);
        assert forall|i: int| 0 <= i < r.len() implies param_ok(#[trigger] r[i]) by {
            if i < s.len() {
                assert(r[i] == s[i]);
            }
        }
    } else {
        assert(all_params_ok(s.drop_last())) by {
            assert forall|i: int| 0 <= i < s.drop_last().len() implies param_ok(
                #[trigger] s.drop_last()[i],
            ) by {
                assert(s.drop_last()[i] == s[i]);
            }
        }
        lemma_insert_ok(s.drop_last(), x);
        let inner = insert_by_key(s.drop_last(), x);
        let r = inner.push(s.last());
        assert(param_ok(s[s.len() - 1]));
        assert forall|i: int| 0 <= i < r.len() implies param_ok(#[trigger] r[i]) by {
            if i < inner.len() {
                assert(r[i] == inner[i]);
            }
        }
    }
}

proof fn lemma_sort_ok(s: Seq<ParamView>)
    requires
        all_params_ok(s),
    ensures
        all_params_ok(sort_by_key(s)),
    decreases s.len(),
{
    if s.len() > 0 {
        assert(all_params_ok(s.drop_last())) by {
            assert forall|i: int| 0 <= i < s.drop_last().len() implies param_ok(
                #[trigger] s.drop_last()[i],
            ) by {
                assert(s.drop_last()[i] == s[i]);
            }
        }
        lemma_sort_ok(s.drop_last());
        assert(param_ok(s[s.len() - 1]));
        lemma_insert_ok(sort_by_key(s.drop_last()), s.last());
    }
}

/// A model part that the normaliser keeps as it is when it meets it again.
pub open spec fn model_fixed(t: Seq<char>, remove_mac: bool) -> bool {
    &&& !t.contains(',')
    &&& match split_once_spec(t, '=') {
        Some((k, v)) => is_model_name(k) && !(v.contains(':') && remove_mac),
        None => is_model_name(t),
    }
}

proof fn lemma_part_free(s: Seq<char>, c: char, lo: int, hi: int)
    requires
        !s.contains(c),
        0 <= lo <= hi <= s.len(),
    ensures
        !s.subrange(lo, hi).contains(c),
{
    if s.subrange(lo, hi).contains(c) {
        let j = choose|j: int| 0 <= j < hi - lo && s.subrange(lo, hi)[j] == c;
        assert(s[lo + j] == c);
    }
}

/// Where the first `=` of `part` stands, when it has one.
proof fn lemma_split_once_parts(part: Seq<char>)
    requires
        part.contains('='),
    ensures
        exists|i: int|
            text::is_first_index(part, '=', i) && split_once_spec(part, '=') == Some(
                (part.take(i), part.skip(i + 1)),
            ),
{
    text::lemma_first_index_exists(part, '=');
    let i = choose|i: int| text::is_first_index(part, '=', i);
    assert(text::is_first_index(part, '=', i));
}

proof fn lemma_scan_ok(parts: Seq<Seq<char>>, remove_mac: bool)
    requires
        forall|i: int| 0 <= i < parts.len() ==> !(#[trigger] parts[i]).contains(','),
    ensures
        all_params_ok(normalize_scan(parts, remove_mac).1),
        match normalize_scan(parts, remove_mac).0 {
            Some(t) => model_fixed(t, remove_mac),
            None => true,
        },
        parts.len() >= 1 ==> (normalize_scan(parts, remove_mac).0 is Some || normalize_scan(
            parts,
            remove_mac,
        ).1.len() >= 1),
    decreases parts.len(),
{
    if parts.len() > 0 {
        let init = parts.drop_last();
        assert forall|i: int| 0 <= i < init.len() implies !(#[trigger] init[i]).contains(',') by {
            assert(init[i] == parts[i]);
        }
        lemma_scan_ok(init, remove_mac);
        let st = normalize_scan(init, remove_mac);
        let part = parts.last();
        assert(!part.contains(',')) by {
            assert(part == parts[parts.len() - 1]);
        }
        let r = normalize_step(st, part, remove_mac);
        assert(normalize_scan(parts, remove_mac) == r);
        if part.contains('=') {
            lemma_split_once_parts(part);
            let i = choose|i: int|
                text::is_first_index(part, '=', i) && split_once_spec(part, '=') == Some(
                    (part.take(i), part.skip(i + 1)),
                );
            let k = part.take(i);
            let v = part.skip(i + 1);
            lemma_part_free(part, ',', 0, i);
            lemma_part_free(part, ',', i + 1, part.len() as int);
            assert(!k.contains('=')) by {
                if k.contains('=') {
                    let j = choose|j: int| 0 <= j < k.len() && k[j] == '=';
                    assert(part[j] == '=');
                }
            }
            if is_model_name(k) {
                if v.contains(':') && remove_mac {
                    assert(split_once_spec(k, '=') is None);
                }
            } else {
                let ps = st.1.push((k, v));
                assert forall|j: int| 0 <= j < ps.len() implies param_ok(#[trigger] ps[j]) by {
                    if j < st.1.len() {
                        assert(ps[j] == st.1[j]);
                    }
                }
            }
        } else {
            if !is_model_name(part) {
                let ps = st.1.push((part, Seq::<char>::empty()));
                assert forall|j: int| 0 <= j < ps.len() implies param_ok(#[trigger] ps[j]) by {
                    if j < st.1.len() {
                        assert(ps[j] == st.1[j]);
                    }
                }
            }
        }
    }
}

proof fn lemma_param_text_free(p: ParamView)
    requires
        param_ok(p),
    ensures
        !param_text(p).contains(','),
{
    if p.1.len() > 0 {
        let t = p.0 + seq!['='] + p.1;
        if t.contains(',') {
            let j = choose|j: int| 0 <= j < t.len() && t[j] == ',';
            if j < p.0.len() {
                assert(p.0[j] == ',');
            } else if j > p.0.len() {
                assert(p.1[j - p.0.len() - 1] == ',');
            }
        }
    }
}

/// A kept parameter read back from its written form is the same parameter.
proof fn lemma_param_rescan(st: (Option<Seq<char>>, Seq<ParamView>), p: ParamView, remove_mac: bool)
    requires
        param_ok(p),
    ensures
        normalize_step(st, param_text(p), remove_mac) == (st.0, st.1.push(p)),
{
    if p.1.len() == 0 {
        assert(p.1 =~= Seq::<char>::empty());
    } else {
        let t = p.0 + seq!['='] + p.1;
        let n = p.0.len() as int;
        assert(t[n] == '=');
        assert forall|j: int| 0 <= j < n implies t[j] != '=' by {
            assert(t[j] == p.0[j]);
        }
        assert(text::is_first_index(t, '=', n));
        lemma_split_once_parts(t);
        let i = choose|i: int|
            text::is_first_index(t, '=', i) && split_once_spec(t, '=') == Some(
                (t.take(i), t.skip(i + 1)),
            );
        text::lemma_first_index_unique(t, '=', i, n);
        assert(t.take(n) =~= p.0);
        assert(t.skip(n + 1) =~= p.1);
    }
}

/// Reading back written parameters after `pre` adds them, in order, to what
/// `pre` gave.
proof fn lemma_rescan(pre: Seq<Seq<char>>, ps: Seq<ParamView>, remove_mac: bool)
    requires
        all_params_ok(ps),
    ensures
        normalize_scan(pre + param_texts(ps), remove_mac) == (
            normalize_scan(pre, remove_mac).0,
            normalize_scan(pre, remove_mac).1 + ps,
        ),
    decreases ps.len(),
{
    let st = normalize_scan(pre, remove_mac);
    if ps.len() == 0 {
        assert(pre + param_texts(ps) =~= pre);
        assert(st.1 + ps =~= st.1);
    } else {
        let init = ps.drop_last();
        assert(all_params_ok(init)) by {
            assert forall|i: int| 0 <= i < init.len() implies param_ok(#[trigger] init[i]) by {
                assert(init[i] == ps[i]);
            }
        }
        lemma_rescan(pre, init, remove_mac);
        let q = pre + param_texts(ps);
        assert(q.drop_last() =~= pre + param_texts(init));
        assert(q.last() == param_text(ps.last()));
        assert(param_ok(ps[ps.len() - 1]));
        lemma_param_rescan((st.0, st.1 + init), ps.last(), remove_mac);
        assert((st.1 + init).push(ps.last()) =~= st.1 + ps);
    }
}

/// Splitting pieces joined by a separator they do not hold gives the pieces
/// back.
proof fn lemma_split_join(items: Seq<Seq<char>>, sep: char)
    requires
        items.len() >= 1,
        forall|i: int| 0 <= i < items.len() ==> !(#[trigger] items[i]).contains(sep),
    ensures
        split_spec(join_spec(items, sep), sep) == items,
    decreases items.len(),
{
    if items.len() == 1 {
        text::lemma_split_free(items[0], sep);
        assert(seq![items[0]] =~= items);
    } else {
        let init = items.drop_last();
        assert forall|i: int| 0 <= i < init.len() implies !(#[trigger] init[i]).contains(sep) by {
            assert(init[i] == items[i]);
        }
        lemma_split_join(init, sep);
        let last = items.last();
        assert(!last.contains(sep)) by {
            assert(last == items[items.len() - 1]);
        }
        let a = join_spec(init, sep);
        assert(a.push(sep) + last =~= a + seq![sep] + last);
        text::lemma_split_append_free(a, sep, last);
        assert(init.push(last) =~= items);
    }
}

/// Normalising a network string that was already normalised, against the
/// same configured string, gives it back unchanged.
pub proof fn lemma_network_normalize_idempotent(net: Seq<char>, current: Option<Seq<char>>)
    ensures
        normalize_network_spec(normalize_network_spec(net, current), current)
            == normalize_network_spec(net, current),
{
    let rm = should_remove_mac(current);
    let parts = split_spec(net, ',');
    text::lemma_split_pieces_free(net, ',');
    text::lemma_split_len(net, ',');
    lemma_scan_ok(parts, rm);
    let st = normalize_scan(parts, rm);
    let sp = sort_by_key(st.1);
    lemma_sort_sorted(st.1);
    lemma_sort_ok(st.1);
    lemma_sorted_fixed(sp);
    let texts = param_texts(sp);
    assert forall|i: int| 0 <= i < texts.len() implies !(#[trigger] texts[i]).contains(',') by {
        assert(param_ok(sp[i]));
        lemma_param_text_free(sp[i]);
    }
    let items = match st.0 {
        Some(t) => seq![t] + texts,
        None => texts,
    };
    assert forall|i: int| 0 <= i < items.len() implies !(#[trigger] items[i]).contains(',') by {
        match st.0 {
            Some(t) => {
                if i > 0 {
                    assert(items[i] == texts[i - 1]);
                }
            },
            None => {},
        }
    }
    let out = join_spec(items, ',');
    assert(out == normalize_network_spec(net, current));
    lemma_split_join(items, ',');
    match st.0 {
        Some(t) => {
            lemma_rescan(seq![t], sp, rm);
            assert(seq![t].drop_last() =~= Seq::<Seq<char>>::empty());
            assert(seq![t].last() == t);
            let empty_state = (None::<Seq<char>>, Seq::<ParamView>::empty());
            assert(normalize_scan(Seq::<Seq<char>>::empty(), rm) == empty_state);
            assert(model_fixed(t, rm));
            assert(normalize_step(empty_state, t, rm) == (Some(t), Seq::<ParamView>::empty()));
            assert(normalize_scan(seq![t], rm) == (Some(t), Seq::<ParamView>::empty()));
            assert(Seq::<ParamView>::empty() + sp =~= sp);
        },
        None => {
            lemma_rescan(Seq::<Seq<char>>::empty(), sp, rm);
            assert(Seq::<Seq<char>>::empty() + texts =~= texts);
        },
    }
}

/// `key=value`.
pub open spec fn kv(k: Seq<char>, x: Seq<char>) -> Seq<char> {
    k + seq!['='] + x
}

/// The parts of a string after `,key=value` is appended, when the value is
/// present.
pub open spec fn add_entry(parts: Seq<Seq<char>>, k: Seq<char>, v: Option<Seq<char>>) -> Seq<Seq<char>> {
    match v {
        Some(x) => parts.push(kv(k, x)),
        None => parts,
    }
}

/// An optional text without `,`.
pub open spec fn opt_free(v: Option<Seq<char>>) -> bool {
    match v {
        Some(x) => !x.contains(','),
        None => true,
    }
}

/// An optional text as a list of at most one text.
pub open spec fn opt_seq(v: Option<Seq<char>>) -> Seq<Seq<char>> {
    match v {
        Some(x) => seq![x],
        None => Seq::<Seq<char>>::empty(),
    }
}

proof fn lemma_kv_free(k: Seq<char>, x: Seq<char>, c: char)
    requires
        !k.contains(c),
        !x.contains(c),
        c != '=',
    ensures
        !kv(k, x).contains(c),
{
    let t = kv(k, x);
    if t.contains(c) {
        let j = choose|j: int| 0 <= j < t.len() && t[j] == c;
        if j < k.len() {
            assert(k[j] == c);
        } else if j > k.len() {
            assert(x[j - k.len() - 1] == c);
        }
    }
}

pub(crate) proof fn lemma_split_entry(s: Seq<char>, k: Seq<char>, v: Option<Seq<char>>)
    requires
        !k.contains(','),
        opt_free(v),
    ensures
        split_spec(s + opt_entry(k, v), ',') == add_entry(split_spec(s, ','), k, v),
{
    match v {
        Some(x) => {
            lemma_kv_free(k, x, ',');
            assert(s + opt_entry(k, v) =~= s + seq![','] + kv(k, x));
            text::lemma_split_append_free(s, ',', kv(k, x));
        },
        None => {
            assert(s + opt_entry(k, v) =~= s);
        },
    }
}

proof fn lemma_kv_split_once(k: Seq<char>, x: Seq<char>)
    requires
        !k.contains('='),
    ensures
        split_once_spec(kv(k, x), '=') == Some((k, x)),
{
    let t = kv(k, x);
    let n = k.len() as int;
    assert(t[n] == '=');
    assert forall|j: int| 0 <= j < n implies t[j] != '=' by {
        assert(t[j] == k[j]);
    }
    assert(text::is_first_index(t, '=', n));
    lemma_split_once_parts(t);
    let i = choose|i: int|
        text::is_first_index(t, '=', i) && split_once_spec(t, '=') == Some((t.take(i), t.skip(i + 1)));
    text::lemma_first_index_unique(t, '=', i, n);
    assert(t.take(n) =~= k);
    assert(t.skip(n + 1) =~= x);
}

pub(crate) proof fn lemma_values_entry(parts: Seq<Seq<char>>, k: Seq<char>, v: Option<Seq<char>>)
    requires
        !k.contains('='),
    ensures
        forall|key: Seq<char>|
            #[trigger] values_for(add_entry(parts, k, v), key) == if v is Some && k == key {
                values_for(parts, key).push(v->0)
            } else {
                values_for(parts, key)
            },
{
    match v {
        Some(x) => {
            let p2 = parts.push(kv(k, x));
            assert(p2.drop_last() =~= parts);
            assert(p2.last() == kv(k, x));
            lemma_kv_split_once(k, x);
        },
        None => {},
    }
}

pub(crate) proof fn lemma_int_text_free(v: Option<i64>)
    ensures
        opt_free(opt_int_text(v)),
{
    match v {
        Some(n) => {
            let i = n as int;
            let d = nat_decimal_of(i);
            crate::api::numeric::lemma_decimal_digits(d);
            let t = text::int_decimal(i);
            if t.contains(',') {
                let j = choose|j: int| 0 <= j < t.len() && t[j] == ',';
                if i < 0 {
                    if j > 0 {
                        assert(t[j] == text::nat_decimal(d)[j - 1]);
                    }
                } else {
                    assert(t[j] == text::nat_decimal(d)[j]);
                }
            }
        },
        None => {},
    }
}

/// The magnitude of an integer.
spec fn nat_decimal_of(i: int) -> nat {
    if i < 0 {
        (-i) as nat
    } else {
        i as nat
    }
}

proof fn lemma_model_free(m: Seq<char>)
    requires
        is_model_name(m),
    ensures
        !m.contains(','),
        !m.contains('='),
        split_once_spec(m, '=') is None,
{
    reveal_strlit("virtio");
    reveal_strlit("e1000");
    reveal_strlit("rtl8139");
    reveal_strlit("vmxnet3");
}

proof fn lemma_keys()
    ensures
        !"bridge"@.contains('=') && !"bridge"@.contains(','),
        !"firewall"@.contains('=') && !"firewall"@.contains(','),
        !"tag"@.contains('=') && !"tag"@.contains(','),
        !"macaddr"@.contains('=') && !"macaddr"@.contains(','),
        !"rate"@.contains('=') && !"rate"@.contains(','),
        !"queues"@.contains('=') && !"queues"@.contains(','),
        !"link_down"@.contains('=') && !"link_down"@.contains(','),
        !"mtu"@.contains('=') && !"mtu"@.contains(','),
        "bridge"@ != "firewall"@ && "bridge"@ != "tag"@ && "bridge"@ != "macaddr"@ && "bridge"@ != "rate"@,
        "bridge"@ != "queues"@ && "bridge"@ != "link_down"@ && "bridge"@ != "mtu"@,
        "firewall"@ != "tag"@ && "firewall"@ != "macaddr"@ && "firewall"@ != "rate"@,
        "firewall"@ != "queues"@ && "firewall"@ != "link_down"@ && "firewall"@ != "mtu"@,
        "tag"@ != "macaddr"@ && "tag"@ != "rate"@ && "tag"@ != "queues"@ && "tag"@ != "link_down"@,
        "tag"@ != "mtu"@,
        "macaddr"@ != "rate"@ && "macaddr"@ != "queues"@ && "macaddr"@ != "link_down"@,
        "macaddr"@ != "mtu"@,
        "rate"@ != "queues"@ && "rate"@ != "link_down"@ && "rate"@ != "mtu"@,
        "queues"@ != "link_down"@ && "queues"@ != "mtu"@,
        "link_down"@ != "mtu"@,
{
    reveal_strlit("bridge");
    reveal_strlit("firewall");
    reveal_strlit("tag");
    reveal_strlit("macaddr");
    reveal_strlit("rate");
    reveal_strlit("queues");
    reveal_strlit("link_down");
    reveal_strlit("mtu");
    assert("bridge"@[0] != "queues"@[0]);
    assert("tag"@[0] != "mtu"@[0]);
    assert("firewall"@.len() == 8);
    assert("tag"@.len() == 3 && "macaddr"@.len() == 7 && "rate"@.len() == 4);
    assert("queues"@.len() == 6 && "link_down"@.len() == 9 && "mtu"@.len() == 3);
}

/// The values each key is given after the eight entries of a network string
/// are appended to parts that give none.
proof fn lemma_values_chain(
    p0: Seq<Seq<char>>,
    v1: Option<Seq<char>>,
    v2: Option<Seq<char>>,
    v3: Option<Seq<char>>,
    v4: Option<Seq<char>>,
    v5: Option<Seq<char>>,
    v6: Option<Seq<char>>,
    v7: Option<Seq<char>>,
    v8: Option<Seq<char>>,
)
    requires
        forall|key: Seq<char>| #[trigger] values_for(p0, key) == Seq::<Seq<char>>::empty(),
    ensures
        ({
            let p8 = add_entry(
                add_entry(
                    add_entry(
                        add_entry(
                            add_entry(
                                add_entry(add_entry(add_entry(p0, "bridge"@, v1), "firewall"@, v2), "tag"@, v3),
                                "macaddr"@,
                                v4,
                            ),
                            "rate"@,
                            v5,
                        ),
                        "queues"@,
                        v6,
                    ),
                    "link_down"@,
                    v7,
                ),
                "mtu"@,
                v8,
            );
            &&& values_for(p8, "bridge"@) == opt_seq(v1)
            &&& values_for(p8, "firewall"@) == opt_seq(v2)
            &&& values_for(p8, "tag"@) == opt_seq(v3)
            &&& values_for(p8, "macaddr"@) == opt_seq(v4)
            &&& values_for(p8, "rate"@) == opt_seq(v5)
            &&& values_for(p8, "queues"@) == opt_seq(v6)
            &&& values_for(p8, "link_down"@) == opt_seq(v7)
            &&& values_for(p8, "mtu"@) == opt_seq(v8)
        }),
{
    lemma_keys();
    let p1 = add_entry(p0, "bridge"@, v1);
    let p2 = add_entry(p1, "firewall"@, v2);
    let p3 = add_entry(p2, "tag"@, v3);
    let p4 = add_entry(p3, "macaddr"@, v4);
    let p5 = add_entry(p4, "rate"@, v5);
    let p6 = add_entry(p5, "queues"@, v6);
    let p7 = add_entry(p6, "link_down"@, v7);
    let p8 = add_entry(p7, "mtu"@, v8);
    lemma_values_entry(p0, "bridge"@, v1);
    lemma_values_entry(p1, "firewall"@, v2);
    lemma_values_entry(p2, "tag"@, v3);
    lemma_values_entry(p3, "macaddr"@, v4);
    lemma_values_entry(p4, "rate"@, v5);
    lemma_values_entry(p5, "queues"@, v6);
    lemma_values_entry(p6, "link_down"@, v7);
    lemma_values_entry(p7, "mtu"@, v8);
    assert(values_for(p8, "bridge"@) =~= opt_seq(v1));
    assert(values_for(p8, "firewall"@) =~= opt_seq(v2));
    assert(values_for(p8, "tag"@) =~= opt_seq(v3));
    assert(values_for(p8, "macaddr"@) =~= opt_seq(v4));
    assert(values_for(p8, "rate"@) =~= opt_seq(v5));
    assert(values_for(p8, "queues"@) =~= opt_seq(v6));
    assert(values_for(p8, "link_down"@) =~= opt_seq(v7));
    assert(values_for(p8, "mtu"@) =~= opt_seq(v8));
}

pub(crate) proof fn lemma_bits()
    ensures
        crate::resources::nodes::network::flag_value("1"@),
        !crate::resources::nodes::network::flag_value("0"@),
        "1"@.len() == 1 && "1"@[0] == '1',
        "0"@.len() == 1 && "0"@[0] == '0',
{
    reveal_strlit("1");
    reveal_strlit("0");
    reveal_strlit("true");
    assert("0"@[0] != "1"@[0]);
    assert("0"@.len() != "true"@.len());
}

/// Reading back the network string written for a block gives the block's
/// attributes: its model (`virtio` when none), bridge, firewall, MAC address
/// and rate as given, the decimal text of its tag, queues and MTU, and
/// `link_down` when it is set. This holds for a block whose model, if any,
/// is one Proxmox knows and whose bridge, MAC address and rate hold no `,`.
#[verifier::rlimit(80)]
#[verifier::spinoff_prover]
pub proof fn lemma_network_string_round_trip(b: NetworkBlock, id: u32)
    requires
        match b.model {
            Some(m) => is_model_name(m@),
            None => true,
        },
        opt_free(text::opt_view(b.bridge)),
        opt_free(text::opt_view(b.macaddr)),
        opt_free(text::opt_view(b.rate)),
    ensures
        ({
            let p = parse_network_spec(network_block_spec(b), id);
            &&& p.id == id
            &&& p.model == match b.model {
                Some(m) => m@,
                None => "virtio"@,
            }
            &&& p.bridge == text::opt_view(b.bridge)
            &&& p.firewall == b.firewall
            &&& p.tag == opt_seq(opt_int_text(b.tag))
            &&& p.macaddr == text::opt_view(b.macaddr)
            &&& p.rate == opt_seq(text::opt_view(b.rate))
            &&& p.queues == opt_seq(opt_int_text(b.queues))
            &&& p.link_down == if b.link_down == Some(true) {
                Some(true)
            } else {
                None
            }
            &&& p.mtu == opt_seq(opt_int_text(b.mtu))
        }),
{
    let head = match b.model {
        Some(m) => m@,
        None => "virtio"@,
    };
    assert(is_model_name(head)) by {
        reveal_strlit("virtio");
    }
    lemma_model_free(head);
    lemma_keys();
    lemma_bits();
    let v1 = text::opt_view(b.bridge);
    let v2 = crate::resources::nodes::network::opt_bit_text(b.firewall);
    let v3 = opt_int_text(b.tag);
    let v4 = text::opt_view(b.macaddr);
    let v5 = text::opt_view(b.rate);
    let v6 = opt_int_text(b.queues);
    let v7 = if b.link_down == Some(true) {
        Some("1"@)
    } else {
        None
    };
    let v8 = opt_int_text(b.mtu);
    lemma_int_text_free(b.tag);
    lemma_int_text_free(b.queues);
    lemma_int_text_free(b.mtu);
    assert(opt_free(v2)) by {
        reveal_strlit("1");
        reveal_strlit("0");
    }
    assert(opt_free(v7)) by {
        reveal_strlit("1");
    }
    let s1 = head + opt_entry("bridge"@, v1);
    let s2 = s1 + opt_entry("firewall"@, v2);
    let s3 = s2 + opt_entry("tag"@, v3);
    let s4 = s3 + opt_entry("macaddr"@, v4);
    let s5 = s4 + opt_entry("rate"@, v5);
    let s6 = s5 + opt_entry("queues"@, v6);
    let s7 = s6 + opt_entry("link_down"@, v7);
    let s8 = s7 + opt_entry("mtu"@, v8);
    assert(s8 == network_block_spec(b));
    text::lemma_split_free(head, ',');
    let p0 = seq![head];
    lemma_split_entry(head, "bridge"@, v1);
    lemma_split_entry(s1, "firewall"@, v2);
    lemma_split_entry(s2, "tag"@, v3);
    lemma_split_entry(s3, "macaddr"@, v4);
    lemma_split_entry(s4, "rate"@, v5);
    lemma_split_entry(s5, "queues"@, v6);
    lemma_split_entry(s6, "link_down"@, v7);
    lemma_split_entry(s7, "mtu"@, v8);
    let p1 = add_entry(p0, "bridge"@, v1);
    let p2 = add_entry(p1, "firewall"@, v2);
    let p3 = add_entry(p2, "tag"@, v3);
    let p4 = add_entry(p3, "macaddr"@, v4);
    let p5 = add_entry(p4, "rate"@, v5);
    let p6 = add_entry(p5, "queues"@, v6);
    let p7 = add_entry(p6, "link_down"@, v7);
    let p8 = add_entry(p7, "mtu"@, v8);
    assert(split_spec(s8, ',') == p8);
    assert forall|key: Seq<char>| #[trigger] values_for(p0, key) == Seq::<Seq<char>>::empty() by {
        assert(p0.drop_last() =~= Seq::<Seq<char>>::empty());
        assert(values_for(Seq::<Seq<char>>::empty(), key) == Seq::<Seq<char>>::empty());
        assert(p0.last() == head);
    }
    lemma_values_chain(p0, v1, v2, v3, v4, v5, v6, v7, v8);
    assert(p8[0] == head);
}

/// A network string led by one of the four NIC models Proxmox knows,
/// `virtio`, `e1000`, `rtl8139` and `vmxnet3`, with a MAC address, then a
/// bridge, reads back as that model, that MAC address and that bridge.
#[verifier::spinoff_prover]
pub proof fn lemma_model_mac_read(m: Seq<char>, mac: Seq<char>, bridge: Seq<char>, id: u32)
    requires
        m == "virtio"@ || m == "e1000"@ || m == "rtl8139"@ || m == "vmxnet3"@,
        mac.contains(':'),
        !mac.contains(','),
        !bridge.contains(','),
    ensures
        ({
            let p = parse_network_spec(m + seq!['='] + mac + seq![','] + "bridge"@ + seq!['='] + bridge, id);
            &&& p.id == id
            &&& p.model == m
            &&& p.macaddr == Some(mac)
            &&& p.bridge == Some(bridge)
        }),
{
    reveal_strlit("virtio");
    reveal_strlit("e1000");
    reveal_strlit("rtl8139");
    reveal_strlit("vmxnet3");
    reveal_strlit("bridge");
    assert(m != "bridge"@) by {
        assert("virtio"@[0] != "bridge"@[0]);
        assert("bridge"@.len() == 6);
        assert("e1000"@.len() == 5 && "rtl8139"@.len() == 7 && "vmxnet3"@.len() == 7);
    }
    lemma_model_free(m);
    lemma_keys();
    let head = kv(m, mac);
    lemma_kv_free(m, mac, ',');
    text::lemma_split_free(head, ',');
    let s = m + seq!['='] + mac + seq![','] + "bridge"@ + seq!['='] + bridge;
    assert(s =~= head + opt_entry("bridge"@, Some(bridge)));
    lemma_split_entry(head, "bridge"@, Some(bridge));
    let p0 = seq![head];
    let p1 = add_entry(p0, "bridge"@, Some(bridge));
    assert(split_spec(s, ',') == p1);
    lemma_kv_split_once(m, mac);
    lemma_values_entry(p0, "bridge"@, Some(bridge));
    assert(p0.drop_last() =~= Seq::<Seq<char>>::empty());
    assert(p0.last() == head);
    assert(values_for(Seq::<Seq<char>>::empty(), "bridge"@) == Seq::<Seq<char>>::empty());
    assert(split_once_spec(p0.last(), '=') == Some((m, mac)));
    assert(values_for(p0, "bridge"@) =~= Seq::<Seq<char>>::empty());
    assert(p1[0] == head);
}

/// Normalising a network string led by one of the four NIC models Proxmox
/// knows, `virtio`, `e1000`, `rtl8139` and `vmxnet3`, with a MAC address,
/// then a bridge, keeps that model first: with its MAC address where the
/// current string holds one, without it otherwise; the bridge follows.
#[verifier::spinoff_prover]
pub proof fn lemma_model_mac_normalized(
    m: Seq<char>,
    mac: Seq<char>,
    bridge: Seq<char>,
    current: Option<Seq<char>>,
)
    requires
        m == "virtio"@ || m == "e1000"@ || m == "rtl8139"@ || m == "vmxnet3"@,
        mac.contains(':'),
        !mac.contains(','),
        !bridge.contains(','),
    ensures
        normalize_network_spec(m + seq!['='] + mac + seq![','] + "bridge"@ + seq!['='] + bridge, current) == (
        match current {
            Some(c) => if c.contains(':') {
                m + seq!['='] + mac
            } else {
                m
            },
            None => m,
        }) + seq![','] + "bridge"@ + if bridge.len() == 0 {
            Seq::<char>::empty()
        } else {
            seq!['='] + bridge
        },
{
    reveal_strlit("virtio");
    reveal_strlit("e1000");
    reveal_strlit("rtl8139");
    reveal_strlit("vmxnet3");
    reveal_strlit("bridge");
    lemma_model_free(m);
    lemma_keys();
    assert(!is_model_name("bridge"@)) by {
        assert("virtio"@[0] != "bridge"@[0]);
        assert("bridge"@.len() == 6);
    }
    let head = kv(m, mac);
    lemma_kv_free(m, mac, ',');
    text::lemma_split_free(head, ',');
    let s = m + seq!['='] + mac + seq![','] + "bridge"@ + seq!['='] + bridge;
    assert(s =~= head + opt_entry("bridge"@, Some(bridge)));
    lemma_split_entry(head, "bridge"@, Some(bridge));
    let parts = seq![head, kv("bridge"@, bridge)];
    assert(split_spec(s, ',') =~= parts);
    lemma_kv_split_once(m, mac);
    lemma_kv_split_once("bridge"@, bridge);
    let rm = should_remove_mac(current);
    let t = if rm { m } else { head };
    assert(parts.drop_last() =~= seq![head]);
    assert(seq![head].drop_last() =~= Seq::<Seq<char>>::empty());
    let st1 = normalize_scan(seq![head], rm);
    assert(normalize_scan(Seq::<Seq<char>>::empty(), rm) == (None::<Seq<char>>, Seq::<ParamView>::empty()));
    assert(seq![head].last() == head);
    assert(st1 == normalize_step((None::<Seq<char>>, Seq::<ParamView>::empty()), head, rm));
    assert(st1 == (Some(t), Seq::<ParamView>::empty()));
    let pv: ParamView = ("bridge"@, bridge);
    let st2 = normalize_scan(parts, rm);
    assert(st2 == (Some(t), seq![pv]));
    assert(seq![pv].drop_last() =~= Seq::<ParamView>::empty());
    let e = Seq::<ParamView>::empty();
    assert(sort_by_key(e) == e);
    assert(seq![pv].last() == pv);
    assert(insert_by_key(e, pv) == seq![pv]);
    assert(sort_by_key(seq![pv]) == insert_by_key(sort_by_key(e), pv));
    assert(sort_by_key(seq![pv]) == seq![pv]);
    let pt = param_text(pv);
    assert(param_texts(seq![pv]) =~= seq![pt]);
    let items = seq![t] + seq![pt];
    assert(items =~= seq![t, pt]);
    assert(items.drop_last() =~= seq![t]);
    assert(text::join_spec(seq![t], ',') == t);
    assert(items.last() == pt);
    assert(text::join_spec(items, ',') == text::join_spec(seq![t], ',').push(',') + pt);
    assert(text::join_spec(items, ',') =~= t + seq![','] + pt);
    if bridge.len() == 0 {
        assert(pt == "bridge"@);
    } else {
        assert(pt == "bridge"@ + seq!['='] + bridge);
    }
    assert(t == match current {
        Some(c) => if c.contains(':') {
            m + seq!['='] + mac
        } else {
            m
        },
        None => m,
    });
    assert(t + seq![','] + pt =~= (match current {
        Some(c) => if c.contains(':') {
            m + seq!['='] + mac
        } else {
            m
        },
        None => m,
    }) + seq![','] + "bridge"@ + if bridge.len() == 0 {
        Seq::<char>::empty()
    } else {
        seq!['='] + bridge
    });
}

} // verus!
