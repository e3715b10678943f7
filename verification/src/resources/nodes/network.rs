//! Network interface strings of a QEMU VM (`net0` … `net3`): reading them into
//! blocks, writing blocks back, and normalising the strings Proxmox returns.
use vstd::prelude::*;
use vstd::string::*;
use crate::text;
use crate::number::{Number, trunc_u32};
use crate::text::{chars_of, chars_le, clone_opt, eq_str, has_char, join_chars, push_all, push_entry, push_i64, push_str, split_chars, split_once_chars, string_of};
use crate::resources::nodes::resource_vm::QemuVmResource;

verus! {

/// Whether `s` names a NIC model that may lead a network string.
pub open spec fn is_model_name(s: Seq<char>) -> bool {
    s == "virtio"@ || s == "e1000"@ || s == "rtl8139"@ || s == "vmxnet3"@
}

/// Whether `v` names a NIC model that may lead a network string.
pub fn is_model(v: &Vec<char>) -> (r: bool)
    ensures
        r == is_model_name(v@),
{
    eq_str(v, "virtio") || eq_str(v, "e1000") || eq_str(v, "rtl8139") || eq_str(v, "vmxnet3")
}

/// A `key=value` parameter of a network string.
pub type ParamView = (Seq<char>, Seq<char>);

/// The views of executable parameters.
pub open spec fn param_views(v: Seq<(Vec<char>, Vec<char>)>) -> Seq<ParamView> {
    v.map_values(|p: (Vec<char>, Vec<char>)| (p.0@, p.1@))
}

/// One part of a network string taken into the normaliser's state: the NIC
/// model (kept with its MAC unless the MAC is to be dropped) or a parameter.
pub open spec fn normalize_step(
    st: (Option<Seq<char>>, Seq<ParamView>),
    part: Seq<char>,
    remove_mac: bool,
) -> (Option<Seq<char>>, Seq<ParamView>) {
    match text::split_once_spec(part, '=') {
        Some((k, v)) => if is_model_name(k) {
            (Some(if v.contains(':') && remove_mac { k } else { part }), st.1)
        } else {
            (st.0, st.1.push((k, v)))
        },
        None => if is_model_name(part) {
            (Some(part), st.1)
        } else {
            (st.0, st.1.push((part, Seq::<char>::empty())))
        },
    }
}

/// The normaliser's state after all parts.
pub open spec fn normalize_scan(parts: Seq<Seq<char>>, remove_mac: bool) -> (
    Option<Seq<char>>,
    Seq<ParamView>,
)
    decreases parts.len(),
{
    if parts.len() == 0 {
        (None, Seq::<ParamView>::empty())
    } else {
        normalize_step(normalize_scan(parts.drop_last(), remove_mac), parts.last(), remove_mac)
    }
}

/// `x` placed into the key-sorted `sorted` after every entry whose key is
/// not greater than its own.
pub open spec fn insert_by_key(sorted: Seq<ParamView>, x: ParamView) -> Seq<ParamView>
    decreases sorted.len(),
{
    if sorted.len() == 0 {
        seq![x]
    } else if text::seq_le(sorted.last().0, x.0) {
        sorted.push(x)
    } else {
        insert_by_key(sorted.drop_last(), x).push(sorted.last())
    }
}

/// The stable sort of parameters by key.
pub open spec fn sort_by_key(s: Seq<ParamView>) -> Seq<ParamView>
    decreases s.len(),
{
    if s.len() == 0 {
        s
    } else {
        insert_by_key(sort_by_key(s.drop_last()), s.last())
    }
}

/// How a parameter is written back: `key=value`, or the bare key when the
/// value is empty.
pub open spec fn param_text(p: ParamView) -> Seq<char> {
    if p.1.len() == 0 {
        p.0
    } else {
        p.0 + seq!['='] + p.1
    }
}

/// The written form of each parameter, in order.
pub open spec fn param_texts(ps: Seq<ParamView>) -> Seq<Seq<char>> {
    ps.map_values(|p: ParamView| param_text(p))
}

/// Whether the MAC address that follows the model is dropped: it is unless
/// the configured string itself carries one (holds a `:`).
pub open spec fn should_remove_mac(current: Option<Seq<char>>) -> bool {
    match current {
        Some(c) => !c.contains(':'),
        None => true,
    }
}

/// The normalised network string: model first, then the parameters sorted
/// by key, joined by `,`.
pub open spec fn normalize_network_spec(net: Seq<char>, current: Option<Seq<char>>) -> Seq<char> {
    let st = normalize_scan(text::split_spec(net, ','), should_remove_mac(current));
    let items = param_texts(sort_by_key(st.1));
    text::join_spec(
        match st.0 {
            Some(t) => seq![t] + items,
            None => items,
        },
        ',',
    )
}

/// Inserts `x` into the key-sorted `v` as `insert_by_key` does.
fn insert_param(v: &mut Vec<(Vec<char>, Vec<char>)>, x: (Vec<char>, Vec<char>))
    ensures
        param_views(final(v)@) == insert_by_key(param_views(old(v)@), (x.0@, x.1@)),
{
    let ghost xv = (x.0@, x.1@);
    let ghost orig = param_views(v@);
    let mut j: usize = v.len();
    assert(orig.take(j as int) =~= orig);
    assert(orig.skip(j as int) =~= Seq::<ParamView>::empty());
    while j > 0 && !chars_le(&v[j - 1].0, &x.0)
        invariant
            j <= v.len(),
            xv == (x.0@, x.1@),
            param_views(v@) == orig,
            insert_by_key(orig, xv) == insert_by_key(orig.take(j as int), xv) + orig.skip(
                j as int,
            ),
        decreases j,
    {
        proof {
            let t = orig.take(j as int);
            assert(orig[j - 1] == (v@[j - 1].0@, v@[j - 1].1@));
            assert(t.last() == orig[j - 1]);
            assert(t.drop_last() =~= orig.take(j - 1));
            assert(t.len() > 0);
            assert(!text::seq_le(t.last().0, xv.0));
            assert(insert_by_key(t, xv) == insert_by_key(orig.take(j - 1), xv).push(orig[j - 1]));
            assert(insert_by_key(orig.take(j - 1), xv).push(orig[j - 1]) + orig.skip(j as int)
                =~= insert_by_key(orig.take(j - 1), xv) + orig.skip(j - 1));
        }
        j = j - 1;
    }
    proof {
        let t = orig.take(j as int);
        if j > 0 {
            assert(orig[j - 1] == (v@[j - 1].0@, v@[j - 1].1@));
            assert(t.last() == orig[j - 1]);
        }
        assert(insert_by_key(t, xv) == t.push(xv));
    }
    v.insert(j, x);
    assert(param_views(v@) =~= orig.take(j as int).push(xv) + orig.skip(j as int));
}

/// The network string with the model first (its MAC dropped when the
/// configured string carries none) and the remaining parameters sorted by
/// key.
pub fn normalize_network_chars(net: &Vec<char>, current: Option<&Vec<char>>) -> (r: Vec<char>)
    ensures
        r@ == normalize_network_spec(
            net@,
            match current {
                Some(c) => Some(c@),
                None => None,
            },
        ),
{
    let ghost cur_view = match current {
        Some(c) => Some(c@),
        None => None,
    };
    let remove_mac = match current {
        Some(c) => !has_char(c, ':'),
        None => true,
    };
    assert(remove_mac == should_remove_mac(cur_view));
    let parts = split_chars(net, ',');
    let ghost pv = text::split_spec(net@, ',');
    let mut network_type: Option<Vec<char>> = None;
    let mut params: Vec<(Vec<char>, Vec<char>)> = Vec::new();
    let mut i: usize = 0;
    assert(text::views(parts@).take(0) =~= Seq::<Seq<char>>::empty());
    while i < parts.len()
        invariant
            i <= parts.len(),
            text::views(parts@) == pv,
            ({
                let st = normalize_scan(pv.take(i as int), remove_mac);
                &&& st.1 == param_views(params@)
                &&& st.0 == match network_type {
                    Some(t) => Some(t@),
                    None => None,
                }
            }),
        decreases parts.len() - i,
    {
        let part = &parts[i];
        assert(part@ == pv[i as int]);
        assert(pv.take(i + 1).drop_last() =~= pv.take(i as int));
        let ghost old_params = param_views(params@);
        match split_once_chars(part, '=') {
            Some((k, v)) => {
                if is_model(&k) {
                    if has_char(&v, ':') && remove_mac {
                        network_type = Some(k);
                    } else {
                        network_type = Some(part.clone());
                    }
                } else {
                    params.push((k, v));
                    assert(param_views(params@) =~= old_params.push((k@, v@)));
                }
            },
            None => {
                if is_model(part) {
                    network_type = Some(part.clone());
                } else {
                    params.push((part.clone(), Vec::new()));
                    assert(param_views(params@) =~= old_params.push((part@, Seq::<char>::empty())));
                }
            },
        }
        i = i + 1;
    }
    assert(pv.take(parts.len() as int) =~= pv);
    // stable sort by key
    let mut sorted: Vec<(Vec<char>, Vec<char>)> = Vec::new();
    let mut k: usize = 0;
    let ghost all = param_views(params@);
    assert(all.take(0) =~= Seq::<ParamView>::empty());
    while k < params.len()
        invariant
            k <= params.len(),
            all == param_views(params@),
            param_views(sorted@) == sort_by_key(all.take(k as int)),
        decreases params.len() - k,
    {
        let x = (params[k].0.clone(), params[k].1.clone());
        assert(all.take(k + 1).drop_last() =~= all.take(k as int));
        insert_param(&mut sorted, x);
        k = k + 1;
    }
    assert(all.take(params.len() as int) =~= all);
    let mut items: Vec<Vec<char>> = Vec::new();
    let ghost sv = param_views(sorted@);
    let ghost texts = param_texts(sv);
    match &network_type {
        Some(t) => {
            items.push(t.clone());
        },
        None => {},
    }
    let ghost head = text::views(items@);
    let mut m: usize = 0;
    while m < sorted.len()
        invariant
            m <= sorted.len(),
            sv == param_views(sorted@),
            texts == param_texts(sv),
            text::views(items@) == head + texts.take(m as int),
        decreases sorted.len() - m,
    {
        let (key, value) = (&sorted[m].0, &sorted[m].1);
        let mut item: Vec<char> = key.clone();
        if value.len() > 0 {
            item.push('=');
            push_all(&mut item, value);
        }
        assert(item@ == param_text(sv[m as int]));
        let ghost before = text::views(items@);
        items.push(item);
        assert(text::views(items@) =~= before.push(item@));
        assert(texts.take(m + 1) =~= texts.take(m as int).push(texts[m as int]));
        m = m + 1;
    }
    assert(texts.take(sorted.len() as int) =~= texts);
    proof {
        match network_type {
            Some(t) => {
                assert(head =~= seq![t@]);
            },
            None => {
                assert(head =~= Seq::<Seq<char>>::empty());
                assert(head + texts =~= texts);
            },
        }
    }
    join_chars(&items, ',')
}

impl QemuVmResource {
    /// Normalises a network string read back from Proxmox so that it compares
    /// equal to what was configured: the model leads (its generated MAC
    /// address dropped unless the configured string carries one) and the
    /// other parameters follow, sorted by key.
    pub fn normalize_network_config(net_config: &str, current_config: Option<&str>) -> (r: String)
        ensures
            r@ == normalize_network_spec(
                net_config@,
                match current_config {
                    Some(c) => Some(c@),
                    None => None,
                },
            ),
    {
        let net = chars_of(net_config);
        let r = match current_config {
            Some(c) => {
                let cv = chars_of(c);
                normalize_network_chars(&net, Some(&cv))
            },
            None => normalize_network_chars(&net, None),
        };
        string_of(&r)
    }
}

/// Every value given for `key` by the `key=value` parts, in order.
pub open spec fn values_for(parts: Seq<Seq<char>>, key: Seq<char>) -> Seq<Seq<char>>
    decreases parts.len(),
{
    if parts.len() == 0 {
        Seq::<Seq<char>>::empty()
    } else {
        let init = values_for(parts.drop_last(), key);
        match text::split_once_spec(parts.last(), '=') {
            Some((k, v)) => if k == key {
                init.push(v)
            } else {
                init
            },
            None => init,
        }
    }
}

/// The value given for `key` by the last `key=value` part that names it.
pub open spec fn last_value_for(parts: Seq<Seq<char>>, key: Seq<char>) -> Option<Seq<char>> {
    let vs = values_for(parts, key);
    if vs.len() == 0 {
        None
    } else {
        Some(vs.last())
    }
}

/// How Proxmox writes a true flag: `1` or `true`.
pub open spec fn flag_value(v: Seq<char>) -> bool {
    v == "1"@ || v == "true"@
}

/// An optional flag value read as a boolean.
pub open spec fn opt_flag(o: Option<Seq<char>>) -> Option<bool> {
    match o {
        Some(v) => Some(flag_value(v)),
        None => None,
    }
}

/// The NIC model that leads a network string and the MAC address written
/// with it (`virtio=BA:88:…`); `virtio` when the first part names no model.
pub open spec fn leading_model(first: Seq<char>) -> (Seq<char>, Option<Seq<char>>) {
    match text::split_once_spec(first, '=') {
        Some((k, v)) => if is_model_name(k) {
            (k, if v.contains(':') { Some(v) } else { None })
        } else {
            ("virtio"@, None)
        },
        None => if is_model_name(first) {
            (first, None)
        } else {
            ("virtio"@, None)
        },
    }
}

/// A network string read into its attributes. A numeric attribute keeps
/// every text given for it, in order: the caller keeps the last one that
/// reads as a number.
pub struct ParsedNetwork {
    pub id: u32,
    pub model: String,
    pub bridge: Option<String>,
    pub firewall: Option<bool>,
    pub tag: Vec<String>,
    pub macaddr: Option<String>,
    pub rate: Vec<String>,
    pub queues: Vec<String>,
    pub link_down: Option<bool>,
    pub mtu: Vec<String>,
}

/// What a `ParsedNetwork` holds.
pub struct ParsedNetworkView {
    pub id: u32,
    pub model: Seq<char>,
    pub bridge: Option<Seq<char>>,
    pub firewall: Option<bool>,
    pub tag: Seq<Seq<char>>,
    pub macaddr: Option<Seq<char>>,
    pub rate: Seq<Seq<char>>,
    pub queues: Seq<Seq<char>>,
    pub link_down: Option<bool>,
    pub mtu: Seq<Seq<char>>,
}

impl View for ParsedNetwork {
    type V = ParsedNetworkView;

    open spec fn view(&self) -> ParsedNetworkView {
        ParsedNetworkView {
            id: self.id,
            model: self.model@,
            bridge: text::opt_view(self.bridge),
            firewall: self.firewall,
            tag: text::string_views(self.tag@),
            macaddr: text::opt_view(self.macaddr),
            rate: text::string_views(self.rate@),
            queues: text::string_views(self.queues@),
            link_down: self.link_down,
            mtu: text::string_views(self.mtu@),
        }
    }
}

/// The attributes of network string `s`, as interface `id`.
pub open spec fn parse_network_spec(s: Seq<char>, id: u32) -> ParsedNetworkView {
    let parts = text::split_spec(s, ',');
    let lead = leading_model(parts[0]);
    ParsedNetworkView {
        id: id,
        model: lead.0,
        bridge: last_value_for(parts, "bridge"@),
        firewall: opt_flag(last_value_for(parts, "firewall"@)),
        tag: values_for(parts, "tag"@),
        macaddr: match lead.1 {
            Some(m) => Some(m),
            None => last_value_for(parts, "macaddr"@),
        },
        rate: values_for(parts, "rate"@),
        queues: values_for(parts, "queues"@),
        link_down: opt_flag(last_value_for(parts, "link_down"@)),
        mtu: values_for(parts, "mtu"@),
    }
}

/// Every value given for `key` in `parts`, in order.
fn values_for_key(parts: &Vec<Vec<char>>, key: &str) -> (r: Vec<String>)
    ensures
        text::string_views(r@) == values_for(text::views(parts@), key@),
{
    let kv = chars_of(key);
    let mut r: Vec<String> = Vec::new();
    let mut i: usize = 0;
    let ghost pv = text::views(parts@);
    assert(pv.take(0) =~= Seq::<Seq<char>>::empty());
    assert(text::string_views(r@) =~= Seq::<Seq<char>>::empty());
    while i < parts.len()
        invariant
            i <= parts.len(),
            kv@ == key@,
            pv == text::views(parts@),
            text::string_views(r@) == values_for(pv.take(i as int), key@),
        decreases parts.len() - i,
    {
        assert(pv.take(i + 1).drop_last() =~= pv.take(i as int));
        assert(pv.take(i + 1).last() == parts@[i as int]@);
        let ghost before = text::string_views(r@);
        match split_once_chars(&parts[i], '=') {
            Some((k, v)) => {
                if text::eq_chars(&k, &kv) {
                    let sv = string_of(&v);
                    r.push(sv);
                    assert(text::string_views(r@) =~= before.push(v@));
                }
            },
            None => {},
        }
        i = i + 1;
    }
    assert(pv.take(parts.len() as int) =~= pv);
    r
}

/// The last entry of `v`, if any.
fn last_string(v: &Vec<String>) -> (r: Option<String>)
    ensures
        text::opt_view(r) == (if v@.len() == 0 {
            None
        } else {
            Some(text::string_views(v@).last())
        }),
{
    if v.len() == 0 {
        None
    } else {
        Some(v[v.len() - 1].clone())
    }
}

/// An optional flag value read as a boolean.
fn flag_of(o: &Option<String>) -> (r: Option<bool>)
    ensures
        r == opt_flag(text::opt_view(*o)),
{
    match o {
        Some(s) => {
            let cs = chars_of(s.as_str());
            Some(eq_str(&cs, "1") || eq_str(&cs, "true"))
        },
        None => None,
    }
}

impl QemuVmResource {
    /// Reads a network string such as `virtio=BA:88:CB:76:75:D6,bridge=vmbr0`
    /// into its attributes, as interface `id`.
    pub fn parse_network_string(net_string: &str, id: u32) -> (r: ParsedNetwork)
        ensures
            r@ == parse_network_spec(net_string@, id),
    {
        let s = chars_of(net_string);
        let parts = split_chars(&s, ',');
        let ghost pv = text::split_spec(s@, ',');
        proof {
            text::lemma_split_len(s@, ',');
        }
        let first = &parts[0];
        let mut model: Vec<char> = Vec::new();
        push_str(&mut model, "virtio");
        let mut lead_mac: Option<Vec<char>> = None;
        match split_once_chars(first, '=') {
            Some((k, v)) => {
                if is_model(&k) {
                    model = k;
                    if has_char(&v, ':') {
                        lead_mac = Some(v);
                    }
                }
            },
            None => {
                if is_model(first) {
                    model = first.clone();
                }
            },
        }
        proof {
            let lead = leading_model(pv[0]);
            assert(model@ == lead.0);
            assert(match lead_mac {
                Some(m) => lead.1 == Some(m@),
                None => lead.1 is None,
            });
        }
        let bridge = last_string(&values_for_key(&parts, "bridge"));
        let firewall = flag_of(&last_string(&values_for_key(&parts, "firewall")));
        let tag = values_for_key(&parts, "tag");
        let macaddr = match lead_mac {
            Some(m) => Some(string_of(&m)),
            None => last_string(&values_for_key(&parts, "macaddr")),
        };
        let rate = values_for_key(&parts, "rate");
        let queues = values_for_key(&parts, "queues");
        let link_down = flag_of(&last_string(&values_for_key(&parts, "link_down")));
        let mtu = values_for_key(&parts, "mtu");
        ParsedNetwork {
            id,
            model: string_of(&model),
            bridge,
            firewall,
            tag,
            macaddr,
            rate,
            queues,
            link_down,
            mtu,
        }
    }
}

/// A `network` block of the configuration, as the string builder reads it:
/// each attribute present when the block holds it with the expected type.
/// `tag`, `queues` and `mtu` are the block's numbers truncated to integers,
/// `rate` is its number as written.
pub struct NetworkBlock {
    pub id: Option<Number>,
    pub model: Option<String>,
    pub bridge: Option<String>,
    pub firewall: Option<bool>,
    pub tag: Option<i64>,
    pub macaddr: Option<String>,
    pub rate: Option<String>,
    pub queues: Option<i64>,
    pub link_down: Option<bool>,
    pub mtu: Option<i64>,
}

/// `,key=value` when the value is present, nothing otherwise.
pub open spec fn opt_entry(key: Seq<char>, v: Option<Seq<char>>) -> Seq<char> {
    match v {
        Some(x) => seq![','] + key + seq!['='] + x,
        None => Seq::<char>::empty(),
    }
}

/// The decimal text of an optional integer.
pub open spec fn opt_int_text(v: Option<i64>) -> Option<Seq<char>> {
    match v {
        Some(n) => Some(text::int_decimal(n as int)),
        None => None,
    }
}

/// `1` or `0` for an optional flag.
pub open spec fn opt_bit_text(v: Option<bool>) -> Option<Seq<char>> {
    match v {
        Some(b) => Some(if b { "1"@ } else { "0"@ }),
        None => None,
    }
}

/// The Proxmox network string of a block: the model (`virtio` when none is
/// given), then `bridge`, `firewall`, `tag`, `macaddr`, `rate`, `queues`,
/// `link_down` (only when set) and `mtu`, each only when present.
pub open spec fn network_block_spec(b: NetworkBlock) -> Seq<char> {
    (match b.model {
        Some(m) => m@,
        None => "virtio"@,
    }) + opt_entry("bridge"@, text::opt_view(b.bridge)) + opt_entry(
        "firewall"@,
        opt_bit_text(b.firewall),
    ) + opt_entry("tag"@, opt_int_text(b.tag)) + opt_entry("macaddr"@, text::opt_view(b.macaddr))
        + opt_entry("rate"@, text::opt_view(b.rate)) + opt_entry(
        "queues"@,
        opt_int_text(b.queues),
    ) + opt_entry(
        "link_down"@,
        if b.link_down == Some(true) {
            Some("1"@)
        } else {
            None
        },
    ) + opt_entry("mtu"@, opt_int_text(b.mtu))
}

/// Appends `,key=value` for a present string value.
fn push_opt_entry(out: &mut Vec<char>, key: &str, v: &Option<String>)
    ensures
        final(out)@ == old(out)@ + opt_entry(key@, text::opt_view(*v)),
{
    match v {
        Some(x) => {
            let xs = chars_of(x.as_str());
            push_entry(out, key, &xs);
        },
        None => {
            assert(out@ =~= out@ + opt_entry(key@, text::opt_view(*v)));
        },
    }
}

/// Appends `,key=N` for a present integer value.
fn push_opt_int(out: &mut Vec<char>, key: &str, v: Option<i64>)
    ensures
        final(out)@ == old(out)@ + opt_entry(key@, opt_int_text(v)),
{
    match v {
        Some(n) => {
            let mut d: Vec<char> = Vec::new();
            push_i64(&mut d, n);
            assert(d@ =~= text::int_decimal(n as int));
            push_entry(out, key, &d);
        },
        None => {
            assert(out@ =~= out@ + opt_entry(key@, opt_int_text(v)));
        },
    }
}

/// The network string of `b`.
pub(crate) fn network_block_chars(b: &NetworkBlock) -> (r: Vec<char>)
    ensures
        r@ == network_block_spec(*b),
{
    let mut out: Vec<char> = Vec::new();
    match &b.model {
        Some(m) => push_str(&mut out, m.as_str()),
        None => push_str(&mut out, "virtio"),
    }
    let ghost s0 = out@;
    push_opt_entry(&mut out, "bridge", &b.bridge);
    let ghost s1 = out@;
    match b.firewall {
        Some(f) => {
            let mut bit: Vec<char> = Vec::new();
            if f {
                push_str(&mut bit, "1");
            } else {
                push_str(&mut bit, "0");
            }
            push_entry(&mut out, "firewall", &bit);
        },
        None => {},
    }
    assert(out@ =~= s1 + opt_entry("firewall"@, opt_bit_text(b.firewall)));
    let ghost s2 = out@;
    push_opt_int(&mut out, "tag", b.tag);
    push_opt_entry(&mut out, "macaddr", &b.macaddr);
    push_opt_entry(&mut out, "rate", &b.rate);
    push_opt_int(&mut out, "queues", b.queues);
    let ghost s3 = out@;
    if b.link_down == Some(true) {
        let mut one: Vec<char> = Vec::new();
        push_str(&mut one, "1");
        push_entry(&mut out, "link_down", &one);
    }
    assert(out@ =~= s3 + opt_entry(
        "link_down"@,
        if b.link_down == Some(true) {
            Some("1"@)
        } else {
            None
        },
    ));
    push_opt_int(&mut out, "mtu", b.mtu);
    assert(out@ =~= network_block_spec(*b));
    out
}

/// The interface number and string of a `network` block that holds an
/// `id` number.
pub open spec fn network_block_ok(n: Option<NetworkBlock>) -> Option<(u32, Seq<char>)> {
    match n {
        Some(b) => match b.id {
            Some(id) => Some((trunc_u32(id.bits), network_block_spec(b))),
            None => None,
        },
        None => None,
    }
}

impl QemuVmResource {
    /// The Proxmox network string of the first block: an error when there is
    /// none or when it is not a map (`None`).
    pub fn network_blocks_to_string(networks: &[Option<NetworkBlock>]) -> (r: Result<String, String>)
        ensures
            networks@.len() == 0 ==> (r matches Err(e) && e@ == "No network data provided"@),
            networks@.len() > 0 && networks@[0] is None ==> (r matches Err(e) && e@
                == "Network must be a map"@),
            networks@.len() > 0 && networks@[0] is Some ==> (r matches Ok(s) && s@
                == network_block_spec(networks@[0]->0)),
    {
        if networks.len() == 0 {
            return Err(String::from_str("No network data provided"));
        }
        match &networks[0] {
            Some(b) => {
                let cs = network_block_chars(b);
                Ok(string_of(&cs))
            },
            None => Err(String::from_str("Network must be a map")),
        }
    }
}

} // verus!
