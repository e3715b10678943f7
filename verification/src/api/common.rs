//! Common types of the Proxmox API: booleans written as `0`/`1`, query
//! parameters, pagination, and numbers sent as strings.
use vstd::prelude::*;
use vstd::string::*;
use std::collections::HashMap;
use crate::text;
use crate::text::{chars_of, join_chars, push_all, push_i64, push_str, push_u64, string_of};
use crate::api::urlenc::url_encode;

verus! {

/// The identifier (UPID) of a Proxmox task.
pub struct TaskId(pub String);

/// The `{"data": …}` envelope of an API response.
pub struct ApiResponse<T> {
    pub data: T,
}

/// The body of an API error response.
pub struct ApiErrorResponse {
    pub errors: Option<Vec<String>>,
    pub data: Option<HashMap<String, Vec<String>>>,
}

/// The details of an API error: general errors and errors per field.
pub struct ApiErrorDetails {
    pub errors: Option<Vec<String>>,
    pub field_errors: Option<HashMap<String, Vec<String>>>,
}

impl ApiErrorResponse {
    /// The error details this response carries.
    pub fn into_details(self) -> (r: ApiErrorDetails)
        ensures
            r.errors == self.errors,
            r.field_errors == self.data,
    {
        ApiErrorDetails { errors: self.errors, field_errors: self.data }
    }
}

/// A boolean as Proxmox writes it: `true`/`false` or `1`/`0`.
#[derive(Clone, Copy, PartialEq, Eq, Structural)]
pub struct ProxmoxBool(pub bool);

impl ProxmoxBool {
    pub fn new(value: bool) -> (r: Self)
        ensures
            r.0 == value,
    {
        ProxmoxBool(value)
    }

    pub fn as_bool(&self) -> (r: bool)
        ensures
            r == self.0,
    {
        self.0
    }
}

impl From<bool> for ProxmoxBool {
    fn from(value: bool) -> (r: Self) {
        ProxmoxBool(value)
    }
}

impl vstd::std_specs::convert::FromSpecImpl<bool> for ProxmoxBool {
    open spec fn obeys_from_spec() -> bool {
        true
    }

    open spec fn from_spec(v: bool) -> ProxmoxBool {
        ProxmoxBool(v)
    }
}

impl From<ProxmoxBool> for bool {
    fn from(value: ProxmoxBool) -> (r: bool) {
        value.0
    }
}

impl vstd::std_specs::convert::FromSpecImpl<ProxmoxBool> for bool {
    open spec fn obeys_from_spec() -> bool {
        true
    }

    open spec fn from_spec(v: ProxmoxBool) -> bool {
        v.0
    }
}

/// Converting a boolean to a `ProxmoxBool` and back gives the boolean, and
/// converting a `ProxmoxBool` to a boolean and back gives the
/// `ProxmoxBool`.
pub proof fn lemma_proxmox_bool_round_trip(b: bool, p: ProxmoxBool)
    ensures
        <bool as vstd::std_specs::convert::FromSpec<ProxmoxBool>>::from_spec(
            <ProxmoxBool as vstd::std_specs::convert::FromSpec<bool>>::from_spec(b),
        ) == b,
        <ProxmoxBool as vstd::std_specs::convert::FromSpec<bool>>::from_spec(
            <bool as vstd::std_specs::convert::FromSpec<ProxmoxBool>>::from_spec(p),
        ) == p,
{
}

/// A boolean field as it arrives in JSON: a boolean or a small integer.
pub enum BoolOrInt {
    Bool(bool),
    Int(u8),
}

/// Reads a Proxmox boolean: a boolean as itself, `0` as false, `1` as true,
/// any other integer as the error `expected 0 or 1`.
pub fn bool_from_bool_or_int(v: BoolOrInt) -> (r: Result<bool, String>)
    ensures
        match v {
            BoolOrInt::Bool(b) => r == Ok::<bool, String>(b),
            BoolOrInt::Int(i) => if i == 0 {
                r == Ok::<bool, String>(false)
            } else if i == 1 {
                r == Ok::<bool, String>(true)
            } else {
                r matches Err(e) && e@ == "expected 0 or 1"@
            },
        },
{
    match v {
        BoolOrInt::Bool(b) => Ok(b),
        BoolOrInt::Int(0) => Ok(false),
        BoolOrInt::Int(1) => Ok(true),
        BoolOrInt::Int(_) => Err(String::from_str("expected 0 or 1")),
    }
}

/// A value that can stand in a query string, with the text it is written
/// as.
pub trait QueryValue {
    spec fn query_text(&self) -> Seq<char>;

    fn to_query_value(&self) -> (r: String)
        ensures
            r@ == self.query_text(),
    ;
}

impl QueryValue for &str {
    open spec fn query_text(&self) -> Seq<char> {
        (*self)@
    }

    fn to_query_value(&self) -> (r: String) {
        String::from_str(*self)
    }
}

impl QueryValue for String {
    open spec fn query_text(&self) -> Seq<char> {
        self@
    }

    fn to_query_value(&self) -> (r: String) {
        self.clone()
    }
}

impl QueryValue for u32 {
    open spec fn query_text(&self) -> Seq<char> {
        text::nat_decimal(*self as nat)
    }

    fn to_query_value(&self) -> (r: String) {
        text::u64_to_string(*self as u64)
    }
}

impl QueryValue for u64 {
    open spec fn query_text(&self) -> Seq<char> {
        text::nat_decimal(*self as nat)
    }

    fn to_query_value(&self) -> (r: String) {
        text::u64_to_string(*self)
    }
}

impl QueryValue for i32 {
    open spec fn query_text(&self) -> Seq<char> {
        text::int_decimal(*self as int)
    }

    fn to_query_value(&self) -> (r: String) {
        let mut v: Vec<char> = Vec::new();
        push_i64(&mut v, *self as i64);
        assert(v@ =~= text::int_decimal(*self as int));
        string_of(&v)
    }
}

/// Query parameters, in the order they were added.
pub struct ApiQueryParams {
    params: Vec<(String, String)>,
}

/// The key/value pairs of query parameters.
pub open spec fn pair_views(v: Seq<(String, String)>) -> Seq<(Seq<char>, Seq<char>)> {
    v.map_values(|p: (String, String)| (p.0@, p.1@))
}

impl View for ApiQueryParams {
    type V = Seq<(Seq<char>, Seq<char>)>;

    closed spec fn view(&self) -> Seq<(Seq<char>, Seq<char>)> {
        pair_views(self.params@)
    }
}

/// `key=value` with the value percent-encoded.
pub open spec fn query_pair_text(p: (Seq<char>, Seq<char>)) -> Seq<char> {
    p.0 + seq!['='] + crate::api::urlenc::percent_encode(vstd::utf8::encode_utf8(p.1))
}

/// The query string of parameters: empty when there are none, else `?`
/// followed by the `key=value` pairs joined by `&`.
pub open spec fn query_string_spec(ps: Seq<(Seq<char>, Seq<char>)>) -> Seq<char> {
    if ps.len() == 0 {
        Seq::<char>::empty()
    } else {
        seq!['?'] + text::join_spec(ps.map_values(|p: (Seq<char>, Seq<char>)| query_pair_text(p)), '&')
    }
}

impl ApiQueryParams {
    pub fn new() -> (r: Self)
        ensures
            r@ == Seq::<(Seq<char>, Seq<char>)>::empty(),
    {
        let r = ApiQueryParams { params: Vec::new() };
        assert(r@ =~= Seq::<(Seq<char>, Seq<char>)>::empty());
        r
    }

    /// Adds `key=value` after the parameters already present.
    pub fn add<V: QueryValue>(self, key: &str, value: V) -> (r: Self)
        ensures
            r@ == self@.push((key@, value.query_text())),
    {
        let mut params = self.params;
        let ghost before = pair_views(params@);
        let v = value.to_query_value();
        params.push((String::from_str(key), v));
        let r = ApiQueryParams { params };
        assert(r@ =~= before.push((key@, value.query_text())));
        r
    }

    /// Adds `key=value` when a value is given; leaves the parameters as they
    /// are otherwise.
    pub fn add_optional<V: QueryValue>(self, key: &str, value: Option<V>) -> (r: Self)
        ensures
            r@ == match value {
                Some(v) => self@.push((key@, v.query_text())),
                None => self@,
            },
    {
        match value {
            Some(v) => self.add(key, v),
            None => self,
        }
    }

    /// The query string: empty without parameters, else `?k1=v1&k2=v2…`
    /// with each value percent-encoded.
    pub fn to_query_string(&self) -> (r: String)
        ensures
            r@ == query_string_spec(self@),
    {
        if self.params.len() == 0 {
            return String::new();
        }
        let mut items: Vec<Vec<char>> = Vec::new();
        let mut i: usize = 0;
        let ghost ps = self@;
        let ghost texts = ps.map_values(|p: (Seq<char>, Seq<char>)| query_pair_text(p));
        while i < self.params.len()
            invariant
                i <= self.params.len(),
                ps == pair_views(self.params@),
                texts == ps.map_values(|p: (Seq<char>, Seq<char>)| query_pair_text(p)),
                text::views(items@) == texts.take(i as int),
            decreases self.params.len() - i,
        {
            let mut item = chars_of(self.params[i].0.as_str());
            item.push('=');
            let enc = url_encode(self.params[i].1.as_str());
            push_str(&mut item, enc.as_str());
            assert(item@ == texts[i as int]);
            let ghost before = text::views(items@);
            items.push(item);
            assert(text::views(items@) =~= before.push(texts[i as int]));
            assert(texts.take(i + 1) =~= texts.take(i as int).push(texts[i as int]));
            i = i + 1;
        }
        assert(texts.take(self.params.len() as int) =~= texts);
        let joined = join_chars(&items, '&');
        let mut out: Vec<char> = Vec::new();
        out.push('?');
        push_all(&mut out, &joined);
        assert(out@ =~= seq!['?'] + joined@);
        string_of(&out)
    }
}

/// Pagination of a list request.
pub struct PaginationParams {
    pub start: Option<u32>,
    pub limit: Option<u32>,
}

impl PaginationParams {
    pub fn new() -> (r: Self)
        ensures
            r.start is None,
            r.limit is None,
    {
        PaginationParams { start: None, limit: None }
    }

    pub fn with_start(self, start: u32) -> (r: Self)
        ensures
            r.start == Some(start),
            r.limit == self.limit,
    {
        PaginationParams { start: Some(start), limit: self.limit }
    }

    pub fn with_limit(self, limit: u32) -> (r: Self)
        ensures
            r.limit == Some(limit),
            r.start == self.start,
    {
        PaginationParams { start: self.start, limit: Some(limit) }
    }

    /// `start` then `limit`, each only when set.
    pub fn to_query_params(&self) -> (r: ApiQueryParams)
        ensures
            r@ == (match self.start {
                Some(s) => seq![("start"@, text::nat_decimal(s as nat))],
                None => Seq::<(Seq<char>, Seq<char>)>::empty(),
            }) + (match self.limit {
                Some(l) => seq![("limit"@, text::nat_decimal(l as nat))],
                None => Seq::<(Seq<char>, Seq<char>)>::empty(),
            }),
    {
        let params = ApiQueryParams::new();
        let params = params.add_optional("start", self.start);
        let params = params.add_optional("limit", self.limit);
        assert(params@ =~= (match self.start {
            Some(s) => seq![("start"@, text::nat_decimal(s as nat))],
            None => Seq::<(Seq<char>, Seq<char>)>::empty(),
        }) + (match self.limit {
            Some(l) => seq![("limit"@, text::nat_decimal(l as nat))],
            None => Seq::<(Seq<char>, Seq<char>)>::empty(),
        }));
        params
    }
}

/// A list response with the total count when the API gives one.
pub struct ApiListResponse<T> {
    pub data: Vec<T>,
    pub total: Option<u32>,
}

/// An API resource with a collection path.
pub trait ProxmoxApiResource: Sized {
    type CreateRequest;
    type UpdateRequest;

    spec fn spec_api_path() -> Seq<char>;

    fn api_path() -> (r: &'static str)
        ensures
            r@ == Self::spec_api_path(),
    ;

    /// The path of one resource: the collection path, `/`, the id.
    fn resource_path(id: &str) -> (r: String)
        ensures
            r@ == Self::spec_api_path() + seq!['/'] + id@,
    {
        let mut out = chars_of(Self::api_path());
        out.push('/');
        push_str(&mut out, id);
        string_of(&out)
    }
}

} // verus!
