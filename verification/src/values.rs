//! Terraform attribute values and diagnostics, as the resources read and
//! report them.
use vstd::prelude::*;
use vstd::string::*;
use crate::number::Number;
use crate::text::opt_view;

verus! {

/// A primitive attribute value of a Terraform object. An attribute that
/// the object does not hold at all is `None` where an `Option<AttrValue>`
/// stands.
pub enum AttrValue {
    Null,
    Bool(bool),
    Number(Number),
    Text(String),
}

/// An attribute value as plain values.
pub enum AttrView {
    Null,
    Bool(bool),
    Number(u64, Seq<char>),
    Text(Seq<char>),
}

/// An attribute value as plain values.
pub open spec fn attr_view(a: AttrValue) -> AttrView {
    match a {
        AttrValue::Null => AttrView::Null,
        AttrValue::Bool(b) => AttrView::Bool(b),
        AttrValue::Number(n) => AttrView::Number(n.bits, n.text@),
        AttrValue::Text(s) => AttrView::Text(s@),
    }
}

/// The string an attribute holds, when it holds one.
pub open spec fn text_view(o: Option<AttrValue>) -> Option<Seq<char>> {
    match o {
        Some(AttrValue::Text(s)) => Some(s@),
        _ => None,
    }
}

/// The bit pattern of the number an attribute holds, when it holds one.
pub open spec fn number_bits(o: Option<AttrValue>) -> Option<u64> {
    match o {
        Some(AttrValue::Number(n)) => Some(n.bits),
        _ => None,
    }
}

/// The text of the number an attribute holds, when it holds one.
pub open spec fn number_text(o: Option<AttrValue>) -> Option<Seq<char>> {
    match o {
        Some(AttrValue::Number(n)) => Some(n.text@),
        _ => None,
    }
}

/// The boolean an attribute holds, when it holds one.
pub open spec fn flag_view(o: Option<AttrValue>) -> Option<bool> {
    match o {
        Some(AttrValue::Bool(b)) => Some(b),
        _ => None,
    }
}

/// The attribute at position `i` of a numbered family (`scsi0`, `scsi1`,
/// …); absent past the end.
pub open spec fn nth_attr(v: Seq<Option<AttrValue>>, i: int) -> Option<AttrValue> {
    if 0 <= i < v.len() {
        v[i]
    } else {
        None
    }
}

/// A copy of a number.
pub fn clone_number(n: &Number) -> (r: Number)
    ensures
        r.bits == n.bits,
        r.text@ == n.text@,
{
    Number { bits: n.bits, text: n.text.clone() }
}

/// A copy of an attribute value.
pub fn clone_attr(a: &AttrValue) -> (r: AttrValue)
    ensures
        text_view(Some(r)) == text_view(Some(*a)),
        number_bits(Some(r)) == number_bits(Some(*a)),
        number_text(Some(r)) == number_text(Some(*a)),
        flag_view(Some(r)) == flag_view(Some(*a)),
        (r is Null) == (*a is Null),
        attr_view(r) == attr_view(*a),
{
    match a {
        AttrValue::Null => AttrValue::Null,
        AttrValue::Bool(b) => AttrValue::Bool(*b),
        AttrValue::Number(n) => AttrValue::Number(clone_number(n)),
        AttrValue::Text(s) => AttrValue::Text(s.clone()),
    }
}

/// The string an attribute holds (`get_string`), when it holds one.
pub fn text_of(o: &Option<AttrValue>) -> (r: Option<String>)
    ensures
        opt_view(r) == text_view(*o),
{
    match o {
        Some(AttrValue::Text(s)) => Some(s.clone()),
        _ => None,
    }
}

/// The number an attribute holds (`get_number`), when it holds one.
pub fn number_of(o: &Option<AttrValue>) -> (r: Option<&Number>)
    ensures
        (r is Some) == (number_bits(*o) is Some),
        r matches Some(n) ==> Some(n.bits) == number_bits(*o) && Some(n.text@) == number_text(*o),
{
    match o {
        Some(AttrValue::Number(n)) => Some(n),
        _ => None,
    }
}

/// The boolean an attribute holds (`get_bool`), when it holds one.
pub fn flag_of(o: &Option<AttrValue>) -> (r: Option<bool>)
    ensures
        r == flag_view(*o),
{
    match o {
        Some(AttrValue::Bool(b)) => Some(*b),
        _ => None,
    }
}

/// The string held by the attribute at position `i` of a family.
pub fn text_at(v: &Vec<Option<AttrValue>>, i: usize) -> (r: Option<String>)
    ensures
        opt_view(r) == text_view(nth_attr(v@, i as int)),
{
    if i < v.len() {
        text_of(&v[i])
    } else {
        None
    }
}

/// How serious a diagnostic is.
#[derive(Clone, Copy, PartialEq, Eq, Structural)]
pub enum Severity {
    Error,
    Warning,
}

/// A diagnostic reported to Terraform.
pub struct Diagnostic {
    pub severity: Severity,
    pub summary: String,
    pub detail: String,
}

/// A diagnostic as plain values: severity, summary and detail.
pub open spec fn diag_view(d: Diagnostic) -> (Severity, Seq<char>, Seq<char>) {
    (d.severity, d.summary@, d.detail@)
}

/// The views of a sequence of diagnostics.
pub open spec fn diag_views(v: Seq<Diagnostic>) -> Seq<(Severity, Seq<char>, Seq<char>)> {
    v.map_values(|d: Diagnostic| diag_view(d))
}

impl Diagnostic {
    /// An error diagnostic.
    pub fn error(summary: &str, detail: &str) -> (r: Self)
        ensures
            diag_view(r) == (Severity::Error, summary@, detail@),
    {
        Diagnostic {
            severity: Severity::Error,
            summary: String::from_str(summary),
            detail: String::from_str(detail),
        }
    }

    /// A warning diagnostic.
    pub fn warning(summary: &str, detail: &str) -> (r: Self)
        ensures
            diag_view(r) == (Severity::Warning, summary@, detail@),
    {
        Diagnostic {
            severity: Severity::Warning,
            summary: String::from_str(summary),
            detail: String::from_str(detail),
        }
    }
}

} // verus!
