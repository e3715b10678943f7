//! Unsigned integers written as text, read the way Rust's `str::parse`
//! reads them, and the numbers Proxmox sends either as strings or as JSON
//! numbers.
use vstd::prelude::*;
use vstd::string::*;
use crate::text::{chars_of, digit_char, nat_decimal};

verus! {

/// Why text is not an unsigned integer of the target type.
#[derive(Clone, Copy, Debug, PartialEq, Eq, Structural)]
pub enum IntErrorKind {
    Empty,
    InvalidDigit,
    PosOverflow,
}

/// The text each error is shown with.
pub open spec fn int_error_text(k: IntErrorKind) -> Seq<char> {
    match k {
        IntErrorKind::Empty => "cannot parse integer from empty string"@,
        IntErrorKind::InvalidDigit => "invalid digit found in string"@,
        IntErrorKind::PosOverflow => "number too large to fit in target type"@,
    }
}

impl IntErrorKind {
    /// The text the error is shown with.
    pub fn message(&self) -> (r: &'static str)
        ensures
            r@ == int_error_text(*self),
    {
        match self {
            IntErrorKind::Empty => "cannot parse integer from empty string",
            IntErrorKind::InvalidDigit => "invalid digit found in string",
            IntErrorKind::PosOverflow => "number too large to fit in target type",
        }
    }
}

/// Whether `c` is an ASCII decimal digit.
pub open spec fn is_digit(c: char) -> bool {
    '0' <= c <= '9'
}

/// The value of a decimal digit.
pub open spec fn digit_value(c: char) -> nat {
    (c as nat - '0' as nat) as nat
}

/// Reads digits left to right, stopping at the first character that is
/// not a digit or the first step whose value exceeds `max`.
pub open spec fn scan_digits(d: Seq<char>, max: nat) -> Result<nat, IntErrorKind>
    decreases d.len(),
{
    if d.len() == 0 {
        Ok(0)
    } else {
        match scan_digits(d.drop_last(), max) {
            Err(e) => Err(e),
            Ok(v) => if !is_digit(d.last()) {
                Err(IntErrorKind::InvalidDigit)
            } else if v * 10 + digit_value(d.last()) > max {
                Err(IntErrorKind::PosOverflow)
            } else {
                Ok(v * 10 + digit_value(d.last()))
            },
        }
    }
}

/// `str::parse` into an unsigned type whose largest value is `max`: an
/// optional `+`, then decimal digits.
pub open spec fn parse_unsigned(s: Seq<char>, max: nat) -> Result<nat, IntErrorKind> {
    if s.len() == 0 {
        Err(IntErrorKind::Empty)
    } else if s.len() == 1 && (s[0] == '+' || s[0] == '-') {
        Err(IntErrorKind::InvalidDigit)
    } else if s[0] == '+' {
        scan_digits(s.drop_first(), max)
    } else {
        scan_digits(s, max)
    }
}

proof fn lemma_scan_prefix(d: Seq<char>, n: int, max: nat)
    requires
        0 <= n <= d.len(),
        scan_digits(d.take(n), max) is Err,
    ensures
        scan_digits(d, max) == scan_digits(d.take(n), max),
    decreases d.len() - n,
{
    if n < d.len() {
        assert(d.take(n + 1).drop_last() =~= d.take(n));
        lemma_scan_prefix(d, n + 1, max);
    } else {
        assert(d.take(n) =~= d);
    }
}

/// Reads the digits of `d` from position `start` on.
fn scan(d: &Vec<char>, start: usize, max: u64) -> (r: Result<u64, IntErrorKind>)
    requires
        start <= d.len(),
        max >= 9,
    ensures
        match scan_digits(d@.skip(start as int), max as nat) {
            Ok(v) => r == Ok::<u64, IntErrorKind>(v as u64),
            Err(e) => r == Err::<u64, IntErrorKind>(e),
        },
{
    let ghost ds = d@.skip(start as int);
    let mut acc: u64 = 0;
    let mut i: usize = start;
    while i < d.len()
        invariant
            start <= i <= d.len(),
            ds == d@.skip(start as int),
            scan_digits(ds.take(i - start), max as nat) == Ok::<nat, IntErrorKind>(acc as nat),
            acc <= max,
            max >= 9,
        decreases d.len() - i,
    {
        let c = d[i];
        assert(ds.take(i - start + 1).drop_last() =~= ds.take(i - start));
        assert(ds.take(i - start + 1).last() == c);
        if !('0' <= c && c <= '9') {
            proof {
                lemma_scan_prefix(ds, i - start + 1, max as nat);
            }
            return Err(IntErrorKind::InvalidDigit);
        }
        let x: u64 = (c as u32 - '0' as u32) as u64;
        assert(x == digit_value(c));
        if acc > (max - x) / 10 {
            assert(acc * 10 + x > max) by (nonlinear_arith)
                requires
                    acc > (max - x) / 10,
                    x <= 9,
                    max >= 9,
            ;
            proof {
                lemma_scan_prefix(ds, i - start + 1, max as nat);
            }
            return Err(IntErrorKind::PosOverflow);
        }
        assert(acc * 10 + x <= max) by (nonlinear_arith)
            requires
                acc <= (max - x) / 10,
                x <= max,
        ;
        acc = acc * 10 + x;
        i = i + 1;
    }
    assert(ds.take(d.len() - start) =~= ds);
    Ok(acc)
}

/// Reads unsigned text up to `max`.
fn parse_up_to(s: &str, max: u64) -> (r: Result<u64, IntErrorKind>)
    requires
        max >= 9,
    ensures
        match parse_unsigned(s@, max as nat) {
            Ok(v) => r == Ok::<u64, IntErrorKind>(v as u64),
            Err(e) => r == Err::<u64, IntErrorKind>(e),
        },
{
    let d = chars_of(s);
    if d.len() == 0 {
        return Err(IntErrorKind::Empty);
    }
    if d.len() == 1 && (d[0] == '+' || d[0] == '-') {
        return Err(IntErrorKind::InvalidDigit);
    }
    if d[0] == '+' {
        assert(d@.skip(1) =~= s@.drop_first());
        scan(&d, 1, max)
    } else {
        assert(d@.skip(0) =~= s@);
        scan(&d, 0, max)
    }
}

/// `s.parse::<u64>()`.
pub fn parse_u64(s: &str) -> (r: Result<u64, IntErrorKind>)
    ensures
        match parse_unsigned(s@, u64::MAX as nat) {
            Ok(v) => r == Ok::<u64, IntErrorKind>(v as u64),
            Err(e) => r == Err::<u64, IntErrorKind>(e),
        },
{
    parse_up_to(s, u64::MAX)
}

/// `s.parse::<u32>()`.
pub fn parse_u32(s: &str) -> (r: Result<u32, IntErrorKind>)
    ensures
        match parse_unsigned(s@, u32::MAX as nat) {
            Ok(v) => r == Ok::<u32, IntErrorKind>(v as u32),
            Err(e) => r == Err::<u32, IntErrorKind>(e),
        },
{
    match parse_up_to(s, u32::MAX as u64) {
        Ok(v) => Ok(v as u32),
        Err(e) => Err(e),
    }
}

/// A number Proxmox sent as a string or as a JSON number.
pub enum StringOrU64 {
    String(String),
    U64(u64),
}

/// A number Proxmox sent as a string or as a JSON number.
pub enum StringOrU32 {
    String(String),
    U32(u32),
}

/// The value of an optional number sent as a string or a number; a string
/// that is not a `u64` is an error with the parse error's text.
pub fn string_or_u64_value(v: Option<StringOrU64>) -> (r: Result<Option<u64>, String>)
    ensures
        match v {
            None => r == Ok::<Option<u64>, String>(None),
            Some(StringOrU64::U64(u)) => r == Ok::<Option<u64>, String>(Some(u)),
            Some(StringOrU64::String(s)) => match parse_unsigned(s@, u64::MAX as nat) {
                Ok(n) => r == Ok::<Option<u64>, String>(Some(n as u64)),
                Err(e) => r matches Err(m) && m@ == int_error_text(e),
            },
        },
{
    match v {
        None => Ok(None),
        Some(StringOrU64::U64(u)) => Ok(Some(u)),
        Some(StringOrU64::String(s)) => match parse_u64(s.as_str()) {
            Ok(n) => Ok(Some(n)),
            Err(e) => Err(String::from_str(e.message())),
        },
    }
}

/// The value of an optional number sent as a string or a number; a string
/// that is not a `u32` is an error with the parse error's text.
pub fn string_or_u32_value(v: Option<StringOrU32>) -> (r: Result<Option<u32>, String>)
    ensures
        match v {
            None => r == Ok::<Option<u32>, String>(None),
            Some(StringOrU32::U32(u)) => r == Ok::<Option<u32>, String>(Some(u)),
            Some(StringOrU32::String(s)) => match parse_unsigned(s@, u32::MAX as nat) {
                Ok(n) => r == Ok::<Option<u32>, String>(Some(n as u32)),
                Err(e) => r matches Err(m) && m@ == int_error_text(e),
            },
        },
{
    match v {
        None => Ok(None),
        Some(StringOrU32::U32(u)) => Ok(Some(u)),
        Some(StringOrU32::String(s)) => match parse_u32(s.as_str()) {
            Ok(n) => Ok(Some(n)),
            Err(e) => Err(String::from_str(e.message())),
        },
    }
}

/// Every character of a decimal rendering is a digit.
pub proof fn lemma_decimal_digits(n: nat)
    ensures
        nat_decimal(n).len() >= 1,
        forall|i: int| 0 <= i < nat_decimal(n).len() ==> is_digit(#[trigger] nat_decimal(n)[i]),
    decreases n,
{
    if n >= 10 {
        lemma_decimal_digits(n / 10);
    }
}

proof fn lemma_scan_decimal(n: nat, max: nat)
    requires
        n <= max,
    ensures
        scan_digits(nat_decimal(n), max) == Ok::<nat, IntErrorKind>(n),
    decreases n,
{
    let d: nat = n % 10;
    assert(digit_char(d) as nat == 48 + d);
    assert('0' as nat == 48);
    assert(is_digit(digit_char(d)));
    assert(digit_value(digit_char(d)) == d);
    if n < 10 {
        assert(nat_decimal(n).drop_last() =~= Seq::<char>::empty());
        assert(nat_decimal(n).last() == digit_char(d));
        assert(scan_digits(Seq::<char>::empty(), max) == Ok::<nat, IntErrorKind>(0));
        assert(nat_decimal(n).len() == 1);
    } else {
        lemma_scan_decimal(n / 10, max);
        assert(nat_decimal(n).drop_last() =~= nat_decimal(n / 10));
        assert(nat_decimal(n).last() == digit_char(d));
        assert((n / 10) * 10 + d == n);
    }
}

/// Reading back the decimal text of a number no larger than `max` gives
/// the number: `n.to_string().parse()` is `Ok(n)` in any unsigned type
/// that holds `n`.
pub proof fn lemma_parse_decimal(n: nat, max: nat)
    requires
        n <= max,
    ensures
        parse_unsigned(nat_decimal(n), max) == Ok::<nat, IntErrorKind>(n),
{
    lemma_decimal_digits(n);
    lemma_scan_decimal(n, max);
    assert(is_digit(nat_decimal(n)[0]));
}

} // verus!
