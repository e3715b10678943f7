//! Terraform numbers. A number is an IEEE 754 binary64 value; the library
//! keeps its bit pattern and works out exactly what the provider reads from
//! it: Rust's truncating casts to unsigned integers, and comparisons with
//! integer bounds.
use vstd::prelude::*;
use vstd::arithmetic::power2::{pow2, lemma2_to64, lemma2_to64_rest, lemma_pow2_unfold, lemma_pow2_strictly_increases};
use vstd::arithmetic::div_mod::{lemma_basic_div, lemma_small_mod};

verus! {

/// A Terraform number: its binary64 bit pattern, and its text as the host
/// writes it (`1` for one, `2.5` for two and a half).
pub struct Number {
    pub bits: u64,
    pub text: String,
}

/// The biased exponent field.
pub open spec fn exp_field(b: u64) -> nat {
    ((b as nat) / 0x10000000000000) % 2048
}

/// The fraction field.
pub open spec fn frac_field(b: u64) -> nat {
    (b as nat) % 0x10000000000000
}

/// Whether the sign bit is set.
pub open spec fn sign_bit(b: u64) -> bool {
    (b as nat) >= 0x8000000000000000
}

pub open spec fn is_nan(b: u64) -> bool {
    exp_field(b) == 2047 && frac_field(b) != 0
}

pub open spec fn is_infinite(b: u64) -> bool {
    exp_field(b) == 2047 && frac_field(b) == 0
}

pub open spec fn is_zero(b: u64) -> bool {
    exp_field(b) == 0 && frac_field(b) == 0
}

/// The integer significand: the magnitude is `significand * 2^(exp - 1075)`
/// (with exponent `-1074` for subnormals).
pub open spec fn significand(b: u64) -> nat {
    if exp_field(b) == 0 {
        frac_field(b)
    } else {
        frac_field(b) + 0x10000000000000
    }
}

/// How far the significand is shifted right, when the magnitude has a
/// fractional part at all (`exp_field < 1075`).
pub open spec fn right_shift(b: u64) -> nat {
    if exp_field(b) == 0 {
        1074
    } else {
        (1075 - exp_field(b)) as nat
    }
}

/// The integer part of the magnitude of a finite number.
pub open spec fn floor_abs(b: u64) -> nat {
    if exp_field(b) >= 1075 {
        significand(b) * pow2((exp_field(b) - 1075) as nat)
    } else {
        significand(b) / pow2(right_shift(b))
    }
}

/// Whether a finite number has no fractional part.
pub open spec fn is_whole(b: u64) -> bool {
    exp_field(b) >= 1075 || significand(b) % pow2(right_shift(b)) == 0
}

/// Rust's `as u64` on the number: toward zero, saturating, NaN and
/// negatives to 0.
pub open spec fn trunc_u64(b: u64) -> u64 {
    if is_nan(b) || sign_bit(b) {
        0
    } else if is_infinite(b) || floor_abs(b) > u64::MAX {
        u64::MAX
    } else {
        floor_abs(b) as u64
    }
}

/// Rust's `as u32` on the number.
pub open spec fn trunc_u32(b: u64) -> u32 {
    if trunc_u64(b) > u32::MAX {
        u32::MAX
    } else {
        trunc_u64(b) as u32
    }
}

/// Whether `lo <= value <= hi` for integer bounds with `1 <= lo`.
pub open spec fn in_closed_range(b: u64, lo: nat, hi: nat) -> bool {
    &&& !is_nan(b)
    &&& !sign_bit(b)
    &&& !is_infinite(b)
    &&& floor_abs(b) >= lo
    &&& (floor_abs(b) < hi || (floor_abs(b) == hi && is_whole(b)))
}

/// Whether the value is greater than zero.
pub open spec fn is_positive(b: u64) -> bool {
    !is_nan(b) && !sign_bit(b) && !is_zero(b)
}

/// `2^n` for `n < 64`.
fn pow2_u64(n: u64) -> (r: u64)
    requires
        n < 64,
    ensures
        r as nat == pow2(n as nat),
{
    proof {
        lemma2_to64();
        lemma2_to64_rest();
    }
    let mut r: u64 = 1;
    let mut i: u64 = 0;
    while i < n
        invariant
            i <= n < 64,
            r as nat == pow2(i as nat),
        decreases n - i,
    {
        proof {
            lemma_pow2_unfold((i + 1) as nat);
            lemma_pow2_strictly_increases((i + 1) as nat, 64);
            lemma2_to64();
            lemma2_to64_rest();
        }
        r = r * 2;
        i = i + 1;
    }
    r
}

/// The integer part of a finite number's magnitude, capped at `u64::MAX`,
/// and whether the number is whole.
fn floor_info(b: u64) -> (r: (u64, bool))
    requires
        !is_nan(b),
        !is_infinite(b),
    ensures
        r.0 as nat == if floor_abs(b) > u64::MAX { u64::MAX as nat } else { floor_abs(b) },
        r.1 == is_whole(b),
{
    let e: u64 = (b / 0x10000000000000) % 2048;
    let f: u64 = b % 0x10000000000000;
    let sig: u64 = if e == 0 { f } else { f + 0x10000000000000 };
    assert(e as nat == exp_field(b) && f as nat == frac_field(b));
    assert(sig as nat == significand(b));
    assert(sig < 0x20000000000000);
    proof {
        lemma2_to64();
        lemma2_to64_rest();
    }
    if e >= 1075 {
        let k: u64 = e - 1075;
        if k >= 12 {
            proof {
                if k > 12 {
                    lemma_pow2_strictly_increases(12, k as nat);
                }
                assert(pow2(12) == 4096) by {
                    lemma2_to64();
                }
                let p = pow2(k as nat);
                assert(sig as nat * p >= 0x10000000000000 * 4096) by (nonlinear_arith)
                    requires
                        sig as nat >= 0x10000000000000,
                        p >= 4096,
                ;
            }
            (u64::MAX, true)
        } else {
            let p = pow2_u64(k);
            proof {
                if k < 11 {
                    lemma_pow2_strictly_increases(k as nat, 11);
                }
                assert((sig as nat) * (p as nat) < 0x20000000000000 * 2048) by (nonlinear_arith)
                    requires
                        sig < 0x20000000000000,
                        p <= 2048,
                ;
            }
            (sig * p, true)
        }
    } else {
        let sh: u64 = if e == 0 { 1074 } else { 1075 - e };
        assert(sh as nat == right_shift(b));
        if sh >= 64 {
            proof {
                if sh > 64 {
                    lemma_pow2_strictly_increases(64, sh as nat);
                }
                lemma_basic_div(sig as int, pow2(sh as nat) as int);
                lemma_small_mod(sig as nat, pow2(sh as nat));
            }
            (0, sig == 0)
        } else {
            let d = pow2_u64(sh);
            (sig / d, sig % d == 0)
        }
    }
}

/// Rust's `as u64` on a number.
pub fn number_to_u64(n: &Number) -> (r: u64)
    ensures
        r == trunc_u64(n.bits),
{
    let b = n.bits;
    let e: u64 = (b / 0x10000000000000) % 2048;
    let f: u64 = b % 0x10000000000000;
    if e == 2047 && f != 0 {
        return 0;
    }
    if b >= 0x8000000000000000 {
        return 0;
    }
    if e == 2047 {
        return u64::MAX;
    }
    let (fl, _) = floor_info(b);
    fl
}

/// Rust's `as u32` on a number.
pub fn number_to_u32(n: &Number) -> (r: u32)
    ensures
        r == trunc_u32(n.bits),
{
    let v = number_to_u64(n);
    if v > 0xffff_ffff {
        u32::MAX
    } else {
        v as u32
    }
}

/// Whether `lo <= value <= hi`.
pub fn number_in_range(n: &Number, lo: u64, hi: u64) -> (r: bool)
    requires
        1 <= lo,
        hi < u64::MAX,
    ensures
        r == in_closed_range(n.bits, lo as nat, hi as nat),
{
    let b = n.bits;
    let e: u64 = (b / 0x10000000000000) % 2048;
    assert(e as nat == exp_field(b));
    if e == 2047 || b >= 0x8000000000000000 {
        return false;
    }
    let (fl, whole) = floor_info(b);
    fl >= lo && (fl < hi || (fl == hi && whole))
}

/// Whether the value is greater than zero.
pub fn number_is_positive(n: &Number) -> (r: bool)
    ensures
        r == is_positive(n.bits),
{
    let b = n.bits;
    let e: u64 = (b / 0x10000000000000) % 2048;
    let f: u64 = b % 0x10000000000000;
    !(e == 2047 && f != 0) && b < 0x8000000000000000 && !(e == 0 && f == 0)
}

} // verus!
