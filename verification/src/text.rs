//! Verified text building: decimal and hexadecimal rendering of numbers.
//!
//! All output is modelled as `Seq<char>` built from the views of string
//! literals, so the specification of every rendering function states the
//! exact text it appends.

use crate::fixed::Fx;
use vstd::prelude::*;
use vstd::string::StringExecFns;

verus! {

/// The decimal digit `d` as a one-character string.
pub open spec fn digit_str(d: int) -> Seq<char> {
    if d == 0 {
        "0"@
    } else if d == 1 {
        "1"@
    } else if d == 2 {
        "2"@
    } else if d == 3 {
        "3"@
    } else if d == 4 {
        "4"@
    } else if d == 5 {
        "5"@
    } else if d == 6 {
        "6"@
    } else if d == 7 {
        "7"@
    } else if d == 8 {
        "8"@
    } else {
        "9"@
    }
}

/// The hexadecimal digit `d` as a one-character string, upper case.
pub open spec fn hex_digit_str(d: int) -> Seq<char> {
    if d < 10 {
        digit_str(d)
    } else if d == 10 {
        "A"@
    } else if d == 11 {
        "B"@
    } else if d == 12 {
        "C"@
    } else if d == 13 {
        "D"@
    } else if d == 14 {
        "E"@
    } else {
        "F"@
    }
}

/// The decimal rendering of a nonnegative integer, most significant digit
/// first, without leading zeros (a single zero for zero).
pub open spec fn dec_str(n: int) -> Seq<char>
    decreases n,
{
    if n < 10 {
        digit_str(n)
    } else {
        dec_str(n / 10) + digit_str(n % 10)
    }
}

/// A byte as exactly two upper-case hexadecimal digits.
pub open spec fn hex_byte_str(v: int) -> Seq<char> {
    hex_digit_str(v / 16) + hex_digit_str(v % 16)
}

/// The first `k` digits after the decimal point of `f / 65536`.
pub open spec fn frac_str(f: int, k: nat) -> Seq<char>
    decreases k,
{
    if k == 0 {
        Seq::empty()
    } else {
        digit_str((f * 10) / 65536) + frac_str((f * 10) % 65536, (k - 1) as nat)
    }
}

/// The decimal rendering of a fixed-point value: an optional sign, the whole
/// part, a point, and four fractional digits. The value is clipped into the
/// representable range first, so the rendering is total.
pub open spec fn fx_str(x: int) -> Seq<char> {
    let c = crate::fixed::sat(x);
    let a = if c < 0 {
        -c
    } else {
        c
    };
    let sign = if c < 0 {
        "-"@
    } else {
        Seq::<char>::empty()
    };
    sign + dec_str(a / 65536) + "."@ + frac_str(a % 65536, 4)
}

/// The fixed-point value rounded to the nearest integer (half away from
/// zero), rendered in decimal.
pub open spec fn fx_int_str(x: int) -> Seq<char> {
    let r = fx_round(crate::fixed::sat(x));
    if r < 0 {
        "-"@ + dec_str(-r)
    } else {
        dec_str(r)
    }
}

/// Rounds a fixed-point value to the nearest integer, half away from zero.
pub open spec fn fx_round(x: int) -> int {
    if x >= 0 {
        (x + 32768) / 65536
    } else {
        -((-x + 32768) / 65536)
    }
}

/// Appends one decimal digit.
fn push_digit(out: &mut String, d: u64)
    requires
        d < 10,
    ensures
        final(out)@ == old(out)@ + digit_str(d as int),
{
    if d == 0 {
        out.append("0");
    } else if d == 1 {
        out.append("1");
    } else if d == 2 {
        out.append("2");
    } else if d == 3 {
        out.append("3");
    } else if d == 4 {
        out.append("4");
    } else if d == 5 {
        out.append("5");
    } else if d == 6 {
        out.append("6");
    } else if d == 7 {
        out.append("7");
    } else if d == 8 {
        out.append("8");
    } else {
        out.append("9");
    }
}

/// Appends one upper-case hexadecimal digit.
fn push_hex_digit(out: &mut String, d: u64)
    requires
        d < 16,
    ensures
        final(out)@ == old(out)@ + hex_digit_str(d as int),
{
    if d < 10 {
        push_digit(out, d);
    } else if d == 10 {
        out.append("A");
    } else if d == 11 {
        out.append("B");
    } else if d == 12 {
        out.append("C");
    } else if d == 13 {
        out.append("D");
    } else if d == 14 {
        out.append("E");
    } else {
        out.append("F");
    }
}

/// Appends the decimal rendering of `n`.
pub fn push_dec(out: &mut String, n: u64)
    ensures
        final(out)@ == old(out)@ + dec_str(n as int),
    decreases n,
{
    if n >= 10 {
        push_dec(out, n / 10);
    }
    push_digit(out, n % 10);
}

/// Appends a byte as two upper-case hexadecimal digits.
pub fn push_hex_byte(out: &mut String, v: u8)
    ensures
        final(out)@ == old(out)@ + hex_byte_str(v as int),
{
    push_hex_digit(out, (v / 16) as u64);
    push_hex_digit(out, (v % 16) as u64);
}

/// Appends `k` fractional decimal digits of `f / 65536`.
fn push_frac(out: &mut String, f: i64, k: u64)
    requires
        0 <= f < 65536,
    ensures
        final(out)@ == old(out)@ + frac_str(f as int, k as nat),
    decreases k,
{
    if k > 0 {
        let t: i64 = f * 10;
        push_digit(out, (t / 65536) as u64);
        push_frac(out, t % 65536, k - 1);
    }
}

/// Appends the decimal rendering of a fixed-point value with four
/// fractional digits.
pub fn push_fx(out: &mut String, x: Fx)
    ensures
        final(out)@ == old(out)@ + fx_str(x as int),
{
    let c: i64 = if x == i64::MIN {
        -9223372036854775807
    } else {
        x
    };
    let a: i64 = if c < 0 {
        out.append("-");
        -c
    } else {
        c
    };
    push_dec(out, (a / 65536) as u64);
    out.append(".");
    push_frac(out, a % 65536, 4);
}

/// Appends the fixed-point value rounded to the nearest integer.
pub fn push_fx_int(out: &mut String, x: Fx)
    ensures
        final(out)@ == old(out)@ + fx_int_str(x as int),
{
    let c: i64 = if x == i64::MIN {
        -9223372036854775807
    } else {
        x
    };
    if c >= 0 {
        let r: i64 = (c / 2 + 16384) / 32768;
        proof {
            lemma_half_round(c as int);
        }
        push_dec(out, r as u64);
    } else {
        let n: i64 = -c;
        proof {
            lemma_half_round(n as int);
        }
        let r: i64 = (n / 2 + 16384) / 32768;
        if r == 0 {
            push_dec(out, 0);
            assert(fx_round(x as int) == 0);
        } else {
            out.append("-");
            push_dec(out, r as u64);
        }
    }
}

/// `(n / 2 + 32768 / 2) / (65536 / 2)` equals `(n + 32768) / 65536` for even
/// scaling: rounding can be computed without leaving `i64`.
proof fn lemma_half_round(n: int)
    requires
        n >= 0,
    ensures
        (n / 2 + 16384) / 32768 == (n + 32768) / 65536,
{
    let h = n / 2;
    vstd::arithmetic::div_mod::lemma_fundamental_div_mod(n, 2);
    vstd::arithmetic::div_mod::lemma_mod_bound(n, 2);
    let b = n % 2;
    // n == 2h + b, b in {0, 1}
    vstd::arithmetic::div_mod::lemma_fundamental_div_mod(h + 16384, 32768);
    vstd::arithmetic::div_mod::lemma_mod_bound(h + 16384, 32768);
    let q = (h + 16384) / 32768;
    let r = (h + 16384) % 32768;
    assert(n + 32768 == 65536 * q + (2 * r + b)) by (nonlinear_arith)
        requires
            n == 2 * h + b,
            h + 16384 == 32768 * q + r,
    ;
    assert(0 <= 2 * r + b < 65536);
    vstd::arithmetic::div_mod::lemma_fundamental_div_mod_converse(
        n + 32768, 65536, q, 2 * r + b);
}

} // verus!
