//! Saturating fixed-point arithmetic.
//!
//! A [`Fx`] value is an `i64` holding a real number scaled by 2^16: the raw
//! value 65536 stands for 1.0. Angles use the same scale with a full turn at
//! 65536 raw units, so angular arithmetic is exact modulo one turn, and the
//! cardinal and diagonal directions have exact sines and cosines.
//!
//! Every operation saturates at `i64::MAX` / `-i64::MAX` instead of
//! overflowing, which keeps all of them total: no input panics.

use vstd::arithmetic::div_mod::{
    lemma_fundamental_div_mod, lemma_fundamental_div_mod_converse, lemma_mod_bound,
};
use vstd::prelude::*;

verus! {

/// A fixed-point number: the raw value scaled by 2^16.
pub type Fx = i64;

/// Raw representation of 1.0.
pub const FX_ONE: i64 = 65536;

/// Raw representation of a full turn of angle (the same scale: 1.0 turns).
pub const FX_TURN: i64 = 65536;

/// Raw representation of a quarter turn.
pub const FX_QUARTER: i64 = 16384;

/// Raw representation of an eighth of a turn.
pub const FX_EIGHTH: i64 = 8192;

/// Largest representable value; saturation clips here.
pub const FX_MAX: i64 = 9223372036854775807;

/// Smallest representable value, the negation of [`FX_MAX`].
pub const FX_MIN: i64 = -9223372036854775807;

/// `sin` and `cos` of an eighth of a turn: `sqrt(1/2)` in raw units.
pub const FX_SQRT_HALF: i64 = 46341;

/// Clips an unbounded integer into the representable range.
pub open spec fn sat(x: int) -> int {
    if x > FX_MAX as int {
        FX_MAX as int
    } else if x < FX_MIN as int {
        FX_MIN as int
    } else {
        x
    }
}

/// Mathematical floor division, total: division by zero yields zero.
///
/// Since `/` on `int` is Euclidean, it is already a floor when the divisor is
/// positive; a negative divisor is handled by negating both operands.
pub open spec fn floor_div(p: int, d: int) -> int {
    if d == 0 {
        0
    } else if d > 0 {
        p / d
    } else {
        (-p) / (-d)
    }
}

/// Saturating addition.
#[verifier::allow_in_spec]
pub fn fx_add(a: Fx, b: Fx) -> Fx
    returns
        (sat(a + b) as i64),
{
    let p: i128 = (a as i128) + (b as i128);
    clip(p)
}

/// Saturating subtraction.
#[verifier::allow_in_spec]
pub fn fx_sub(a: Fx, b: Fx) -> Fx
    returns
        (sat(a - b) as i64),
{
    let p: i128 = (a as i128) - (b as i128);
    clip(p)
}

/// Saturating negation.
#[verifier::allow_in_spec]
pub fn fx_neg(a: Fx) -> Fx
    returns
        (sat(-a) as i64),
{
    if a == i64::MIN {
        FX_MAX
    } else {
        -a
    }
}

/// Absolute value, saturating at `FX_MAX`.
#[verifier::allow_in_spec]
pub fn fx_abs(a: Fx) -> Fx
    returns
        (if a >= 0 { a } else { sat(-a) as i64 }),
{
    if a >= 0 {
        a
    } else {
        fx_neg(a)
    }
}

/// The smaller of two values.
#[verifier::allow_in_spec]
pub fn fx_min(a: Fx, b: Fx) -> Fx
    returns
        (if a <= b { a } else { b }),
{
    if a <= b {
        a
    } else {
        b
    }
}

/// The larger of two values.
#[verifier::allow_in_spec]
pub fn fx_max(a: Fx, b: Fx) -> Fx
    returns
        (if a >= b { a } else { b }),
{
    if a >= b {
        a
    } else {
        b
    }
}

/// Clamps a value into `[lo, hi]`.
#[verifier::allow_in_spec]
pub fn fx_clamp(a: Fx, lo: Fx, hi: Fx) -> Fx
    requires
        lo <= hi,
    returns
        (if a < lo { lo } else if a > hi { hi } else { a }),
{
    if a < lo {
        lo
    } else if a > hi {
        hi
    } else {
        a
    }
}

/// Clips an `i128` into the representable `Fx` range.
fn clip(p: i128) -> (r: Fx)
    ensures
        r == sat(p as int),
{
    if p > 9223372036854775807i128 {
        FX_MAX
    } else if p < -9223372036854775807i128 {
        FX_MIN
    } else {
        p as i64
    }
}

/// The value of a saturating fixed-point product.
pub open spec fn fx_mul_spec(a: int, b: int) -> int {
    sat(floor_div(a * b, FX_ONE as int))
}

/// Saturating fixed-point multiplication: `(a * b) / 2^16`, rounded down.
#[verifier::allow_in_spec]
pub fn fx_mul(a: Fx, b: Fx) -> Fx
    returns
        (fx_mul_spec(a as int, b as int) as i64),
{
    proof {
        lemma_i64_product_in_i128(a as int, b as int);
    }
    let p: i128 = (a as i128) * (b as i128);
    let q: i128 = floor_div_by_pos(p, 65536);
    clip(q)
}

/// The value of a saturating fixed-point quotient.
///
/// Division by zero follows the sign of the dividend to an extreme value,
/// the way float division overflows to an infinity.
pub open spec fn fx_div_spec(a: int, b: int) -> int {
    if b == 0 {
        if a == 0 {
            0
        } else if a > 0 {
            FX_MAX as int
        } else {
            FX_MIN as int
        }
    } else {
        sat(floor_div(a * FX_ONE, b))
    }
}

/// Saturating fixed-point division: `(a * 2^16) / b`, rounded down. Total:
/// a zero divisor saturates by the dividend's sign.
#[verifier::allow_in_spec]
pub fn fx_div(a: Fx, b: Fx) -> Fx
    returns
        (fx_div_spec(a as int, b as int) as i64),
{
    if b == 0 {
        if a == 0 {
            0
        } else if a > 0 {
            FX_MAX
        } else {
            FX_MIN
        }
    } else {
        let p: i128 = (a as i128) * 65536;
        let q: i128 = if b < 0 {
            floor_div_by_pos(-p, -(b as i128))
        } else {
            floor_div_by_pos(p, b as i128)
        };
        assert(q == floor_div(a as int * FX_ONE, b as int));
        clip(q)
    }
}

/// The product of two `i64` values stays strictly inside the `i128` range.
proof fn lemma_i64_product_in_i128(a: int, b: int)
    requires
        i64::MIN <= a <= i64::MAX,
        i64::MIN <= b <= i64::MAX,
    ensures
        i128::MIN < a * b,
        a * b < i128::MAX,
{
    assert(i128::MIN < a * b < i128::MAX) by (nonlinear_arith)
        requires
            -9223372036854775808 <= a <= 9223372036854775807,
            -9223372036854775808 <= b <= 9223372036854775807,
    ;
}

/// Floor division of an `i128` by a positive divisor, matching [`floor_div`].
fn floor_div_by_pos(p: i128, d: i128) -> (q: i128)
    requires
        d > 0,
        i128::MIN < p,
    ensures
        q == floor_div(p as int, d as int),
{
    let t: i128 = p / d;
    let m: i128 = p % d;
    if p < 0 && m != 0 {
        proof {
            lemma_neg_div(-(p as int), d as int);
        }
        t - 1
    } else {
        proof {
            if p < 0 {
                lemma_neg_div(-(p as int), d as int);
            }
        }
        t
    }
}

/// For `n >= 0` and `d > 0`, turns the Euclidean quotient of `-n` by `d`
/// into the negated quotient of `n` by `d`.
pub proof fn lemma_neg_div(n: int, d: int)
    requires
        n >= 0,
        d > 0,
    ensures
        n % d == 0 ==> (-n) / d == -(n / d) && (-n) % d == 0,
        n % d != 0 ==> (-n) / d == -(n / d) - 1 && (-n) % d == d - n % d,
{
    lemma_fundamental_div_mod(n, d);
    lemma_mod_bound(n, d);
    let q = n / d;
    let r = n % d;
    if r == 0 {
        assert(-n == d * (-q) + 0) by (nonlinear_arith)
            requires n == d * q + 0;
        lemma_fundamental_div_mod_converse(-n, d, -q, 0);
    } else {
        assert(-n == d * (-q - 1) + (d - r)) by (nonlinear_arith)
            requires n == d * q + r;
        assert(0 <= d - r < d);
        lemma_fundamental_div_mod_converse(-n, d, -q - 1, d - r);
    }
}

/// The nonnegative integer square root: the unique `r` with
/// `r * r <= n < (r + 1) * (r + 1)`.
pub open spec fn sqrt_nat(n: nat) -> nat {
    choose|r: nat| (#[trigger] (r * r)) <= n < (r + 1) * (r + 1)
}

/// The integer square root exists for every `n`.
pub proof fn lemma_sqrt_nat(n: nat)
    ensures
        sqrt_nat(n) * sqrt_nat(n) <= n,
        n < (sqrt_nat(n) + 1) * (sqrt_nat(n) + 1),
    decreases n,
{
    if n == 0 {
        assert(0 * 0 <= 0 < (0 + 1) * (0 + 1)) by (nonlinear_arith);
        assert(exists|r: nat| (#[trigger] (r * r)) <= n < (r + 1) * (r + 1)) by {
            assert(0 as nat * 0 as nat <= n < (0 as nat + 1) * (0 as nat + 1));
        }
    } else {
        lemma_sqrt_nat((n - 1) as nat);
        let p = sqrt_nat((n - 1) as nat);
        assert(p * p <= n - 1 < (p + 1) * (p + 1));
        if (p + 1) * (p + 1) <= n {
            // then n == (p + 1)^2, since n - 1 < (p + 1)^2.
            assert((p + 1) * (p + 1) <= n < ((p + 1) + 1) * ((p + 1) + 1))
                by (nonlinear_arith)
                requires
                    n - 1 < (p + 1) * (p + 1),
                    (p + 1) * (p + 1) <= n,
            ;
            assert(exists|r: nat| (#[trigger] (r * r)) <= n < (r + 1) * (r + 1)) by {
                assert((p + 1) * (p + 1) <= n < ((p + 1) + 1) * ((p + 1) + 1));
            }
        } else {
            assert(exists|r: nat| (#[trigger] (r * r)) <= n < (r + 1) * (r + 1)) by {
                assert(p * p <= n < (p + 1) * (p + 1));
            }
        }
    }
}

/// The integer square root is unique.
pub proof fn lemma_sqrt_nat_unique(n: nat, r: nat)
    requires
        r * r <= n,
        n < (r + 1) * (r + 1),
    ensures
        r == sqrt_nat(n),
{
    lemma_sqrt_nat(n);
    let s = sqrt_nat(n);
    assert(r == s) by (nonlinear_arith)
        requires
            r * r <= n < (r + 1) * (r + 1),
            s * s <= n < (s + 1) * (s + 1),
    ;
}

/// Integer square root of a `u128`, by bisection.
fn isqrt_u128(n: u128) -> (r: u128)
    ensures
        r == sqrt_nat(n as nat),
        r * r <= n,
{
    let mut lo: u128 = 0;
    let mut hi: u128 = 18446744073709551616;
    proof {
        assert((18446744073709551616 as int) * (18446744073709551616 as int)
            > u128::MAX as int) by (nonlinear_arith);
    }
    while hi - lo > 1
        invariant
            lo < hi <= 18446744073709551616,
            (lo as int) * (lo as int) <= n as int,
            (n as int) < (hi as int) * (hi as int),
        decreases hi - lo,
    {
        let mid: u128 = lo + (hi - lo) / 2;
        assert(lo < mid < hi);
        assert((mid as int) * (mid as int) <= (18446744073709551615 as int)
            * (18446744073709551615 as int)) by (nonlinear_arith)
            requires 0 <= (mid as int) <= 18446744073709551615 as int;
        assert((18446744073709551615 as int) * (18446744073709551615 as int)
            <= u128::MAX as int) by (nonlinear_arith);
        if mid * mid <= n {
            lo = mid;
        } else {
            hi = mid;
        }
    }
    proof {
        assert(hi == lo + 1);
        lemma_sqrt_nat_unique(n as nat, lo as nat);
    }
    lo
}

/// The value of a fixed-point square root: zero on nonpositive input.
pub open spec fn fx_sqrt_spec(a: int) -> int {
    if a <= 0 {
        0
    } else {
        sqrt_nat((a * FX_ONE) as nat) as int
    }
}

/// Fixed-point square root. Total: nonpositive input yields zero.
#[verifier::allow_in_spec]
pub fn fx_sqrt(a: Fx) -> Fx
    returns
        (fx_sqrt_spec(a as int) as i64),
{
    if a <= 0 {
        0
    } else {
        let n: u128 = (a as u128) * 65536;
        let r: u128 = isqrt_u128(n);
        proof {
            assert((r as int) * (r as int) <= n as int);
            assert(r as int <= 1099511627776) by (nonlinear_arith)
                requires
                    (r as int) * (r as int) <= n as int,
                    n as int <= (9223372036854775807 as int) * 65536,
            ;
        }
        r as i64
    }
}

/// Multiplying by one (65536 raw) is the identity, in both signs.
pub proof fn lemma_fx_mul_unit(a: i64)
    requires
        0 <= a <= 0x7fffffffffff,
    ensures
        fx_mul(a, 65536) == a,
        fx_mul(a, (-65536) as i64) == -a,
{
    assert((a as int) * 65536 == 65536 * (a as int)) by (nonlinear_arith);
    vstd::arithmetic::div_mod::lemma_div_multiples_vanish(a as int, 65536);
    vstd::arithmetic::div_mod::lemma_mod_multiples_basic(a as int, 65536);
    assert((a as int) * (-65536) == -((a as int) * 65536)) by (nonlinear_arith);
    lemma_neg_div((a as int) * 65536, 65536);
}

/// A product with a negated positive factor lands within one raw unit of
/// the negated product: floor rounding toward minus infinity costs at most
/// one unit.
pub proof fn lemma_fx_mul_neg_factor(a: i64, k: i64)
    requires
        0 <= a,
        0 < k,
        (a as int) * (k as int) <= 0x7ffffffffffffff,
    ensures
        0 <= fx_mul(a, k),
        -fx_mul(a, k) - 1 <= fx_mul(a, ((-(k as int)) as i64)) <= -fx_mul(a, k),
{
    let p = (a as int) * (k as int);
    assert(p >= 0) by (nonlinear_arith)
        requires
            0 <= a as int,
            0 < k as int,
            p == (a as int) * (k as int),
    ;
    assert((a as int) * (-(k as int)) == -p) by (nonlinear_arith)
        requires
            p == (a as int) * (k as int),
    ;
    vstd::arithmetic::div_mod::lemma_div_pos_is_pos(p, 65536);
    vstd::arithmetic::div_mod::lemma_fundamental_div_mod(p, 65536);
    vstd::arithmetic::div_mod::lemma_mod_bound(p, 65536);
    vstd::arithmetic::div_mod::lemma_div_is_ordered(p, 0x7ffffffffffffff, 65536);
    lemma_neg_div(p, 65536);
}

/// A product with a factor in `[0, 1]` lies between zero and the other
/// operand, on either side of zero.
pub proof fn lemma_fx_mul_fraction(spin: i64, m: i64)
    requires
        0 <= spin <= 65536,
    ensures
        m >= 0 ==> 0 <= fx_mul(spin, m) <= m,
        m < 0 ==> m <= fx_mul(spin, m) <= 0,
{
    let p = (spin as int) * (m as int);
    if m >= 0 {
        assert(0 <= p <= 65536 * (m as int)) by (nonlinear_arith)
            requires
                0 <= spin as int <= 65536,
                m as int >= 0,
                p == (spin as int) * (m as int),
        ;
        vstd::arithmetic::div_mod::lemma_div_pos_is_pos(p, 65536);
        vstd::arithmetic::div_mod::lemma_div_is_ordered(p, 65536 * (m as int), 65536);
        vstd::arithmetic::div_mod::lemma_div_multiples_vanish(m as int, 65536);
    } else {
        assert(65536 * (m as int) <= p <= 0) by (nonlinear_arith)
            requires
                0 <= spin as int <= 65536,
                (m as int) < 0,
                p == (spin as int) * (m as int),
        ;
        vstd::arithmetic::div_mod::lemma_div_is_ordered(65536 * (m as int), p, 65536);
        vstd::arithmetic::div_mod::lemma_div_is_ordered(p, 0, 65536);
        vstd::arithmetic::div_mod::lemma_div_multiples_vanish(m as int, 65536);
    }
}

/// The value of a saturating product of an integer count and a
/// fixed-point value.
#[verifier::allow_in_spec]
pub fn fx_scale(n: i64, d: Fx) -> Fx
    returns
        (sat(n * d) as i64),
{
    proof {
        lemma_i64_product_in_i128(n as int, d as int);
    }
    let p: i128 = (n as i128) * (d as i128);
    clip(p)
}

/// The fixed-point square root of a representable value is nonnegative and
/// comfortably inside the representable range.
pub proof fn lemma_fx_sqrt_range(a: int)
    requires
        a <= FX_MAX as int,
    ensures
        0 <= fx_sqrt_spec(a) <= 1099511627776,
{
    if a > 0 {
        let n = (a * FX_ONE) as nat;
        lemma_sqrt_nat(n);
        let s = sqrt_nat(n);
        assert(s <= 1099511627776) by (nonlinear_arith)
            requires
                s * s <= n,
                n <= (9223372036854775807 as int) * 65536,
        ;
    }
}

/// The quarter-wave sine: maps `u` in `[0, 16384]` (a quarter turn) to
/// `sin` in `[0, 65536]`, by a rational approximation that is exact at
/// `0`, at the eighth of a turn and at the quarter turn.
pub open spec fn quarter_sin_spec(u: int) -> int {
    if u == FX_EIGHTH as int {
        FX_SQRT_HALF as int
    } else {
        (65536 * 16 * u * (32768 - u)) / (5 * 32768 * 32768 - 4 * u * (32768 - u))
    }
}

fn quarter_sin(u: i64) -> (r: i64)
    requires
        0 <= u <= 16384,
    ensures
        r == quarter_sin_spec(u as int),
        0 <= r <= 65536,
{
    proof {
        lemma_quarter_sin_bounds(u as int);
    }
    if u == 8192 {
        FX_SQRT_HALF
    } else {
        proof {
            assert(0 <= (u as int) * (32768 - u as int) <= 268435456) by (nonlinear_arith)
                requires 0 <= u as int <= 16384;
        }
        let w: i64 = u * (32768 - u);
        let num: i64 = 1048576 * w;
        let den: i64 = 5368709120 - 4 * w;
        assert(den >= 4294967296);
        proof {
            assert(num == 65536 * 16 * (u as int) * (32768 - u as int)
                && den == 5 * 32768 * 32768 - 4 * (u as int) * (32768 - u as int))
                by (nonlinear_arith)
                requires
                    w == (u as int) * (32768 - u as int),
                    num == 1048576 * (w as int),
                    den == 5368709120 - 4 * (w as int),
            ;
        }
        num / den
    }
}

/// The fixed-point sine of an angle in turn units (65536 raw = one turn),
/// reduced modulo a turn and folded by quarter-wave symmetry.
pub open spec fn fx_sin_spec(t: int) -> int {
    let r = t - 65536 * floor_div(t, 65536);
    let q = r / 16384;
    let u = r % 16384;
    if q == 0 {
        quarter_sin_spec(u)
    } else if q == 1 {
        quarter_sin_spec(16384 - u)
    } else if q == 2 {
        -quarter_sin_spec(u)
    } else {
        -quarter_sin_spec(16384 - u)
    }
}

/// The angle reduced to one turn: `t` minus a whole number of turns,
/// always in `[0, 65536)`.
pub fn fx_mod_turn(t: Fx) -> (r: i64)
    ensures
        r == t as int - 65536 * floor_div(t as int, 65536),
        0 <= r < 65536,
{
    proof {
        lemma_fundamental_div_mod(t as int, 65536);
        lemma_mod_bound(t as int, 65536);
        if t < 0 {
            lemma_neg_div(-(t as int), 65536);
            lemma_fundamental_div_mod(-(t as int), 65536);
            lemma_mod_bound(-(t as int), 65536);
        }
    }
    let m: i64 = t % 65536;
    if m < 0 {
        m + 65536
    } else {
        m
    }
}

/// Fixed-point sine over turn-unit angles. Total and exact at every
/// multiple of an eighth of a turn.
#[verifier::allow_in_spec]
pub fn fx_sin(t: Fx) -> Fx
    returns
        (fx_sin_spec(t as int) as i64),
{
    let r: i64 = fx_mod_turn(t);
    let q: i64 = r / 16384;
    let u: i64 = r % 16384;
    if q == 0 {
        quarter_sin(u)
    } else if q == 1 {
        quarter_sin(16384 - u)
    } else if q == 2 {
        let s: i64 = quarter_sin(u);
        -s
    } else {
        let s: i64 = quarter_sin(16384 - u);
        -s
    }
}

/// The fixed-point cosine: the sine shifted by a quarter turn.
pub open spec fn fx_cos_spec(t: int) -> int {
    fx_sin_spec(sat(t + FX_QUARTER as int))
}

/// Fixed-point cosine over turn-unit angles.
#[verifier::allow_in_spec]
pub fn fx_cos(t: Fx) -> Fx
    returns
        (fx_cos_spec(t as int) as i64),
{
    fx_sin(fx_add(t, FX_QUARTER))
}

proof fn lemma_quarter_sin_bounds(u: int)
    ensures
        0 <= u <= 16384 ==> 0 <= quarter_sin_spec(u) <= 65536,
{
    if 0 <= u <= 16384 && u != 8192 {
        let w = u * (32768 - u);
        let num = 65536 * 16 * u * (32768 - u);
        let den = 5 * 32768 * 32768 - 4 * u * (32768 - u);
        assert(0 <= w <= 268435456 && num == 1048576 * w && den == 5368709120 - 4 * w)
            by (nonlinear_arith)
            requires
                0 <= u <= 16384,
                w == u * (32768 - u),
                num == 65536 * 16 * u * (32768 - u),
                den == 5 * 32768 * 32768 - 4 * u * (32768 - u),
        ;
        assert(num >= 0);
        assert(den >= 4294967296);
        assert(num <= 65536 * den) by (nonlinear_arith)
            requires
                num == 1048576 * w,
                den == 5368709120 - 4 * w,
                0 <= w <= 268435456,
        ;
        vstd::arithmetic::div_mod::lemma_div_is_ordered(num, 65536 * den, den);
        assert(65536 * den / den == 65536) by {
            vstd::arithmetic::div_mod::lemma_div_multiples_vanish(65536, den);
        }
        assert(num / den >= 0) by {
            vstd::arithmetic::div_mod::lemma_div_pos_is_pos(num, den);
        }
    }
}

} // verus!
