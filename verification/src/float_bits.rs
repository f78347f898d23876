//! IEEE 754 predicates on the bit patterns of `f32` and `f64` values.
//!
//! Points carry floating-point values as their raw bit patterns; the
//! predicates here are what the task functions need to read from them.
use vstd::prelude::*;
use vstd::arithmetic::power2::{pow2, lemma_pow2_strictly_increases, lemma2_to64};
use vstd::bits::{lemma_u64_shl_is_mul, lemma_u64_shr_is_div};

verus! {

/// Bit pattern of `1.0f32`.
pub const F32_ONE: u32 = 0x3f80_0000u32;

/// Bit pattern of `1.0f64`.
pub const F64_ONE: u64 = 0x3ff0_0000_0000_0000u64;

/// `true` when the `f32` with bits `b` is a NaN.
pub open spec fn f32_nan(b: u32) -> bool {
    (b & 0x7f80_0000u32) == 0x7f80_0000u32 && (b & 0x007f_ffffu32) != 0
}

/// `true` when the `f32` with bits `b` is `+0.0` or `-0.0`.
pub open spec fn f32_zero(b: u32) -> bool {
    (b & 0x7fff_ffffu32) == 0
}

/// `true` when the `f32` with bits `b` is strictly greater than zero.
pub open spec fn f32_positive(b: u32) -> bool {
    !f32_nan(b) && !f32_zero(b) && (b & 0x8000_0000u32) == 0
}

/// IEEE equality of two `f32` values given by their bits.
pub open spec fn f32_same(a: u32, b: u32) -> bool {
    !f32_nan(a) && !f32_nan(b) && (a == b || (f32_zero(a) && f32_zero(b)))
}

/// `true` when the `f64` with bits `b` is a NaN.
pub open spec fn f64_nan(b: u64) -> bool {
    (b & 0x7ff0_0000_0000_0000u64) == 0x7ff0_0000_0000_0000u64 && (b & 0x000f_ffff_ffff_ffffu64) != 0
}

/// `true` when the `f64` with bits `b` is `+0.0` or `-0.0`.
pub open spec fn f64_zero(b: u64) -> bool {
    (b & 0x7fff_ffff_ffff_ffffu64) == 0
}

/// `true` when the `f64` with bits `b` is strictly greater than zero.
pub open spec fn f64_positive(b: u64) -> bool {
    !f64_nan(b) && !f64_zero(b) && (b & 0x8000_0000_0000_0000u64) == 0
}

/// IEEE equality of two `f64` values given by their bits.
pub open spec fn f64_same(a: u64, b: u64) -> bool {
    !f64_nan(a) && !f64_nan(b) && (a == b || (f64_zero(a) && f64_zero(b)))
}

/// `true` when the `f32` with bits `b` is neither infinite nor NaN.
pub open spec fn f32_finite(b: u32) -> bool {
    (b & 0x7f80_0000u32) != 0x7f80_0000u32
}

/// `true` when the `f64` with bits `b` is neither infinite nor NaN.
pub open spec fn f64_finite(b: u64) -> bool {
    (b & 0x7ff0_0000_0000_0000u64) != 0x7ff0_0000_0000_0000u64
}

/// Returns `true` if the `f32` with bits `b` is neither infinite nor NaN.
pub fn f32_is_finite(b: u32) -> (r: bool)
    ensures
        r == f32_finite(b),
{
    (b & 0x7f80_0000u32) != 0x7f80_0000u32
}

/// Returns `true` if the `f64` with bits `b` is neither infinite nor NaN.
pub fn f64_is_finite(b: u64) -> (r: bool)
    ensures
        r == f64_finite(b),
{
    (b & 0x7ff0_0000_0000_0000u64) != 0x7ff0_0000_0000_0000u64
}

/// `a > b` for two `f64` values, given by their bits, that are not NaN:
/// `+0.0` and `-0.0` are equal, a positive value is greater than a negative one,
/// magnitudes order values of the same sign.
pub open spec fn f64_greater(a: u64, b: u64) -> bool {
    let sa = (a >> 63u64) == 1;
    let sb = (b >> 63u64) == 1;
    let ma = a & 0x7fff_ffff_ffff_ffffu64;
    let mb = b & 0x7fff_ffff_ffff_ffffu64;
    if ma == 0 && mb == 0 {
        false
    } else if !sa && sb {
        true
    } else if sa && !sb {
        false
    } else if !sa {
        ma > mb
    } else {
        ma < mb
    }
}

/// Returns `a > b` for two `f64` values, given by their bits, that are not NaN.
pub fn f64_gt(a: u64, b: u64) -> (r: bool)
    ensures
        r == f64_greater(a, b),
{
    let sa = (a >> 63u64) == 1;
    let sb = (b >> 63u64) == 1;
    let ma = a & 0x7fff_ffff_ffff_ffffu64;
    let mb = b & 0x7fff_ffff_ffff_ffffu64;
    if ma == 0 && mb == 0 {
        false
    } else if !sa && sb {
        true
    } else if sa && !sb {
        false
    } else if !sa {
        ma > mb
    } else {
        ma < mb
    }
}

/// Returns `true` if the `f32` with bits `b` is a NaN.
pub fn f32_is_nan(b: u32) -> (r: bool)
    ensures
        r == f32_nan(b),
{
    (b & 0x7f80_0000u32) == 0x7f80_0000u32 && (b & 0x007f_ffffu32) != 0
}

/// Returns `true` if the `f32` with bits `b` is greater than zero.
pub fn f32_is_positive(b: u32) -> (r: bool)
    ensures
        r == f32_positive(b),
{
    !f32_is_nan(b) && (b & 0x7fff_ffffu32) != 0 && (b & 0x8000_0000u32) == 0
}

/// IEEE `==` on two `f32` values given by their bits.
pub fn f32_eq(a: u32, b: u32) -> (r: bool)
    ensures
        r == f32_same(a, b),
{
    !f32_is_nan(a) && !f32_is_nan(b) && (a == b || ((a & 0x7fff_ffffu32) == 0 && (b & 0x7fff_ffffu32) == 0))
}

/// Returns `true` if the `f64` with bits `b` is a NaN.
pub fn f64_is_nan(b: u64) -> (r: bool)
    ensures
        r == f64_nan(b),
{
    (b & 0x7ff0_0000_0000_0000u64) == 0x7ff0_0000_0000_0000u64 && (b & 0x000f_ffff_ffff_ffffu64) != 0
}

/// Returns `true` if the `f64` with bits `b` is greater than zero.
pub fn f64_is_positive(b: u64) -> (r: bool)
    ensures
        r == f64_positive(b),
{
    !f64_is_nan(b) && (b & 0x7fff_ffff_ffff_ffffu64) != 0 && (b & 0x8000_0000_0000_0000u64) == 0
}

/// IEEE `==` on two `f64` values given by their bits.
pub fn f64_eq(a: u64, b: u64) -> (r: bool)
    ensures
        r == f64_same(a, b),
{
    !f64_is_nan(a) && !f64_is_nan(b) && (a == b || ((a & 0x7fff_ffff_ffff_ffffu64) == 0 && (b & 0x7fff_ffff_ffff_ffffu64) == 0))
}

/// The magnitude `full * 2^(e - bias)` rounded to the nearest integer, halves
/// away from zero; `bias` is the exponent at which the significand `full` is an integer.
pub open spec fn scaled_round(full: int, e: int, bias: int) -> int {
    if e >= bias {
        full * pow2((e - bias) as nat)
    } else {
        (full + pow2((bias - e - 1) as nat)) / (pow2((bias - e) as nat) as int)
    }
}

/// `x.round() as i64` for the `f64` value `x` with bits `b`: rounded to the
/// nearest integer, halves away from zero, saturating at the bounds of `i64`,
/// `0` for a NaN.
pub open spec fn f64_round(b: u64) -> i64 {
    let e = ((b >> 52u64) & 0x7ffu64) as int;
    let m = (b & 0x000f_ffff_ffff_ffffu64) as int;
    let neg = (b >> 63u64) == 1;
    if e == 0x7ff && m != 0 {
        0
    } else if e >= 1086 {
        if neg { i64::MIN } else { i64::MAX }
    } else if e < 1022 {
        0
    } else {
        let mag = scaled_round(m + pow2(52), e, 1075);
        (if neg { -mag } else { mag }) as i64
    }
}

/// `x.round() as i64` for the `f32` value `x` with bits `b`: rounded to the
/// nearest integer, halves away from zero, saturating at the bounds of `i64`,
/// `0` for a NaN.
pub open spec fn f32_round(b: u32) -> i64 {
    let e = ((b >> 23u32) & 0xffu32) as int;
    let m = (b & 0x007f_ffffu32) as int;
    let neg = (b >> 31u32) == 1;
    if e == 0xff && m != 0 {
        0
    } else if e >= 190 {
        if neg { i64::MIN } else { i64::MAX }
    } else if e < 126 {
        0
    } else {
        let mag = scaled_round(m + pow2(23), e, 150);
        (if neg { -mag } else { mag }) as i64
    }
}

proof fn lemma_pow2_le(s: nat, k: nat)
    requires
        s <= k,
    ensures
        pow2(s) <= pow2(k),
{
    if s < k {
        lemma_pow2_strictly_increases(s, k);
    }
}

/// The magnitude of a float with significand `full` (`2^p <= full < 2^(p+1)`)
/// and exponent `e`, integer at `bias`, rounded; `e` at least `bias - p - 1`
/// and less than `bias + 63 - p`.
fn round_magnitude(full: u64, e: u64, bias: u64, p: u64) -> (r: u64)
    requires
        p == 52 || p == 23,
        p == 52 ==> bias == 1075,
        p == 23 ==> bias == 150,
        pow2(p as nat) <= full < pow2((p + 1) as nat),
        bias - p - 1 <= e < bias + 63 - p,
    ensures
        r == scaled_round(full as int, e as int, bias as int),
        r < 0x8000_0000_0000_0000u64,
{
    proof {
        lemma2_to64();
        vstd::arithmetic::power2::lemma2_to64_rest();
    }
    if e >= bias {
        let s: u64 = e - bias;
        proof {
            lemma_pow2_le(s as nat, (62 - p) as nat);
            lemma_pow2_le((p + 1) as nat, 53);
            vstd::arithmetic::power2::lemma_pow2_adds((p + 1) as nat, (62 - p) as nat);
            assert(full * pow2(s as nat) < pow2((p + 1) as nat) * pow2((62 - p) as nat)) by (nonlinear_arith)
                requires
                    full < pow2((p + 1) as nat),
                    pow2(s as nat) <= pow2((62 - p) as nat),
                    0 < pow2(s as nat),
            ;
            vstd::arithmetic::power2::lemma_pow2_pos(s as nat);
            assert(full * pow2(s as nat) <= u64::MAX) by (nonlinear_arith)
                requires
                    full * pow2(s as nat) < 0x8000_0000_0000_0000u64,
            ;
            lemma_u64_shl_is_mul(full, s);
        }
        full << s
    } else {
        let s: u64 = bias - e;
        let h: u64 = s - 1;
        proof {
            lemma_pow2_le(h as nat, p as nat);
            lemma_u64_shl_is_mul(1, h);
            lemma_pow2_le((p + 1) as nat, 53);
        }
        let half: u64 = 1u64 << h;
        let sum: u64 = full + half;
        proof {
            lemma_u64_shr_is_div(sum, s);
            vstd::arithmetic::power2::lemma_pow2_pos(s as nat);
            vstd::arithmetic::div_mod::lemma_div_is_ordered_by_denominator(sum as int, 1, pow2(s as nat) as int);
        }
        sum >> s
    }
}

/// Returns `x.round() as i64` for the `f64` value `x` with bits `b`.
pub fn f64_round_to_i64(b: u64) -> (r: i64)
    ensures
        r == f64_round(b),
{
    let e: u64 = (b >> 52u64) & 0x7ffu64;
    let m: u64 = b & 0x000f_ffff_ffff_ffffu64;
    let neg: bool = (b >> 63u64) == 1;
    if e == 0x7ff && m != 0 {
        return 0;
    }
    if e >= 1086 {
        return if neg { i64::MIN } else { i64::MAX };
    }
    if e < 1022 {
        return 0;
    }
    assert(m < 0x0010_0000_0000_0000u64) by (bit_vector)
        requires
            m == b & 0x000f_ffff_ffff_ffffu64,
    ;
    proof {
        lemma2_to64();
        vstd::arithmetic::power2::lemma2_to64_rest();
    }
    let full: u64 = m + 0x0010_0000_0000_0000u64;
    assert(full as int == m as int + pow2(52));
    let mag = round_magnitude(full, e, 1075, 52);
    if neg { -(mag as i64) } else { mag as i64 }
}

/// Returns `x.round() as i64` for the `f32` value `x` with bits `b`.
pub fn f32_round_to_i64(b: u32) -> (r: i64)
    ensures
        r == f32_round(b),
{
    let e: u32 = (b >> 23u32) & 0xffu32;
    let m: u32 = b & 0x007f_ffffu32;
    let neg: bool = (b >> 31u32) == 1;
    if e == 0xff && m != 0 {
        return 0;
    }
    if e >= 190 {
        return if neg { i64::MIN } else { i64::MAX };
    }
    if e < 126 {
        return 0;
    }
    assert(m < 0x0080_0000u32) by (bit_vector)
        requires
            m == b & 0x007f_ffffu32,
    ;
    proof {
        lemma2_to64();
        vstd::arithmetic::power2::lemma2_to64_rest();
    }
    let full: u64 = m as u64 + 0x0080_0000u64;
    assert(full as int == m as int + pow2(23));
    let mag = round_magnitude(full, e as u64, 150, 23);
    if neg { -(mag as i64) } else { mag as i64 }
}

/// The magnitude of the finite `f64` with bits `b`, in units of `2^-1074`
/// (the smallest subnormal): every finite `f64` is a whole number of them.
pub open spec fn f64_magnitude(b: u64) -> int {
    let e = ((b >> 52u64) & 0x7ffu64) as nat;
    let m = (b & 0x000f_ffff_ffff_ffffu64) as int;
    if e == 0 { m } else { (m + pow2(52)) * pow2((e - 1) as nat) }
}

/// The finite `f64` with bits `b`, in units of `2^-1074`.
pub open spec fn f64_units(b: u64) -> int {
    if (b >> 63u64) == 1 { -f64_magnitude(b) } else { f64_magnitude(b) }
}

/// `(a - b).abs() <= f64::MIN_POSITIVE` in `f64` arithmetic, for the values
/// with bits `a` and `b`: both are finite and they differ by at most `2^-1022`,
/// that is `2^52` units. A difference of at most `2^52` units is itself an
/// `f64`, so rounding keeps it; a larger one is at least `2^52 + 1` units, an
/// `f64` too, and rounds to no less; an infinite operand makes the difference
/// infinite or NaN.
pub open spec fn f64_close(a: u64, b: u64) -> bool {
    &&& f64_finite(a)
    &&& f64_finite(b)
    &&& -pow2(52) <= f64_units(a) - f64_units(b) <= pow2(52)
}

proof fn lemma_fields(x: u64)
    ensures
        (x >> 52u64) & 0x7ffu64 == ((x & 0x7fff_ffff_ffff_ffffu64) >> 52u64),
        x & 0x000f_ffff_ffff_ffffu64 == (x & 0x7fff_ffff_ffff_ffffu64) & 0x000f_ffff_ffff_ffffu64,
        (x & 0x7fff_ffff_ffff_ffffu64) == ((x & 0x7fff_ffff_ffff_ffffu64) >> 52u64) * 0x10_0000_0000_0000u64
            + (x & 0x000f_ffff_ffff_ffffu64),
        (x & 0x7fff_ffff_ffff_ffffu64) >> 52u64 <= 0x7ffu64,
        (x & 0x000f_ffff_ffff_ffffu64) < 0x10_0000_0000_0000u64,
{
    assert((x >> 52u64) & 0x7ffu64 == ((x & 0x7fff_ffff_ffff_ffffu64) >> 52u64)) by (bit_vector);
    assert(x & 0x000f_ffff_ffff_ffffu64 == (x & 0x7fff_ffff_ffff_ffffu64) & 0x000f_ffff_ffff_ffffu64) by (bit_vector);
    assert((x & 0x7fff_ffff_ffff_ffffu64) == ((x & 0x7fff_ffff_ffff_ffffu64) >> 52u64) * 0x10_0000_0000_0000u64
        + (x & 0x000f_ffff_ffff_ffffu64)) by (bit_vector);
    assert((x & 0x7fff_ffff_ffff_ffffu64) >> 52u64 <= 0x7ffu64) by (bit_vector);
    assert((x & 0x000f_ffff_ffff_ffffu64) < 0x10_0000_0000_0000u64) by (bit_vector);
}

proof fn lemma_scale_le(x: int, y: int, p: int)
    requires
        p > 0,
    ensures
        x * p <= y * p <==> x <= y,
{
    assert(x <= y ==> x * p <= y * p) by (nonlinear_arith)
        requires
            p > 0,
    ;
    assert(x * p <= y * p ==> x <= y) by (nonlinear_arith)
        requires
            p > 0,
    ;
}

proof fn lemma_low_magnitude(x: u64)
    requires
        x >> 52u64 <= 1,
    ensures
        f64_magnitude(x) == x,
{
    lemma2_to64();
    vstd::arithmetic::power2::lemma2_to64_rest();
    let e = (x >> 52u64) & 0x7ffu64;
    let m = x & 0x000f_ffff_ffff_ffffu64;
    assert(e == x >> 52u64) by (bit_vector)
        requires x >> 52u64 <= 1, e == (x >> 52u64) & 0x7ffu64;
    assert(x == e * 0x10_0000_0000_0000u64 + m) by (bit_vector)
        requires x >> 52u64 <= 1, e == (x >> 52u64) & 0x7ffu64, m == x & 0x000f_ffff_ffff_ffffu64;
    if e == 0 {
        assert(f64_magnitude(x) == m);
    } else {
        assert(e == 1);
        assert(pow2(0) == 1);
        assert(f64_magnitude(x) == (m + pow2(52)) * pow2(0));
    }
}

/// Returns whether two magnitudes of finite `f64` values, given by their bits
/// without the sign, `lo <= hi`, differ by at most `2^52` units.
fn magnitudes_close(lo: u64, hi: u64) -> (r: bool)
    requires
        lo <= hi,
        hi < 0x7ff0_0000_0000_0000u64,
    ensures
        f64_magnitude(lo) <= f64_magnitude(hi),
        r == (f64_magnitude(hi) - f64_magnitude(lo) <= pow2(52)),
{
    proof {
        lemma_fields(lo);
        lemma_fields(hi);
        lemma2_to64();
        vstd::arithmetic::power2::lemma2_to64_rest();
        assert(lo & 0x7fff_ffff_ffff_ffffu64 == lo) by (bit_vector)
            requires lo <= hi, hi < 0x7ff0_0000_0000_0000u64;
        assert(hi & 0x7fff_ffff_ffff_ffffu64 == hi) by (bit_vector)
            requires hi < 0x7ff0_0000_0000_0000u64;
    }
    let e_hi: u64 = hi >> 52u64;
    let e_lo: u64 = lo >> 52u64;
    let m_hi: u64 = hi & 0x000f_ffff_ffff_ffffu64;
    let m_lo: u64 = lo & 0x000f_ffff_ffff_ffffu64;
    let ghost p52: int = pow2(52) as int;
    assert(p52 == 0x10_0000_0000_0000);
    assert(e_lo <= e_hi) by (bit_vector)
        requires lo <= hi, e_hi == hi >> 52u64, e_lo == lo >> 52u64;
    assert(e_hi < 0x7ff) by (bit_vector)
        requires hi < 0x7ff0_0000_0000_0000u64, e_hi == hi >> 52u64;
    if e_hi <= 1 {
        proof {
            lemma_low_magnitude(hi);
            lemma_low_magnitude(lo);
        }
        hi - lo <= 0x10_0000_0000_0000u64
    } else if e_lo + 2 <= e_hi {
        proof {
            let big = pow2((e_hi - 2) as nat);
            vstd::arithmetic::power2::lemma_pow2_pos((e_hi - 2) as nat);
            assert(pow2((e_hi - 1) as nat) == 2 * big) by {
                vstd::arithmetic::power2::lemma_pow2_unfold((e_hi - 1) as nat);
            }
            assert(f64_magnitude(hi) >= p52 * (2 * big)) by (nonlinear_arith)
                requires
                    f64_magnitude(hi) == (m_hi + p52) * (2 * big),
                    m_hi >= 0,
                    big > 0,
            ;
            if e_lo == 0 {
                assert(f64_magnitude(lo) < p52);
                assert(p52 * (2 * big) >= 2 * p52) by (nonlinear_arith)
                    requires big >= 1, p52 > 0;
            } else {
                let small = pow2((e_lo - 1) as nat);
                vstd::arithmetic::power2::lemma_pow2_pos((e_lo - 1) as nat);
                lemma_pow2_le((e_lo - 1) as nat, (e_hi - 3) as nat);
                assert(pow2((e_hi - 2) as nat) == 2 * pow2((e_hi - 3) as nat)) by {
                    vstd::arithmetic::power2::lemma_pow2_unfold((e_hi - 2) as nat);
                }
                assert(f64_magnitude(lo) < 2 * p52 * small) by (nonlinear_arith)
                    requires
                        f64_magnitude(lo) == (m_lo + p52) * small,
                        m_lo < p52,
                        small > 0,
                ;
                vstd::arithmetic::power2::lemma_pow2_pos((e_lo - 1) as nat);
                assert(2 * p52 * small <= p52 * big) by (nonlinear_arith)
                    requires
                        2 * small <= big,
                        p52 > 0,
                ;
                assert(p52 * (2 * big) - p52 * big >= p52) by (nonlinear_arith)
                    requires big >= 1, p52 > 0;
            }
        }
        false
    } else if e_lo == e_hi {
        let ghost unit = pow2((e_hi - 1) as nat);
        proof {
            vstd::arithmetic::power2::lemma_pow2_pos((e_hi - 1) as nat);
            assert(m_lo <= m_hi) by (bit_vector)
                requires lo <= hi, e_hi == hi >> 52u64, e_lo == lo >> 52u64, e_lo == e_hi,
                    m_hi == hi & 0x000f_ffff_ffff_ffffu64, m_lo == lo & 0x000f_ffff_ffff_ffffu64;
            assert(f64_magnitude(hi) - f64_magnitude(lo) == (m_hi - m_lo) * unit) by (nonlinear_arith)
                requires
                    f64_magnitude(hi) == (m_hi + p52) * unit,
                    f64_magnitude(lo) == (m_lo + p52) * unit,
            ;
            assert((m_hi - m_lo) * unit >= 0) by (nonlinear_arith)
                requires m_hi >= m_lo, unit > 0;
        }
        if e_hi <= 53 {
            let k: u64 = 53 - e_hi;
            proof {
                vstd::arithmetic::power2::lemma_pow2_adds(k as nat, (e_hi - 1) as nat);
                lemma_pow2_le(k as nat, 51);
                lemma_u64_shl_is_mul(1, k);
                lemma_scale_le(m_hi - m_lo, pow2(k as nat) as int, unit as int);
            }
            m_hi - m_lo <= (1u64 << k)
        } else {
            proof {
                lemma_pow2_le(53, (e_hi - 1) as nat);
                if m_hi != m_lo {
                    assert((m_hi - m_lo) * unit >= unit) by (nonlinear_arith)
                        requires m_hi - m_lo >= 1, unit > 0;
                }
            }
            m_hi == m_lo
        }
    } else {
        let ghost unit = pow2((e_hi - 2) as nat);
        let k_val: u64 = 0x10_0000_0000_0000u64 + 2 * m_hi - m_lo;
        proof {
            vstd::arithmetic::power2::lemma_pow2_pos((e_hi - 2) as nat);
            assert(pow2((e_hi - 1) as nat) == 2 * unit) by {
                vstd::arithmetic::power2::lemma_pow2_unfold((e_hi - 1) as nat);
            }
            assert(e_lo == e_hi - 1);
            assert(f64_magnitude(hi) - f64_magnitude(lo) == k_val * unit) by (nonlinear_arith)
                requires
                    f64_magnitude(hi) == (m_hi + p52) * (2 * unit),
                    f64_magnitude(lo) == (m_lo + p52) * unit,
                    k_val == p52 + 2 * m_hi - m_lo,
            ;
            assert(k_val * unit >= 0) by (nonlinear_arith)
                requires k_val >= 0, unit > 0;
        }
        if e_hi <= 54 {
            let k: u64 = 54 - e_hi;
            proof {
                vstd::arithmetic::power2::lemma_pow2_adds(k as nat, (e_hi - 2) as nat);
                lemma_pow2_le(k as nat, 52);
                lemma_u64_shl_is_mul(1, k);
                lemma_scale_le(k_val as int, pow2(k as nat) as int, unit as int);
            }
            k_val <= (1u64 << k)
        } else {
            proof {
                lemma_pow2_le(53, (e_hi - 2) as nat);
                assert(k_val * unit >= unit) by (nonlinear_arith)
                    requires k_val >= 1, unit > 0;
            }
            false
        }
    }
}

/// Returns `(a - b).abs() <= f64::MIN_POSITIVE` for the `f64` values with bits `a` and `b`.
pub fn f64_is_close(a: u64, b: u64) -> (r: bool)
    ensures
        r == f64_close(a, b),
{
    if !f64_is_finite(a) || !f64_is_finite(b) {
        return false;
    }
    let abs_a: u64 = a & 0x7fff_ffff_ffff_ffffu64;
    let abs_b: u64 = b & 0x7fff_ffff_ffff_ffffu64;
    proof {
        lemma_fields(a);
        lemma_fields(b);
        lemma_fields(abs_a);
        lemma_fields(abs_b);
        lemma2_to64();
        vstd::arithmetic::power2::lemma2_to64_rest();
        assert(abs_a < 0x7ff0_0000_0000_0000u64) by (bit_vector)
            requires abs_a == a & 0x7fff_ffff_ffff_ffffu64,
                (a & 0x7ff0_0000_0000_0000u64) != 0x7ff0_0000_0000_0000u64;
        assert(abs_b < 0x7ff0_0000_0000_0000u64) by (bit_vector)
            requires abs_b == b & 0x7fff_ffff_ffff_ffffu64,
                (b & 0x7ff0_0000_0000_0000u64) != 0x7ff0_0000_0000_0000u64;
        assert(abs_a & 0x7fff_ffff_ffff_ffffu64 == abs_a) by (bit_vector)
            requires abs_a == a & 0x7fff_ffff_ffff_ffffu64;
        assert(abs_b & 0x7fff_ffff_ffff_ffffu64 == abs_b) by (bit_vector)
            requires abs_b == b & 0x7fff_ffff_ffff_ffffu64;
        assert(f64_magnitude(abs_a) == f64_magnitude(a));
        assert(f64_magnitude(abs_b) == f64_magnitude(b));
        vstd::arithmetic::power2::lemma_pow2_pos(52);
        assert(f64_magnitude(a) >= 0) by (nonlinear_arith)
            requires
                f64_magnitude(a) == (if (a >> 52u64) & 0x7ffu64 == 0 { (a & 0x000f_ffff_ffff_ffffu64) as int }
                    else { ((a & 0x000f_ffff_ffff_ffffu64) + pow2(52)) * pow2((((a >> 52u64) & 0x7ffu64) - 1) as nat) }),
                pow2((((a >> 52u64) & 0x7ffu64) - 1) as nat) >= 0,
                pow2(52) > 0;
    }
    let neg_a: bool = (a >> 63u64) == 1;
    let neg_b: bool = (b >> 63u64) == 1;
    if neg_a != neg_b {
        let e_a: u64 = abs_a >> 52u64;
        let e_b: u64 = abs_b >> 52u64;
        if e_a <= 1 && e_b <= 1 {
            proof {
                lemma_low_magnitude(abs_a);
                lemma_low_magnitude(abs_b);
            }
            abs_a + abs_b <= 0x10_0000_0000_0000u64
        } else {
            proof {
                assert(f64_magnitude(b) >= 0) by (nonlinear_arith)
                    requires
                        f64_magnitude(b) == (if (b >> 52u64) & 0x7ffu64 == 0 { (b & 0x000f_ffff_ffff_ffffu64) as int }
                            else { ((b & 0x000f_ffff_ffff_ffffu64) + pow2(52)) * pow2((((b >> 52u64) & 0x7ffu64) - 1) as nat) }),
                        pow2((((b >> 52u64) & 0x7ffu64) - 1) as nat) >= 0,
                        pow2(52) > 0;
                if e_a > 1 {
                    lemma_pow2_le(1, (e_a - 1) as nat);
                    assert(f64_magnitude(a) >= 2 * pow2(52)) by (nonlinear_arith)
                        requires
                            f64_magnitude(a) == ((a & 0x000f_ffff_ffff_ffffu64) + pow2(52)) * pow2((e_a - 1) as nat),
                            pow2((e_a - 1) as nat) >= 2,
                            pow2(52) > 0;
                } else {
                    lemma_pow2_le(1, (e_b - 1) as nat);
                    assert(f64_magnitude(b) >= 2 * pow2(52)) by (nonlinear_arith)
                        requires
                            f64_magnitude(b) == ((b & 0x000f_ffff_ffff_ffffu64) + pow2(52)) * pow2((e_b - 1) as nat),
                            pow2((e_b - 1) as nat) >= 2,
                            pow2(52) > 0;
                }
            }
            false
        }
    } else if abs_a <= abs_b {
        magnitudes_close(abs_a, abs_b)
    } else {
        magnitudes_close(abs_b, abs_a)
    }
}

} // verus!
