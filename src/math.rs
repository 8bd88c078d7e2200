//! Checked integer arithmetic: every operation reports `MathOverflow` instead
//! of wrapping, truncating or dividing by zero.
use vstd::prelude::*;
use vstd::arithmetic::div_mod::{lemma_div_plus_one, lemma_div_is_ordered, lemma_div_nonincreasing};
use crate::error::CompError;

verus! {

/// `10^n`.
pub open spec fn pow10(n: nat) -> nat
    decreases n,
{
    if n == 0 {
        1
    } else {
        10 * pow10((n - 1) as nat)
    }
}

pub open spec fn fits_i32(v: int) -> bool {
    i32::MIN <= v <= i32::MAX
}

/// `v` as a `u64`, or `MathOverflow` when it is out of range.
pub open spec fn u64_result(v: int) -> Result<u64, CompError> {
    if 0 <= v <= u64::MAX {
        Ok(v as u64)
    } else {
        Err(CompError::MathOverflow)
    }
}

/// `v` as a `u128`, or `MathOverflow` when it is out of range.
pub open spec fn u128_result(v: int) -> Result<u128, CompError> {
    if 0 <= v <= u128::MAX {
        Ok(v as u128)
    } else {
        Err(CompError::MathOverflow)
    }
}

/// `v` as an `i32`, or `MathOverflow` when it is out of range.
pub open spec fn i32_result(v: int) -> Result<i32, CompError> {
    if fits_i32(v) {
        Ok(v as i32)
    } else {
        Err(CompError::MathOverflow)
    }
}

/// `v` as an `i64`, or `MathOverflow` when it is out of range.
pub open spec fn i64_result(v: int) -> Result<i64, CompError> {
    if i64::MIN <= v <= i64::MAX {
        Ok(v as i64)
    } else {
        Err(CompError::MathOverflow)
    }
}

/// `a / b` rounded up, for `b > 0` and `a >= 0`.
pub open spec fn ceil_div(a: int, b: int) -> int {
    (a + b - 1) / b
}

pub proof fn lemma_pow10_positive(n: nat)
    ensures
        pow10(n) >= 1,
    decreases n,
{
    if n > 0 {
        lemma_pow10_positive((n - 1) as nat);
    }
}

pub proof fn lemma_pow10_monotone(a: nat, b: nat)
    requires
        a <= b,
    ensures
        pow10(a) <= pow10(b),
    decreases b,
{
    if a < b {
        lemma_pow10_monotone(a, (b - 1) as nat);
        lemma_pow10_positive((b - 1) as nat);
    }
}

pub proof fn lemma_pow10_add(a: nat, b: nat)
    ensures
        pow10(a + b) == pow10(a) * pow10(b),
    decreases b,
{
    if b > 0 {
        let b1 = (b - 1) as nat;
        lemma_pow10_add(a, b1);
        assert(a + b == (a + b1) + 1);
        assert(pow10(a + b) == 10 * pow10(a + b1));
        assert(pow10(b) == 10 * pow10(b1));
        assert(pow10(a) * (10 * pow10(b1)) == 10 * (pow10(a) * pow10(b1))) by (nonlinear_arith);
    } else {
        assert(pow10(0) == 1);
        assert(a + b == a);
    }
}

/// The largest powers of ten that fit in 64 and 128 bits.
pub proof fn lemma_pow10_limits()
    ensures
        pow10(19) <= u64::MAX < pow10(20),
        pow10(38) <= u128::MAX < pow10(39),
{
    reveal_with_fuel(pow10, 11);
    assert(pow10(10) == 10000000000nat);
    assert(pow10(9) == 1000000000nat);
    assert(pow10(8) == 100000000nat);
    lemma_pow10_add(10, 9);
    lemma_pow10_add(10, 10);
    lemma_pow10_add(10, 8);
    assert(pow10(19) == 10000000000000000000nat);
    assert(pow10(20) == 100000000000000000000nat);
    assert(pow10(18) == 1000000000000000000nat);
    lemma_pow10_add(20, 19);
    lemma_pow10_add(20, 18);
    assert(pow10(39) == 1000000000000000000000000000000000000000nat);
    assert(pow10(38) == 100000000000000000000000000000000000000nat);
}

/// `pow10(n)` fits in a `u64` exactly when `n <= 19`, in a `u128` exactly when `n <= 38`.
pub proof fn lemma_pow10_fits(n: nat)
    ensures
        pow10(n) <= u64::MAX <==> n <= 19,
        pow10(n) <= u128::MAX <==> n <= 38,
{
    lemma_pow10_limits();
    if n <= 19 {
        lemma_pow10_monotone(n, 19);
    } else {
        lemma_pow10_monotone(20, n);
    }
    if n <= 38 {
        lemma_pow10_monotone(n, 38);
    } else {
        lemma_pow10_monotone(39, n);
    }
}

pub proof fn lemma_mul_u64_fits_u128(a: u64, b: u64)
    ensures
        0 <= a * b <= u128::MAX,
{
    assert(0 <= a * b <= (u64::MAX as int) * (u64::MAX as int)) by (nonlinear_arith)
        requires
            0 <= a <= u64::MAX,
            0 <= b <= u64::MAX,
    ;
}

pub fn checked_add_u64(a: u64, b: u64) -> (r: Result<u64, CompError>)
    ensures
        r == u64_result(a + b),
{
    match a.checked_add(b) {
        Some(v) => Ok(v),
        None => Err(CompError::MathOverflow),
    }
}

pub fn checked_sub_u64(a: u64, b: u64) -> (r: Result<u64, CompError>)
    ensures
        r == u64_result(a - b),
{
    match a.checked_sub(b) {
        Some(v) => Ok(v),
        None => Err(CompError::MathOverflow),
    }
}

pub fn checked_mul_u64(a: u64, b: u64) -> (r: Result<u64, CompError>)
    ensures
        r == u64_result(a * b),
{
    match a.checked_mul(b) {
        Some(v) => Ok(v),
        None => Err(CompError::MathOverflow),
    }
}

pub fn checked_div_u64(a: u64, b: u64) -> (r: Result<u64, CompError>)
    ensures
        r == (if b == 0 {
            Err(CompError::MathOverflow)
        } else {
            Ok((a / b) as u64)
        }),
{
    if b == 0 {
        Err(CompError::MathOverflow)
    } else {
        Ok(a / b)
    }
}

pub fn checked_add_u128(a: u128, b: u128) -> (r: Result<u128, CompError>)
    ensures
        r == u128_result(a + b),
{
    match a.checked_add(b) {
        Some(v) => Ok(v),
        None => Err(CompError::MathOverflow),
    }
}

pub fn checked_sub_u128(a: u128, b: u128) -> (r: Result<u128, CompError>)
    ensures
        r == u128_result(a - b),
{
    match a.checked_sub(b) {
        Some(v) => Ok(v),
        None => Err(CompError::MathOverflow),
    }
}

pub fn checked_mul_u128(a: u128, b: u128) -> (r: Result<u128, CompError>)
    ensures
        r == u128_result(a * b),
{
    match a.checked_mul(b) {
        Some(v) => Ok(v),
        None => Err(CompError::MathOverflow),
    }
}

pub fn checked_div_u128(a: u128, b: u128) -> (r: Result<u128, CompError>)
    ensures
        r == (if b == 0 {
            Err(CompError::MathOverflow)
        } else {
            Ok((a / b) as u128)
        }),
{
    if b == 0 {
        Err(CompError::MathOverflow)
    } else {
        Ok(a / b)
    }
}

/// `a / b` rounded up; dividing by zero fails.
pub fn checked_ceil_div_u128(a: u128, b: u128) -> (r: Result<u128, CompError>)
    ensures
        r == (if b == 0 {
            Err(CompError::MathOverflow)
        } else {
            Ok(ceil_div(a as int, b as int) as u128)
        }),
        b != 0 ==> 0 <= ceil_div(a as int, b as int) <= a,
{
    if b == 0 {
        return Err(CompError::MathOverflow);
    }
    if a == 0 {
        assert((b - 1) as int / b as int == 0) by (nonlinear_arith)
            requires
                b > 0,
        ;
        return Ok(0);
    }
    let q = (a - 1) / b;
    proof {
        lemma_div_plus_one((a - 1) as int, b as int);
        lemma_div_nonincreasing((a - 1) as int, b as int);
    }
    Ok(q + 1)
}

pub fn checked_add_i32(a: i32, b: i32) -> (r: Result<i32, CompError>)
    ensures
        r == i32_result(a + b),
{
    match a.checked_add(b) {
        Some(v) => Ok(v),
        None => Err(CompError::MathOverflow),
    }
}

pub fn checked_sub_i32(a: i32, b: i32) -> (r: Result<i32, CompError>)
    ensures
        r == i32_result(a - b),
{
    match a.checked_sub(b) {
        Some(v) => Ok(v),
        None => Err(CompError::MathOverflow),
    }
}

pub fn checked_sub_i64(a: i64, b: i64) -> (r: Result<i64, CompError>)
    ensures
        r == i64_result(a - b),
{
    match a.checked_sub(b) {
        Some(v) => Ok(v),
        None => Err(CompError::MathOverflow),
    }
}

/// Narrows to 64 bits, failing rather than truncating.
pub fn checked_as_u64(a: u128) -> (r: Result<u64, CompError>)
    ensures
        r == u64_result(a as int),
{
    if a <= u64::MAX as u128 {
        Ok(a as u64)
    } else {
        Err(CompError::MathOverflow)
    }
}

/// `10^exp` in 64 bits.
pub fn checked_pow10_u64(exp: usize) -> (r: Result<u64, CompError>)
    ensures
        r == u64_result(pow10(exp as nat) as int),
{
    let mut acc: u64 = 1;
    let mut i: usize = 0;
    while i < exp
        invariant
            i <= exp,
            acc == pow10(i as nat),
        decreases exp - i,
    {
        assert(pow10((i + 1) as nat) == 10 * pow10(i as nat));
        match acc.checked_mul(10) {
            Some(v) => {
                acc = v;
                i = i + 1;
            },
            None => {
                proof {
                    lemma_pow10_monotone((i + 1) as nat, exp as nat);
                }
                return Err(CompError::MathOverflow);
            },
        }
    }
    Ok(acc)
}

/// `10^exp` in 128 bits.
pub fn checked_pow10_u128(exp: usize) -> (r: Result<u128, CompError>)
    ensures
        r == u128_result(pow10(exp as nat) as int),
{
    let mut acc: u128 = 1;
    let mut i: usize = 0;
    while i < exp
        invariant
            i <= exp,
            acc == pow10(i as nat),
        decreases exp - i,
    {
        assert(pow10((i + 1) as nat) == 10 * pow10(i as nat));
        match acc.checked_mul(10) {
            Some(v) => {
                acc = v;
                i = i + 1;
            },
            None => {
                proof {
                    lemma_pow10_monotone((i + 1) as nat, exp as nat);
                }
                return Err(CompError::MathOverflow);
            },
        }
    }
    Ok(acc)
}

/// `v * 10^p`, truncated toward zero when `p` is negative.
pub open spec fn rescale_floor(v: int, p: int) -> int {
    if p >= 0 {
        v * pow10(p as nat)
    } else {
        v / pow10((-p) as nat) as int
    }
}

/// `v * 10^p`, rounded up when `p` is negative.
pub open spec fn rescale_ceil(v: int, p: int) -> int {
    if p >= 0 {
        v * pow10(p as nat)
    } else {
        ceil_div(v, pow10((-p) as nat) as int)
    }
}

/// The product of `c1 * 10^e1` and `c2 * 10^e2`, as a mantissa at exponent `t`
/// (rounded up when `round_up`, else truncated). Zero operands give zero; the
/// product fails when an exponent sum leaves `i32`, when the divisor `10^(t - e1 - e2)`
/// leaves 128 bits, or when the result leaves 64 bits.
pub open spec fn decimal_mul_spec(c1: u64, e1: i32, c2: u64, e2: i32, t: i32, round_up: bool) -> Result<u64, CompError> {
    let p = e1 + e2 - t;
    if c1 == 0 || c2 == 0 {
        Ok(0)
    } else if !fits_i32(e1 + e2) || !fits_i32(p) || p < -38 {
        Err(CompError::MathOverflow)
    } else if round_up {
        u64_result(rescale_ceil(c1 * c2, p))
    } else {
        u64_result(rescale_floor(c1 * c2, p))
    }
}

/// The quotient of `c1 * 10^e1` by `c2 * 10^e2`, as a mantissa at exponent `t`,
/// truncated. A zero divisor fails, a zero dividend gives zero. With
/// `d = e1 - e2 - t`, the dividend is first scaled to `c1 * 10^d` in 128 bits
/// when `d >= 0`; otherwise the quotient `c1 / c2` is divided by `10^-d`.
pub open spec fn decimal_div_spec(c1: u64, e1: i32, c2: u64, e2: i32, t: i32) -> Result<u64, CompError> {
    let d = e1 - e2 - t;
    if c2 == 0 {
        Err(CompError::MathOverflow)
    } else if c1 == 0 {
        Ok(0)
    } else if !fits_i32(e1 - e2) || !fits_i32(d) {
        Err(CompError::MathOverflow)
    } else if d >= 0 {
        if c1 * pow10(d as nat) > u128::MAX {
            Err(CompError::MathOverflow)
        } else {
            u64_result(c1 * pow10(d as nat) / (c2 as int))
        }
    } else if d < -38 {
        Err(CompError::MathOverflow)
    } else {
        u64_result((c1 / c2) as int / pow10((-d) as nat) as int)
    }
}

fn decimal_mul(c1: u64, e1: i32, c2: u64, e2: i32, t: i32, round_up: bool) -> (r: Result<u64, CompError>)
    ensures
        r == decimal_mul_spec(c1, e1, c2, e2, t, round_up),
{
    if c1 == 0 || c2 == 0 {
        return Ok(0);
    }
    let p = checked_sub_i32(checked_add_i32(e1, e2)?, t)?;
    proof {
        lemma_mul_u64_fits_u128(c1, c2);
        assert(c1 * c2 >= 1) by (nonlinear_arith)
            requires
                c1 >= 1,
                c2 >= 1,
        ;
    }
    let prod: u128 = (c1 as u128) * (c2 as u128);
    if p >= 0 {
        let scale = match checked_pow10_u128(p as usize) {
            Ok(s) => s,
            Err(e) => {
                proof {
                    let q = pow10(p as nat) as int;
                    assert(prod * q >= q) by (nonlinear_arith)
                        requires
                            prod >= 1,
                            q >= 0,
                    ;
                }
                return Err(e);
            },
        };
        let v = match checked_mul_u128(prod, scale) {
            Ok(v) => v,
            Err(e) => {
                return Err(e);
            },
        };
        assert(v == rescale_floor(c1 * c2, p as int));
        assert(v == rescale_ceil(c1 * c2, p as int));
        checked_as_u64(v)
    } else {
        let n = (-(p as i64)) as usize;
        proof {
            lemma_pow10_fits(n as nat);
        }
        let scale = checked_pow10_u128(n)?;
        proof {
            lemma_pow10_positive(n as nat);
        }
        let v = if round_up {
            checked_ceil_div_u128(prod, scale)?
        } else {
            checked_div_u128(prod, scale)?
        };
        assert(round_up ==> v == rescale_ceil(c1 * c2, p as int));
        assert(!round_up ==> v == rescale_floor(c1 * c2, p as int));
        checked_as_u64(v)
    }
}

/// Multiplies two decimals and truncates the product to exponent `target_exponent`.
pub fn checked_decimal_mul(
    coefficient1: u64,
    exponent1: i32,
    coefficient2: u64,
    exponent2: i32,
    target_exponent: i32,
) -> (r: Result<u64, CompError>)
    ensures
        r == decimal_mul_spec(coefficient1, exponent1, coefficient2, exponent2, target_exponent, false),
{
    decimal_mul(coefficient1, exponent1, coefficient2, exponent2, target_exponent, false)
}

/// Multiplies two decimals and rounds the product up to exponent `target_exponent`.
pub fn checked_decimal_ceil_mul(
    coefficient1: u64,
    exponent1: i32,
    coefficient2: u64,
    exponent2: i32,
    target_exponent: i32,
) -> (r: Result<u64, CompError>)
    ensures
        r == decimal_mul_spec(coefficient1, exponent1, coefficient2, exponent2, target_exponent, true),
{
    decimal_mul(coefficient1, exponent1, coefficient2, exponent2, target_exponent, true)
}

/// Divides two decimals and truncates the quotient to exponent `target_exponent`.
pub fn checked_decimal_div(
    coefficient1: u64,
    exponent1: i32,
    coefficient2: u64,
    exponent2: i32,
    target_exponent: i32,
) -> (r: Result<u64, CompError>)
    ensures
        r == decimal_div_spec(coefficient1, exponent1, coefficient2, exponent2, target_exponent),
{
    if coefficient2 == 0 {
        return Err(CompError::MathOverflow);
    }
    if coefficient1 == 0 {
        return Ok(0);
    }
    let d = checked_sub_i32(checked_sub_i32(exponent1, exponent2)?, target_exponent)?;
    if d >= 0 {
        let scale = match checked_pow10_u128(d as usize) {
            Ok(s) => s,
            Err(e) => {
                proof {
                    let q = pow10(d as nat) as int;
                    assert(coefficient1 * q >= q) by (nonlinear_arith)
                        requires
                            coefficient1 >= 1,
                            q >= 0,
                    ;
                }
                return Err(e);
            },
        };
        let scaled = checked_mul_u128(coefficient1 as u128, scale)?;
        checked_as_u64(scaled / (coefficient2 as u128))
    } else {
        let n = (-(d as i64)) as usize;
        proof {
            lemma_pow10_fits(n as nat);
            lemma_pow10_positive(n as nat);
        }
        let scale = checked_pow10_u128(n)?;
        let q = coefficient1 / coefficient2;
        checked_as_u64((q as u128) / scale)
    }
}

} // verus!
