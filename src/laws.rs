//! Properties that relate several computations, proved over their specifications.
use vstd::prelude::*;
use vstd::arithmetic::div_mod::{lemma_div_is_ordered, lemma_div_multiples_vanish, lemma_div_plus_one};
use core::cmp::Ordering;
use crate::constants::{HOUR_SECONDS, ORACLE_MAX_PRICE, RATE_POWER};
use crate::error::CompError;
use crate::math::{
    ceil_div, decimal_mul_spec, fits_i32, lemma_pow10_add, lemma_pow10_fits, lemma_pow10_positive,
    pow10,
};
use crate::price::{ord_of, OraclePrice};
use crate::states::{Custody, Position};

verus! {

/// The value of `p` as a multiple of `10^base`, for `base <= p.exponent`.
pub open spec fn value_at(p: OraclePrice, base: int) -> int {
    p.price * pow10((p.exponent - base) as nat)
}

pub open spec fn min_exponent(a: OraclePrice, b: OraclePrice) -> int {
    if a.exponent <= b.exponent {
        a.exponent as int
    } else {
        b.exponent as int
    }
}

/// `a` and `b` denote the same number.
pub open spec fn same_value(a: OraclePrice, b: OraclePrice) -> bool {
    value_at(a, min_exponent(a, b)) == value_at(b, min_exponent(a, b))
}

/// Rescaling to a smaller exponent and back gives the price unchanged: the
/// widening step multiplies exactly, and the narrowing step divides it out.
pub proof fn lemma_scale_round_trip(p: OraclePrice, e1: i32)
    requires
        e1 <= p.exponent,
        p.scale_spec(e1) is Ok,
    ensures
        p.scale_spec(e1) matches Ok(q) && q.scale_spec(p.exponent) == Ok::<OraclePrice, CompError>(p),
{
    if e1 != p.exponent {
        let n = (p.exponent - e1) as nat;
        let q = p.scale_spec(e1)->Ok_0;
        lemma_pow10_positive(n);
        lemma_div_multiples_vanish(p.price as int, pow10(n) as int);
        assert(pow10(n) * p.price == p.price * pow10(n)) by (nonlinear_arith);
        assert(q.price as int / pow10(n) as int == p.price);
    }
}

proof fn lemma_value_rebase(x: OraclePrice, base1: int, base: int)
    requires
        base <= base1 <= x.exponent,
    ensures
        value_at(x, base) == value_at(x, base1) * pow10((base1 - base) as nat),
{
    let a = (x.exponent - base1) as nat;
    let b = (base1 - base) as nat;
    lemma_pow10_add(a, b);
    assert((x.exponent - base) as nat == a + b);
    assert(x.price * (pow10(a) * pow10(b)) == (x.price * pow10(a)) * pow10(b)) by (nonlinear_arith);
}

proof fn lemma_value_at_own_exponent(x: OraclePrice)
    ensures
        value_at(x, x.exponent as int) == x.price,
{
    assert(pow10(0) == 1);
    assert((x.exponent - x.exponent) as nat == 0nat);
    assert(x.price * 1nat == x.price);
}

proof fn lemma_ord_scaled(x: int, y: int, k: int)
    requires
        k >= 1,
    ensures
        ord_of(x * k, y * k) == ord_of(x, y),
{
    assert(x < y <==> x * k < y * k) by (nonlinear_arith)
        requires
            k >= 1,
    ;
    assert(x > y <==> x * k > y * k) by (nonlinear_arith)
        requires
            k >= 1,
    ;
}

/// A comparison that is defined orders the two numbers that the prices denote.
pub proof fn lemma_cmp_orders_values(a: OraclePrice, b: OraclePrice)
    requires
        a.cmp_spec(b) is Some,
    ensures
        a.cmp_spec(b) == Some(ord_of(value_at(a, min_exponent(a, b)), value_at(b, min_exponent(a, b)))),
{
    lemma_value_at_own_exponent(a);
    lemma_value_at_own_exponent(b);
    if a.exponent < b.exponent {
        assert(value_at(b, min_exponent(a, b)) == b.scale_spec(a.exponent)->Ok_0.price);
    } else if a.exponent > b.exponent {
        assert(value_at(a, min_exponent(a, b)) == a.scale_spec(b.exponent)->Ok_0.price);
    }
}

/// Two prices that denote the same number compare equal, whichever exponent
/// the comparison rescales to, provided their exponents are within 19 of each
/// other when both are zero (a nonzero pair always is).
pub proof fn lemma_equal_values_compare_equal(a: OraclePrice, b: OraclePrice)
    requires
        same_value(a, b),
        a.price != 0 || b.price != 0 || -19 <= a.exponent - b.exponent <= 19,
    ensures
        a.cmp_spec(b) == Some(Ordering::Equal),
{
    assert(pow10(0) == 1);
    if a.exponent != b.exponent {
        let (hi, lo) = if a.exponent > b.exponent { (a, b) } else { (b, a) };
        let d = (hi.exponent - lo.exponent) as nat;
        assert(min_exponent(a, b) == lo.exponent);
        lemma_value_at_own_exponent(lo);
        assert(hi.price * pow10(d) == lo.price);
        if hi.price != 0 {
            assert(hi.price * pow10(d) >= pow10(d)) by (nonlinear_arith)
                requires
                    hi.price >= 1,
            ;
            lemma_pow10_fits(d);
        } else {
            assert(hi.price * pow10(d) == 0) by (nonlinear_arith)
                requires
                    hi.price == 0,
            ;
            assert(d <= 19);
        }
        assert(fits_i32(lo.exponent - hi.exponent));
        assert(hi.scale_spec(lo.exponent) is Ok);
    }
    if a.cmp_spec(b) is Some {
        lemma_cmp_orders_values(a, b);
    }
}

/// Replacing a price by another that denotes the same number does not change
/// how it compares with a third, whenever both comparisons are defined.
pub proof fn lemma_cmp_exponent_invariant(a: OraclePrice, a2: OraclePrice, b: OraclePrice)
    requires
        same_value(a, a2),
        a.cmp_spec(b) is Some,
        a2.cmp_spec(b) is Some,
    ensures
        a.cmp_spec(b) == a2.cmp_spec(b),
{
    lemma_cmp_orders_values(a, b);
    lemma_cmp_orders_values(a2, b);
    let base = if min_exponent(a, a2) <= b.exponent { min_exponent(a, a2) } else { b.exponent as int };
    let m1 = min_exponent(a, b);
    let m2 = min_exponent(a2, b);
    let maa = min_exponent(a, a2);
    lemma_value_rebase(a, m1, base);
    lemma_value_rebase(b, m1, base);
    lemma_value_rebase(a2, m2, base);
    lemma_value_rebase(b, m2, base);
    lemma_value_rebase(a, maa, base);
    lemma_value_rebase(a2, maa, base);
    lemma_pow10_positive((m1 - base) as nat);
    lemma_pow10_positive((m2 - base) as nat);
    lemma_ord_scaled(value_at(a, m1), value_at(b, m1), pow10((m1 - base) as nat) as int);
    lemma_ord_scaled(value_at(a2, m2), value_at(b, m2), pow10((m2 - base) as nat) as int);
}

/// Normalizing is idempotent, and leaves a mantissa of at most `2^28 - 1`.
pub proof fn lemma_normalize_idempotent(p: OraclePrice)
    requires
        p.normalize_spec() is Ok,
    ensures
        p.normalize_spec() matches Ok(n) && n.normalize_spec() == Ok::<OraclePrice, CompError>(n)
            && n.price <= ORACLE_MAX_PRICE,
{
    OraclePrice::lemma_normalize_bounded(p.price, p.exponent);
}

/// The rounded-up product is never below the truncated one, and exceeds it
/// by at most one; whenever the rounded-up product is defined, so is the
/// truncated one.
pub proof fn lemma_ceil_mul_not_below_mul(c1: u64, e1: i32, c2: u64, e2: i32, t: i32)
    requires
        decimal_mul_spec(c1, e1, c2, e2, t, true) is Ok,
    ensures
        decimal_mul_spec(c1, e1, c2, e2, t, false) is Ok,
        decimal_mul_spec(c1, e1, c2, e2, t, true)->Ok_0 >= decimal_mul_spec(c1, e1, c2, e2, t, false)->Ok_0,
        decimal_mul_spec(c1, e1, c2, e2, t, true)->Ok_0 <= decimal_mul_spec(c1, e1, c2, e2, t, false)->Ok_0 + 1,
{
    let p = e1 + e2 - t;
    if c1 != 0 && c2 != 0 && p < 0 {
        let d = pow10((-p) as nat) as int;
        let v = c1 * c2;
        lemma_pow10_positive((-p) as nat);
        assert(c1 * c2 >= 0) by (nonlinear_arith)
            requires
                c1 >= 0,
                c2 >= 0,
        ;
        lemma_div_is_ordered(v, v + d - 1, d);
        lemma_div_is_ordered(v + d - 1, v + d, d);
        lemma_div_plus_one(v, d);
        lemma_div_is_ordered(0, v, d);
        assert(ceil_div(v, d) == (v + d - 1) / d);
    }
}

/// The lock-fee index of a custody never falls below its stored value.
pub proof fn lemma_cumulative_lock_fee_grows(custody: Custody, curtime: i64)
    requires
        custody.cumulative_lock_fee_spec(curtime) is Ok,
    ensures
        custody.cumulative_lock_fee_spec(curtime)->Ok_0 >= custody.borrow_rate_state.cumulative_lock_fee,
{
    let s = custody.borrow_rate_state;
    if curtime > s.last_update {
        let x = (curtime - s.last_update) * s.current_rate;
        assert(x >= 0) by (nonlinear_arith)
            requires
                curtime - s.last_update > 0,
                s.current_rate >= 0,
                x == (curtime - s.last_update) * s.current_rate,
        ;
        lemma_div_is_ordered(0, x + HOUR_SECONDS - 1, HOUR_SECONDS as int);
    }
}

/// The lock-fee index of a custody never decreases as time goes on.
pub proof fn lemma_cumulative_lock_fee_monotone(custody: Custody, t1: i64, t2: i64)
    requires
        t1 <= t2,
        custody.cumulative_lock_fee_spec(t1) is Ok,
        custody.cumulative_lock_fee_spec(t2) is Ok,
    ensures
        custody.cumulative_lock_fee_spec(t1)->Ok_0 <= custody.cumulative_lock_fee_spec(t2)->Ok_0,
{
    let s = custody.borrow_rate_state;
    if t1 > s.last_update {
        let x1 = (t1 - s.last_update) * s.current_rate;
        let x2 = (t2 - s.last_update) * s.current_rate;
        assert(0 <= x1 <= x2) by (nonlinear_arith)
            requires
                0 < t1 - s.last_update <= t2 - s.last_update,
                s.current_rate >= 0,
                x1 == (t1 - s.last_update) * s.current_rate,
                x2 == (t2 - s.last_update) * s.current_rate,
        ;
        lemma_div_is_ordered(x1 + HOUR_SECONDS - 1, x2 + HOUR_SECONDS - 1, HOUR_SECONDS as int);
    } else if t2 > s.last_update {
        let x2 = (t2 - s.last_update) * s.current_rate;
        assert(x2 >= 0) by (nonlinear_arith)
            requires
                t2 - s.last_update > 0,
                s.current_rate >= 0,
                x2 == (t2 - s.last_update) * s.current_rate,
        ;
        assert((x2 + HOUR_SECONDS - 1) / (HOUR_SECONDS as int) >= 0);
    }
}

/// The lock fee that a position owes never decreases as time goes on, for a
/// fixed custody state.
pub proof fn lemma_lock_fee_monotone(custody: Custody, position: Position, t1: i64, t2: i64)
    requires
        t1 <= t2,
        custody.lock_fee_spec(position, t1) is Ok,
        custody.lock_fee_spec(position, t2) is Ok,
    ensures
        custody.lock_fee_spec(position, t1)->Ok_0 <= custody.lock_fee_spec(position, t2)->Ok_0,
{
    if !(position.locked_usd == 0 || custody.is_virtual) {
        lemma_cumulative_lock_fee_monotone(custody, t1, t2);
        let c1 = custody.cumulative_lock_fee_spec(t1)->Ok_0;
        let c2 = custody.cumulative_lock_fee_spec(t2)->Ok_0;
        let snap = position.cumulative_lock_fee_snapshot;
        if c1 > snap {
            let o1 = (c1 - snap) * position.locked_usd;
            let o2 = (c2 - snap) * position.locked_usd;
            assert(o1 <= o2) by (nonlinear_arith)
                requires
                    0 < c1 - snap <= c2 - snap,
                    position.locked_usd >= 0,
                    o1 == (c1 - snap) * position.locked_usd,
                    o2 == (c2 - snap) * position.locked_usd,
            ;
            lemma_div_is_ordered(o1, o2, RATE_POWER as int);
        }
    }
}

/// A virtual custody charges no lock fee; nor does any custody at its last
/// update, to a position whose snapshot has caught up with the stored index.
pub proof fn lemma_lock_fee_zero(custody: Custody, position: Position, curtime: i64)
    ensures
        custody.is_virtual ==> custody.lock_fee_spec(position, curtime) == Ok::<u64, CompError>(0),
        position.cumulative_lock_fee_snapshot >= custody.borrow_rate_state.cumulative_lock_fee
            ==> custody.lock_fee_spec(position, custody.borrow_rate_state.last_update) == Ok::<u64, CompError>(0),
{
}

} // verus!
