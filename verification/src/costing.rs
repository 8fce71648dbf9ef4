//! Moving weighted average cost of stock, computed with `rust_decimal`.

use rust_decimal::Decimal;
use vstd::prelude::*;

use crate::error::RepoError;
use crate::money::{Money, MONEY_LIMIT};

verus! {

/// `num / den` rounded to the nearest integer, ties to the even integer ("banker's rounding").
pub open spec fn round_half_even_div(num: int, den: int) -> int
    recommends
        den > 0,
{
    let q = num / den;
    let r = num % den;
    if 2 * r < den {
        q
    } else if 2 * r > den {
        q + 1
    } else if q % 2 == 0 {
        q
    } else {
        q + 1
    }
}

/// The cost per unit after `qty` units at `unit` join `old_stock` units at `old_cost`
/// (all amounts in ten-thousandths): the total value over the new stock, rounded to four
/// decimal places; when no stock is left the incoming unit cost.
pub open spec fn weighted_cost_spec(old_stock: int, old_cost: int, qty: int, unit: int) -> int {
    let new_stock = old_stock + qty;
    if new_stock <= 0 {
        unit
    } else {
        round_half_even_div(old_cost * old_stock + unit * qty, new_stock)
    }
}

/// Whether the new stock and the weighted cost can be stored: the new stock fits an `i32`
/// and the total value divided by the new stock stays within what a `NUMERIC(18,4)` column holds.
pub open spec fn weighted_cost_fits(old_stock: int, old_cost: int, qty: int, unit: int) -> bool {
    let new_stock = old_stock + qty;
    &&& i32::MIN <= new_stock <= i32::MAX
    &&& new_stock <= 0 || {
        let num = old_cost * old_stock + unit * qty;
        &&& -MONEY_LIMIT * new_stock < num < MONEY_LIMIT * new_stock
        &&& -MONEY_LIMIT < round_half_even_div(num, new_stock) < MONEY_LIMIT
    }
}

/// Divides `numerator_units` ten-thousandths by `denominator` with `rust_decimal` and rounds the
/// quotient to four decimal places with `Decimal::round_dp`, which rounds half to even.
/// The contract states that the result is the exactly rounded quotient: with the quotient's
/// magnitude under 10^14 the division keeps at least 14 decimal places, while a quotient by a
/// divisor below 2^31 lies at least 1/(2*2^31) ten-thousandths away from any rounding midpoint
/// it is not on, so the final rounding alone decides the result.
#[verifier::external_body]
fn decimal_quotient_round4(numerator_units: i128, denominator: i64) -> (q: i64)
    requires
        0 < denominator <= i32::MAX,
        -MONEY_LIMIT * denominator < numerator_units < MONEY_LIMIT * denominator,
    ensures
        q == round_half_even_div(numerator_units as int, denominator as int),
{
    let numerator = Decimal::from_i128_with_scale(numerator_units, 4);
    let mut quotient = (numerator / Decimal::from(denominator)).round_dp(4);
    quotient.rescale(4);
    quotient.mantissa() as i64
}

proof fn lemma_round_bounds(num: int, den: int)
    requires
        den > 0,
    ensures
        num / den <= round_half_even_div(num, den) <= num / den + 1,
        den * (num / den) <= num,
{
    vstd::arithmetic::div_mod::lemma_fundamental_div_mod(num, den);
}

proof fn lemma_product_bound(a: int, b: int)
    requires
        i64::MIN <= a <= i64::MAX,
        i32::MIN <= b <= i32::MAX,
    ensures
        -0x4000_0000_0000_0000_0000_0000_0000 <= a * b <= 0x4000_0000_0000_0000_0000_0000_0000,
{
    assert(-0x4000_0000_0000_0000_0000_0000_0000 <= a * b <= 0x4000_0000_0000_0000_0000_0000_0000)
        by (nonlinear_arith)
        requires
            i64::MIN <= a <= i64::MAX,
            i32::MIN <= b <= i32::MAX,
    ;
}

/// The moving weighted average cost after receiving `qty` units at `unit_cost` into a
/// stock of `old_stock` units at `old_cost`.
pub fn weighted_average_cost(old_stock: i32, old_cost: Money, qty: i32, unit_cost: Money) -> (r:
    Result<Money, RepoError>)
    ensures
        match r {
            Ok(m) => weighted_cost_fits(old_stock as int, old_cost.units as int, qty as int, unit_cost.units as int)
                && m.units == weighted_cost_spec(old_stock as int, old_cost.units as int, qty as int, unit_cost.units as int),
            Err(e) => e is NumericOverflow && !weighted_cost_fits(old_stock as int, old_cost.units as int, qty as int, unit_cost.units as int),
        },
{
    let new_stock: i64 = old_stock as i64 + qty as i64;
    if new_stock < i32::MIN as i64 || new_stock > i32::MAX as i64 {
        return Err(RepoError::NumericOverflow);
    }
    if new_stock <= 0 {
        return Ok(unit_cost);
    }
    let a: i128 = old_cost.units as i128;
    let b: i128 = old_stock as i128;
    let c: i128 = unit_cost.units as i128;
    let d: i128 = qty as i128;
    proof {
        lemma_product_bound(a as int, b as int);
        lemma_product_bound(c as int, d as int);
    }
    let num: i128 = a * b + c * d;
    let limit: i128 = (MONEY_LIMIT as i128) * (new_stock as i128);
    if !(-limit < num && num < limit) {
        return Err(RepoError::NumericOverflow);
    }
    proof {
        let n = num as int;
        let d = new_stock as int;
        lemma_round_bounds(n, d);
        vstd::arithmetic::div_mod::lemma_fundamental_div_mod(n, d);
        let qq = n / d;
        assert(qq < MONEY_LIMIT) by (nonlinear_arith)
            requires
                n < MONEY_LIMIT * d,
                d > 0,
                d * qq <= n,
        {
        }
        assert(qq >= -MONEY_LIMIT) by (nonlinear_arith)
            requires
                -MONEY_LIMIT * d < n,
                d > 0,
                n < d * qq + d,
        {
        }
    }
    let q = decimal_quotient_round4(num, new_stock);
    if !(-MONEY_LIMIT < q && q < MONEY_LIMIT) {
        return Err(RepoError::NumericOverflow);
    }
    Ok(Money { units: q })
}

} // verus!
