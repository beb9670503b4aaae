use crate::decimal::{pow2_128, pow2_256, Decimal, Wide, DECIMAL_FRACTIONAL};
use cosmwasm_bignumber::{Decimal256, Uint256};
use cosmwasm_std::{OverflowError, OverflowOperation, StdError, Uint128};
use std::str::FromStr;
use vstd::prelude::*;

verus! {

/// `Decimal256::from_str` on the decimal digits that `Uint128` prints for
/// `amount`. The parser accepts every run of digits below 2^256 and
/// scales it by 10^18, so the call succeeds with `amount` whole units.
#[verifier::external_body]
pub(crate) fn decimal_from_amount(amount: u128) -> (r: Result<Decimal, StdError>)
    ensures
        r is Ok,
        r->Ok_0.atomics.value() == amount * DECIMAL_FRACTIONAL,
{
    match Decimal256::from_str(&Uint128::new(amount).to_string()) {
        Ok(d) => Ok(Decimal { atomics: Wide { limbs: d.0.0 } }),
        Err(e) => Err(e),
    }
}

/// `Decimal256 / Decimal256`: the operator multiplies the dividend's
/// atomics by 10^18 and divides by the divisor's, rounding down. It panics on
/// a zero divisor and when the scaled dividend leaves 256 bits.
#[verifier::external_body]
pub(crate) fn decimal_div(a: &Decimal, b: &Decimal) -> (q: Decimal)
    requires
        b.atomics.value() > 0,
        a.atomics.value() * DECIMAL_FRACTIONAL < pow2_256(),
    ensures
        q.atomics.value() == a.atomics.value() * DECIMAL_FRACTIONAL / (b.atomics.value() as int),
{
    let (mut x, mut y) = (Decimal256::zero(), Decimal256::zero());
    x.0.0 = a.atomics.limbs;
    y.0.0 = b.atomics.limbs;
    Decimal { atomics: Wide { limbs: (x / y).0.0 } }
}

/// `Decimal256 * Decimal256`: the operator multiplies the two atomics
/// and divides by 10^18, rounding down. It panics when the product leaves
/// 256 bits.
#[verifier::external_body]
pub(crate) fn decimal_mul(a: &Decimal, b: &Decimal) -> (p: Decimal)
    requires
        a.atomics.value() * b.atomics.value() < pow2_256(),
    ensures
        p.atomics.value() == a.atomics.value() * b.atomics.value() / (DECIMAL_FRACTIONAL as nat),
{
    let (mut x, mut y) = (Decimal256::zero(), Decimal256::zero());
    x.0.0 = a.atomics.limbs;
    y.0.0 = b.atomics.limbs;
    Decimal { atomics: Wide { limbs: (x * y).0.0 } }
}

/// `Decimal256 * Uint256`: the operator multiplies the integer by the
/// decimal's atomics and divides by 10^18, rounding down; the result is an
/// integer. It panics when the product leaves 256 bits.
#[verifier::external_body]
pub(crate) fn decimal_mul_uint(d: &Decimal, n: &Wide) -> (w: Wide)
    requires
        n.value() * d.atomics.value() < pow2_256(),
    ensures
        w.value() == n.value() * d.atomics.value() / (DECIMAL_FRACTIONAL as nat),
{
    let (mut x, mut y) = (Decimal256::zero(), Uint256::zero());
    x.0.0 = d.atomics.limbs;
    y.0.0 = n.limbs;
    Wide { limbs: (x * y).0.0 }
}

/// `Uint128::from(Uint256)`: the conversion keeps the lower two words and
/// panics unless the upper two are zero.
#[verifier::external_body]
pub(crate) fn wide_to_u128(w: &Wide) -> (r: u128)
    requires
        w.value() < pow2_128(),
    ensures
        r == w.value(),
{
    let mut x = Uint256::zero();
    x.0.0 = w.limbs;
    Uint128::from(x).u128()
}

/// `Uint128::checked_add`, its `OverflowError` turned into a `StdError` as
/// `?` does in a function that returns `StdResult`: the sum where it fits in
/// 128 bits, an error where it does not.
#[verifier::external_body]
pub(crate) fn checked_add(a: u128, b: u128) -> (r: Result<u128, StdError>)
    ensures
        match r {
            Ok(sum) => sum == a + b,
            Err(_) => a + b > u128::MAX,
        },
{
    match Uint128::new(a).checked_add(Uint128::new(b)) {
        Ok(sum) => Ok(sum.u128()),
        Err(e) => Err(StdError::from(e)),
    }
}

/// `StdError::overflow` with an `OverflowError` that names the amount and the
/// rate of a conversion whose result does not fit in 128 bits.
#[verifier::external_body]
pub(crate) fn conversion_overflow(amount: u128, rate: &Decimal) -> StdError {
    let mut r = Decimal256::zero();
    r.0.0 = rate.atomics.limbs;
    StdError::overflow(OverflowError::new(OverflowOperation::Mul, amount, r))
}

} // verus!
