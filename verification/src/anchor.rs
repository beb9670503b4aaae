use crate::bignumber::{
    checked_add, conversion_overflow, decimal_div, decimal_from_amount, decimal_mul,
    decimal_mul_uint, wide_to_u128,
};
use crate::decimal::{mul_wide, pow2_128, Decimal, Wide, DECIMAL_FRACTIONAL};
use cosmwasm_std::StdError;
use vstd::arithmetic::div_mod::{
    lemma_div_denominator, lemma_div_multiples_vanish, lemma_div_multiples_vanish_quotient,
    lemma_fundamental_div_mod, lemma_mod_bound,
};
use vstd::arithmetic::mul::{lemma_mul_is_associative, lemma_mul_is_commutative};
use vstd::prelude::*;

verus! {

/// What is added to a stable amount before it is divided by the exchange
/// rate, so that rounding down does not leave the vault short of receipts.
pub const ROUNDING_ERR_COMPENSATION: u128 = 1;

/// How many stable units one receipt unit is worth: a positive decimal.
#[derive(Clone, Copy, Debug, PartialEq, Eq)]
pub struct ExchangeRate {
    rate: Decimal,
}

impl ExchangeRate {
    #[verifier::type_invariant]
    spec fn positive(&self) -> bool {
        self.rate.atomics.value() > 0
    }

    /// The rate in units of 10^-18.
    pub closed spec fn atomics(&self) -> nat {
        self.rate.atomics.value()
    }

    /// The rate that `rate` stands for, unless it is zero.
    pub fn new(rate: Decimal) -> (r: Option<ExchangeRate>)
        ensures
            match r {
                Some(x) => x.atomics() == rate.atomics.value() && x.atomics() > 0,
                None => rate.atomics.value() == 0,
            },
    {
        if rate.is_zero() {
            None
        } else {
            Some(ExchangeRate { rate })
        }
    }

    /// The rate as a decimal.
    pub fn decimal(&self) -> (d: Decimal)
        ensures
            d.atomics.value() == self.atomics(),
            d.atomics.value() > 0,
    {
        proof {
            use_type_invariant(self);
        }
        self.rate
    }
}

/// The receipts that `ust_amount` stable units buy at `rate`: the amount and
/// the compensation, divided by the rate and rounded down.
pub open spec fn ust_to_aust(ust_amount: nat, rate: nat) -> nat
    recommends
        rate > 0,
{
    (ust_amount + ROUNDING_ERR_COMPENSATION as nat) * (DECIMAL_FRACTIONAL as nat) / rate
}

/// The stable units that `aust_amount` receipts are worth at `rate`, rounded
/// down.
pub open spec fn aust_to_ust(aust_amount: nat, rate: nat) -> nat {
    aust_amount * rate / (DECIMAL_FRACTIONAL as nat)
}

/// Whether the receipts for `ust_amount` can be computed in 128 bits.
pub open spec fn ust_to_aust_fits(ust_amount: nat, rate: nat) -> bool {
    &&& ust_amount + ROUNDING_ERR_COMPENSATION <= u128::MAX
    &&& ust_to_aust(ust_amount, rate) <= u128::MAX
}

/// Whether the worth of `aust_amount` receipts fits in 128 bits.
pub open spec fn aust_to_ust_fits(aust_amount: nat, rate: nat) -> bool {
    aust_to_ust(aust_amount, rate) <= u128::MAX
}

/// The receipt amount to redeem for `ust_amount` stable units at `rate`. It
/// fails only where the padded amount or the result leaves 128 bits.
pub fn calc_ust_to_aust(ust_amount: u128, rate: &ExchangeRate) -> (r: Result<u128, StdError>)
    ensures
        r is Ok <==> ust_to_aust_fits(ust_amount as nat, rate.atomics()),
        r matches Ok(aust_amount) ==> aust_amount == ust_to_aust(ust_amount as nat, rate.atomics()),
{
    let padded: u128 = match checked_add(ust_amount, ROUNDING_ERR_COMPENSATION) {
        Ok(sum) => sum,
        Err(e) => { return Err(e); },
    };
    let amount = match decimal_from_amount(padded) {
        Ok(d) => d,
        Err(e) => { return Err(e); },
    };
    let rate = rate.decimal();
    let quotient = decimal_div(&amount, &rate);
    let one = Wide::from_u128(1);
    let whole = decimal_mul_uint(&quotient, &one);
    proof {
        lemma_scaled_quotient(padded as nat, rate.atomics.value());
    }
    // the receipts fit in 128 bits exactly when the upper two words are zero
    if whole.high() != 0 {
        return Err(conversion_overflow(padded, &rate));
    }
    Ok(wide_to_u128(&whole))
}

/// The stable units that `aust_amount` receipts are worth at `rate`. It fails
/// only where the result leaves 128 bits.
pub fn calc_aust_to_ust(aust_amount: u128, rate: &ExchangeRate) -> (r: Result<u128, StdError>)
    ensures
        r is Ok <==> aust_to_ust_fits(aust_amount as nat, rate.atomics()),
        r matches Ok(ust_amount) ==> ust_amount == aust_to_ust(aust_amount as nat, rate.atomics()),
{
    let rate = rate.decimal();
    // amount * rate = low.1 + (low.0 + high.1) * 2^128 + high.0 * 2^256, and the
    // result fits in 128 bits exactly when that is below 10^18 * 2^128
    let low = mul_wide(aust_amount, rate.atomics.low());
    let high = mul_wide(aust_amount, rate.atomics.high());
    proof {
        lemma_wide_product(
            aust_amount as nat,
            rate.atomics.low_value(),
            rate.atomics.high_value(),
        );
    }
    if high.0 != 0 || high.1 >= DECIMAL_FRACTIONAL || low.0 >= DECIMAL_FRACTIONAL - high.1 {
        return Err(conversion_overflow(aust_amount, &rate));
    }
    let amount = match decimal_from_amount(aust_amount) {
        Ok(d) => d,
        Err(e) => { return Err(e); },
    };
    proof {
        lemma_scaled_product(aust_amount as nat, rate.atomics.value());
    }
    let product = decimal_mul(&amount, &rate);
    let one = Wide::from_u128(1);
    let whole = decimal_mul_uint(&product, &one);
    Ok(wide_to_u128(&whole))
}

/// The receipts computed for a stable amount are worth at least that amount
/// exactly when the division by the rate leaves a remainder no larger than the
/// scaled compensation.
pub proof fn round_trip_covers_amount(ust_amount: nat, rate: nat)
    requires
        rate > 0,
    ensures
        aust_to_ust(ust_to_aust(ust_amount, rate), rate) >= ust_amount <==> (ust_amount
            + ROUNDING_ERR_COMPENSATION as nat) * (DECIMAL_FRACTIONAL as nat) % rate
            <= ROUNDING_ERR_COMPENSATION * DECIMAL_FRACTIONAL,
{
    let s: int = DECIMAL_FRACTIONAL as int;
    let padded: int = (ust_amount + ROUNDING_ERR_COMPENSATION as nat) as int * s;
    let r: int = rate as int;
    lemma_fundamental_div_mod(padded, r);
    lemma_mod_bound(padded, r);
    lemma_mul_is_commutative(r, padded / r);
}

/// At a rate no larger than the compensation (and one atomic more), the
/// receipts computed for a stable amount are always worth at least that
/// amount.
pub proof fn round_trip_covers_amount_at_low_rate(ust_amount: nat, rate: nat)
    requires
        0 < rate <= ROUNDING_ERR_COMPENSATION * DECIMAL_FRACTIONAL + 1,
    ensures
        aust_to_ust(ust_to_aust(ust_amount, rate), rate) >= ust_amount,
{
    let s: int = DECIMAL_FRACTIONAL as int;
    let padded: int = (ust_amount + ROUNDING_ERR_COMPENSATION as nat) as int * s;
    lemma_mod_bound(padded, rate as int);
    round_trip_covers_amount(ust_amount, rate);
}

/// Dividing a twice scaled amount by the rate and then by the scale is
/// dividing the once scaled amount by the rate.
proof fn lemma_scaled_quotient(amount: nat, rate: nat)
    requires
        rate > 0,
    ensures
        (amount * (DECIMAL_FRACTIONAL as nat) * (DECIMAL_FRACTIONAL as nat) / rate) / (
        DECIMAL_FRACTIONAL as nat) == amount * (DECIMAL_FRACTIONAL as nat) / rate,
{
    let s: int = DECIMAL_FRACTIONAL as int;
    let once: int = amount as int * s;
    let r: int = rate as int;
    lemma_div_denominator(once * s, r, s);
    lemma_div_multiples_vanish_quotient(s, once, r);
    lemma_mul_is_commutative(s, once);
    lemma_mul_is_commutative(s, r);
}

/// The product of an amount and a rate given as two halves.
proof fn lemma_wide_product(amount: nat, low: nat, high: nat)
    by (nonlinear_arith)
    ensures
        amount * (low + high * pow2_128()) == amount * low + (amount * high) * pow2_128(),
{
}

/// A scaled amount times a rate is their product, scaled; and the scale
/// divides it out again.
proof fn lemma_scaled_product(amount: nat, rate: nat)
    ensures
        (amount * (DECIMAL_FRACTIONAL as nat)) * rate == (amount * rate) * (
        DECIMAL_FRACTIONAL as nat),
        (amount * (DECIMAL_FRACTIONAL as nat)) * rate / (DECIMAL_FRACTIONAL as nat) == amount
            * rate,
{
    let s: int = DECIMAL_FRACTIONAL as int;
    lemma_mul_is_associative(amount as int, s, rate as int);
    lemma_mul_is_commutative(s, rate as int);
    lemma_mul_is_associative(amount as int, rate as int, s);
    lemma_div_multiples_vanish(amount as int * rate as int, s);
    lemma_mul_is_commutative(s, amount as int * rate as int);
}

} // verus!
