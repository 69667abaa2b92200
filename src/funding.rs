use vstd::prelude::*;

use crate::manager::Error;

verus! {

/// Absolute difference between the long and the short open interest.
pub open spec fn imbalance(long_total: int, short_total: int) -> int {
    if long_total >= short_total {
        long_total - short_total
    } else {
        short_total - long_total
    }
}

/// The funding rate for the given prices and totals, or the error that
/// stops its computation.
///
/// The skew is `contract_price - spot_price` and may not be negative; the
/// funding factor is the skew divided by the spot price (truncated); the
/// rate is the factor times the imbalance, divided by the total open
/// interest (truncated). No open interest at all is reported as
/// `DivByZero`.
pub open spec fn funding_rate_spec(
    spot_price: u128,
    contract_price: u128,
    long_total: u128,
    short_total: u128,
) -> Result<u128, Error> {
    let factor = (contract_price - spot_price) / (spot_price as int);
    let scaled = factor * imbalance(long_total as int, short_total as int);
    let total = long_total + short_total;
    if contract_price < spot_price {
        Err(Error::Underflow)
    } else if spot_price == 0 {
        Err(Error::DivByZero)
    } else if total > u128::MAX {
        Err(Error::Overflow)
    } else if scaled > u128::MAX {
        Err(Error::Overflow)
    } else if total == 0 {
        Err(Error::DivByZero)
    } else {
        Ok((scaled / total) as u128)
    }
}

/// Computes the funding rate from the spot and contract prices and the
/// long and short open-interest totals. Every step is checked: nothing
/// wraps and nothing panics.
pub fn funding_rate(spot_price: u128, contract_price: u128, long_total: u128, short_total: u128) -> (r:
    Result<u128, Error>)
    ensures
        r == funding_rate_spec(spot_price, contract_price, long_total, short_total),
{
    let skew = match contract_price.checked_sub(spot_price) {
        Some(s) => s,
        None => return Err(Error::Underflow),
    };
    let factor = match skew.checked_div(spot_price) {
        Some(f) => f,
        None => return Err(Error::DivByZero),
    };
    let imbalance: u128 = if long_total > short_total {
        long_total - short_total
    } else {
        short_total - long_total
    };
    let total = match long_total.checked_add(short_total) {
        Some(t) => t,
        None => return Err(Error::Overflow),
    };
    let scaled = match factor.checked_mul(imbalance) {
        Some(s) => s,
        None => return Err(Error::Overflow),
    };
    match scaled.checked_div(total) {
        Some(rate) => Ok(rate),
        None => Err(Error::DivByZero),
    }
}

/// With equal, nonzero long and short open interest the imbalance is zero,
/// and so is the funding rate, whatever the price skew. The rate is defined
/// only when the skew is not negative, the spot price is not zero and the
/// total open interest fits.
pub proof fn lemma_balanced_market_has_zero_rate(
    spot_price: u128,
    contract_price: u128,
    long_total: u128,
    short_total: u128,
)
    requires
        long_total == short_total,
        long_total > 0,
        spot_price > 0,
        contract_price >= spot_price,
        long_total + short_total <= u128::MAX,
    ensures
        imbalance(long_total as int, short_total as int) == 0,
        funding_rate_spec(spot_price, contract_price, long_total, short_total) == Ok::<u128, Error>(0),
{
    let factor = (contract_price - spot_price) / (spot_price as int);
    assert(factor * 0 == 0);
}

} // verus!
