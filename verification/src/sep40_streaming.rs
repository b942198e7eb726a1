//! Oracle-priced streaming (SEP-40): the token rate of a stream follows the
//! fiat price of energy converted at an oracle's exchange rate, and a user is
//! billed for consumption at that rate.
//!
//! The oracle's last report and the user's balance are looked up by the host
//! and handed in; the ledger time is passed in as `now`.

use vstd::prelude::*;

use crate::arith::{div_toward_zero, fits_i128, trunc_div};

verus! {

/// An oracle report older than this many seconds is refused.
pub const MAX_ORACLE_AGE_SECONDS: u64 = 300;

/// Oracle rates are scaled by this factor.
pub const ORACLE_RATE_SCALE: i128 = 1_000_000;

/// An oracle's exchange-rate report.
#[derive(Clone, Copy, Debug, PartialEq, Eq, Structural)]
pub struct OraclePrice {
    /// Tokens per fiat unit, scaled by `ORACLE_RATE_SCALE`.
    pub rate: i128,
    /// Unix seconds of the report.
    pub timestamp: u64,
}

/// Why a rate adjustment or a bill was refused.
#[derive(Clone, Copy, Debug, PartialEq, Eq, Structural)]
pub enum StreamingError {
    /// The oracle has never reported.
    OracleNotFound,
    /// The oracle's report is older than five minutes.
    StaleOracleData,
    /// The user's balance does not cover the debit.
    InsufficientBalance,
}

/// The outcome of billing a user.
#[derive(Clone, Copy, Debug, PartialEq, Eq, Structural)]
pub struct UserBill {
    /// The adjusted stream rate (tokens per unit of consumption).
    pub rate: i128,
    /// The amount debited.
    pub debit: i128,
    /// The user's balance after the debit.
    pub new_balance: i128,
}

/// `true` when the report is not from the future; the on-chain entry point panics on a
/// report dated after `now`.
pub open spec fn report_not_ahead(stored: Option<OraclePrice>, now: u64) -> bool {
    stored matches Some(p) ==> p.timestamp <= now
}

/// The oracle's report if it exists and is fresh at `now`.
pub open spec fn fresh_report(stored: Option<OraclePrice>, now: u64) -> Result<
    OraclePrice,
    StreamingError,
> {
    match stored {
        None => Err(StreamingError::OracleNotFound),
        Some(p) => if now - p.timestamp > MAX_ORACLE_AGE_SECONDS {
            Err(StreamingError::StaleOracleData)
        } else {
            Ok(p)
        },
    }
}

/// Tokens per second for a fiat rate at an oracle rate: their product divided
/// (toward zero) by the oracle's scale.
pub open spec fn adjusted_rate(fiat_rate_per_kwh: i128, p: OraclePrice) -> int {
    trunc_div(fiat_rate_per_kwh * p.rate, ORACLE_RATE_SCALE as int)
}

/// `true` when the rate adjustment does not overflow.
pub open spec fn adjustment_defined(
    stored: Option<OraclePrice>,
    now: u64,
    fiat_rate_per_kwh: i128,
) -> bool {
    &&& report_not_ahead(stored, now)
    &&& fresh_report(stored, now) matches Ok(p) ==> fits_i128(fiat_rate_per_kwh * p.rate)
}

/// A balance that was never stored counts as zero.
pub open spec fn balance_or_zero(stored_balance: Option<i128>) -> i128 {
    match stored_balance {
        Some(b) => b,
        None => 0,
    }
}

/// The bill for `consumption` at the adjusted rate, or the refusal.
pub open spec fn user_bill(
    stored: Option<OraclePrice>,
    now: u64,
    fiat_rate_per_kwh: i128,
    consumption: i128,
    stored_balance: Option<i128>,
) -> Result<UserBill, StreamingError> {
    match fresh_report(stored, now) {
        Err(e) => Err(e),
        Ok(p) => {
            let rate = adjusted_rate(fiat_rate_per_kwh, p);
            let debit = rate * consumption;
            let balance = balance_or_zero(stored_balance);
            if balance < debit {
                Err(StreamingError::InsufficientBalance)
            } else {
                Ok(
                    UserBill {
                        rate: rate as i128,
                        debit: debit as i128,
                        new_balance: (balance - debit) as i128,
                    },
                )
            }
        },
    }
}

/// `true` when billing does not overflow: the rate adjustment, the debit,
/// and the debited balance fit in an `i128`.
pub open spec fn billing_defined(
    stored: Option<OraclePrice>,
    now: u64,
    fiat_rate_per_kwh: i128,
    consumption: i128,
    stored_balance: Option<i128>,
) -> bool {
    &&& adjustment_defined(stored, now, fiat_rate_per_kwh)
    &&& fresh_report(stored, now) matches Ok(p) ==> {
        let debit = adjusted_rate(fiat_rate_per_kwh, p) * consumption;
        &&& fits_i128(debit)
        &&& balance_or_zero(stored_balance) >= debit ==> fits_i128(
            balance_or_zero(stored_balance) - debit,
        )
    }
}

/// `true` when `adjust_stream_rate` is defined for these inputs (the on-chain entry point
/// panics on a report from the future or on an overflow otherwise).
pub fn adjustment_is_defined(stored: Option<OraclePrice>, now: u64, fiat_rate_per_kwh: i128) -> (r:
    bool)
    ensures
        r == adjustment_defined(stored, now, fiat_rate_per_kwh),
{
    match stored {
        None => true,
        Some(p) => {
            if p.timestamp > now {
                false
            } else if now - p.timestamp > MAX_ORACLE_AGE_SECONDS {
                true
            } else {
                fiat_rate_per_kwh.checked_mul(p.rate).is_some()
            }
        },
    }
}

/// `true` when `bill_user` is defined for these inputs (the on-chain entry point panics
/// on a report from the future or on an overflow otherwise).
pub fn billing_is_defined(
    stored: Option<OraclePrice>,
    now: u64,
    fiat_rate_per_kwh: i128,
    consumption: i128,
    stored_balance: Option<i128>,
) -> (r: bool)
    ensures
        r == billing_defined(stored, now, fiat_rate_per_kwh, consumption, stored_balance),
{
    if !adjustment_is_defined(stored, now, fiat_rate_per_kwh) {
        return false;
    }
    let rate = match adjust_stream_rate(stored, now, fiat_rate_per_kwh) {
        Ok(r) => r,
        Err(_) => return true,
    };
    let debit = match rate.checked_mul(consumption) {
        Some(d) => d,
        None => return false,
    };
    let balance = match stored_balance {
        Some(b) => b,
        None => 0,
    };
    balance < debit || balance.checked_sub(debit).is_some()
}

/// The oracle's report, refused when there is none or when it is more than
/// five minutes old at `now`.
pub fn get_oracle_price(stored: Option<OraclePrice>, now: u64) -> (r: Result<
    OraclePrice,
    StreamingError,
>)
    requires
        report_not_ahead(stored, now),
    ensures
        r == fresh_report(stored, now),
{
    let price = match stored {
        Some(p) => p,
        None => return Err(StreamingError::OracleNotFound),
    };
    if now - price.timestamp > MAX_ORACLE_AGE_SECONDS {
        return Err(StreamingError::StaleOracleData);
    }
    Ok(price)
}

/// The stream rate for `fiat_rate_per_kwh` at the oracle's current rate.
pub fn adjust_stream_rate(stored: Option<OraclePrice>, now: u64, fiat_rate_per_kwh: i128) -> (r:
    Result<i128, StreamingError>)
    requires
        adjustment_defined(stored, now, fiat_rate_per_kwh),
    ensures
        r == (match fresh_report(stored, now) {
            Ok(p) => Ok::<i128, StreamingError>(adjusted_rate(fiat_rate_per_kwh, p) as i128),
            Err(e) => Err(e),
        }),
        r matches Ok(v) ==> v == adjusted_rate(fiat_rate_per_kwh, fresh_report(stored, now)->Ok_0),
{
    let price = match get_oracle_price(stored, now) {
        Ok(p) => p,
        Err(e) => return Err(e),
    };
    let tokens_per_second = fiat_rate_per_kwh * price.rate;
    Ok(div_toward_zero(tokens_per_second, ORACLE_RATE_SCALE))
}

/// Bill `consumption` at the adjusted rate against the user's balance
/// (`stored_balance`, zero when none is stored); refused when the balance does
/// not cover the debit.
pub fn bill_user(
    stored: Option<OraclePrice>,
    now: u64,
    fiat_rate_per_kwh: i128,
    consumption: i128,
    stored_balance: Option<i128>,
) -> (r: Result<UserBill, StreamingError>)
    requires
        billing_defined(stored, now, fiat_rate_per_kwh, consumption, stored_balance),
    ensures
        r == user_bill(stored, now, fiat_rate_per_kwh, consumption, stored_balance),
{
    let rate = match adjust_stream_rate(stored, now, fiat_rate_per_kwh) {
        Ok(r) => r,
        Err(e) => return Err(e),
    };
    let debit = rate * consumption;
    let balance = match stored_balance {
        Some(b) => b,
        None => 0,
    };
    if balance < debit {
        return Err(StreamingError::InsufficientBalance);
    }
    let new_balance = balance - debit;
    Ok(UserBill { rate, debit, new_balance })
}

/// A successful bill never leaves the user's balance negative, and debits
/// exactly the rate times the consumption.
pub proof fn law_billing_never_overdraws(
    stored: Option<OraclePrice>,
    now: u64,
    fiat_rate_per_kwh: i128,
    consumption: i128,
    stored_balance: Option<i128>,
)
    requires
        billing_defined(stored, now, fiat_rate_per_kwh, consumption, stored_balance),
    ensures
        user_bill(stored, now, fiat_rate_per_kwh, consumption, stored_balance) matches Ok(b)
            ==> {
            &&& b.new_balance >= 0
            &&& b.new_balance == balance_or_zero(stored_balance) - b.debit
            &&& b.debit == b.rate * consumption
        },
{
}

/// A report is used for at most five minutes: one that is stale at some time
/// is stale at every later time, and a report is fresh when it is made.
pub proof fn law_stale_reports_stay_stale(p: OraclePrice, t1: u64, t2: u64)
    requires
        p.timestamp <= t1 <= t2,
    ensures
        fresh_report(Some(p), p.timestamp) == Ok::<OraclePrice, StreamingError>(p),
        fresh_report(Some(p), t1) is Err ==> fresh_report(Some(p), t2) is Err,
{
}

} // verus!
