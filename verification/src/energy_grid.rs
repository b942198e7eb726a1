//! Time-of-use billing for the energy grid: a consumption is billed at the
//! base rate times a peak multiplier during the evening peak, and at a
//! percentage of the base rate otherwise; the grid admin configures both.
//!
//! `GridStorage` holds the grid settings as plain values; the user's balance
//! is looked up by the host and handed in, and the new balance handed back.

use vstd::prelude::*;

use crate::address::Address;
use crate::arith::{div_toward_zero, fits_i128, trunc_div};

verus! {

/// Length of an hour in seconds.
pub const SECONDS_PER_HOUR: u64 = 3600;

/// First hour of the day (UTC) billed at the peak rate.
pub const PEAK_START_HOUR: u64 = 18;

/// Last hour of the day (UTC) billed at the peak rate.
pub const PEAK_END_HOUR: u64 = 22;

/// Peak multiplier used while the admin has set none.
pub const DEFAULT_PEAK_LOAD_MULTIPLIER: i128 = 2;

/// Off-peak discount (a percentage of the base rate) used while the admin has
/// set none.
pub const DEFAULT_LOW_LOAD_DISCOUNT: i128 = 1;

/// The load configuration in force for one consumption.
#[derive(Debug)]
pub struct LoadConfig {
    pub peak_load_multiplier: i128,
    pub low_load_discount: i128,
    /// "peak" or "offpeak".
    pub active_window: String,
}

/// The grid settings held in storage.
#[derive(Debug)]
pub struct GridStorage {
    pub grid_admin: Option<Address>,
    pub peak_load_multiplier: Option<i128>,
    pub low_load_discount: Option<i128>,
}

/// Why a change of the grid settings was refused.
#[derive(Clone, Copy, Debug, PartialEq, Eq, Structural)]
pub enum GridError {
    /// The caller is not the grid admin.
    Unauthorized,
}

/// The outcome of billing one consumption.
#[derive(Debug)]
pub struct ConsumptionBill {
    /// The amount billed.
    pub final_rate: i128,
    /// The configuration that was applied.
    pub config: LoadConfig,
    /// The user's balance after the debit.
    pub new_balance: i128,
}

/// Hour of the day (UTC) of a ledger timestamp.
pub open spec fn hour_of_day(timestamp: u64) -> int {
    (timestamp / SECONDS_PER_HOUR) as int % 24
}

/// `true` when `timestamp` falls in the evening peak.
pub open spec fn is_peak(timestamp: u64) -> bool {
    PEAK_START_HOUR <= hour_of_day(timestamp) <= PEAK_END_HOUR
}

/// The peak multiplier in force.
pub open spec fn peak_multiplier(grid: GridStorage) -> i128 {
    match grid.peak_load_multiplier {
        Some(m) => m,
        None => DEFAULT_PEAK_LOAD_MULTIPLIER,
    }
}

/// The off-peak discount in force.
pub open spec fn low_discount(grid: GridStorage) -> i128 {
    match grid.low_load_discount {
        Some(d) => d,
        None => DEFAULT_LOW_LOAD_DISCOUNT,
    }
}

/// The amount billed for a consumption at `timestamp`: the base rate times
/// the peak multiplier at peak, and the base rate times the discount divided
/// (toward zero) by one hundred otherwise.
pub open spec fn billed_rate(grid: GridStorage, base_rate: i128, timestamp: u64) -> int {
    if is_peak(timestamp) {
        base_rate * peak_multiplier(grid)
    } else {
        trunc_div(base_rate * low_discount(grid), 100)
    }
}

/// A balance that was never stored counts as zero.
pub open spec fn balance_or_zero(stored_balance: Option<i128>) -> i128 {
    match stored_balance {
        Some(b) => b,
        None => 0,
    }
}

/// `true` when billing does not overflow: the product of rate and multiplier
/// (or discount), and the debited balance, fit in an `i128`.
pub open spec fn billing_defined(
    grid: GridStorage,
    stored_balance: Option<i128>,
    base_rate: i128,
    timestamp: u64,
) -> bool {
    &&& is_peak(timestamp) ==> fits_i128(base_rate * peak_multiplier(grid))
    &&& !is_peak(timestamp) ==> fits_i128(base_rate * low_discount(grid))
    &&& fits_i128(balance_or_zero(stored_balance) - billed_rate(grid, base_rate, timestamp))
}

/// The settings after `admin` sets the peak multiplier, or the refusal.
pub open spec fn after_set_peak_multiplier(
    grid: GridStorage,
    admin: Address,
    multiplier: i128,
) -> Result<GridStorage, GridError> {
    if admin.key@ != grid.grid_admin->Some_0.key@ {
        Err(GridError::Unauthorized)
    } else {
        Ok(GridStorage { peak_load_multiplier: Some(multiplier), ..grid })
    }
}

/// The settings after `admin` sets the off-peak discount, or the refusal.
pub open spec fn after_set_low_discount(
    grid: GridStorage,
    admin: Address,
    discount: i128,
) -> Result<GridStorage, GridError> {
    if admin.key@ != grid.grid_admin->Some_0.key@ {
        Err(GridError::Unauthorized)
    } else {
        Ok(GridStorage { low_load_discount: Some(discount), ..grid })
    }
}

/// `true` when `timestamp` falls in the evening peak.
pub fn is_peak_time(timestamp: u64) -> (r: bool)
    ensures
        r == is_peak(timestamp),
{
    let hour = (timestamp / SECONDS_PER_HOUR) % 24;
    hour >= PEAK_START_HOUR && hour <= PEAK_END_HOUR
}

/// The load configuration in force at `timestamp`.
pub fn load_config_at(grid: &GridStorage, timestamp: u64) -> (c: LoadConfig)
    ensures
        c.peak_load_multiplier == peak_multiplier(*grid),
        c.low_load_discount == low_discount(*grid),
        is_peak(timestamp) ==> c.active_window@ == "peak"@,
        !is_peak(timestamp) ==> c.active_window@ == "offpeak"@,
{
    let peak_load_multiplier = match grid.peak_load_multiplier {
        Some(m) => m,
        None => DEFAULT_PEAK_LOAD_MULTIPLIER,
    };
    let low_load_discount = match grid.low_load_discount {
        Some(d) => d,
        None => DEFAULT_LOW_LOAD_DISCOUNT,
    };
    let active_window = if is_peak_time(timestamp) {
        String::from_str("peak")
    } else {
        String::from_str("offpeak")
    };
    LoadConfig { peak_load_multiplier, low_load_discount, active_window }
}

/// Set the peak multiplier; only the grid admin may. A grid admin must have
/// been stored (the on-chain entry point panics otherwise).
pub fn set_peak_multiplier(grid: &mut GridStorage, admin: &Address, multiplier: i128) -> (r:
    Result<(), GridError>)
    requires
        old(grid).grid_admin is Some,
    ensures
        match after_set_peak_multiplier(*old(grid), *admin, multiplier) {
            Ok(s) => r is Ok && *final(grid) == s,
            Err(e) => r == Err::<(), GridError>(e) && *final(grid) == *old(grid),
        },
{
    let authorized = match &grid.grid_admin {
        Some(stored_admin) => admin.key == stored_admin.key,
        None => false,
    };
    if !authorized {
        return Err(GridError::Unauthorized);
    }
    grid.peak_load_multiplier = Some(multiplier);
    Ok(())
}

/// Set the off-peak discount (a percentage of the base rate); only the grid
/// admin may. A grid admin must have been stored (the on-chain entry point panics
/// otherwise).
pub fn set_low_discount(grid: &mut GridStorage, admin: &Address, discount: i128) -> (r: Result<
    (),
    GridError,
>)
    requires
        old(grid).grid_admin is Some,
    ensures
        match after_set_low_discount(*old(grid), *admin, discount) {
            Ok(s) => r is Ok && *final(grid) == s,
            Err(e) => r == Err::<(), GridError>(e) && *final(grid) == *old(grid),
        },
{
    let authorized = match &grid.grid_admin {
        Some(stored_admin) => admin.key == stored_admin.key,
        None => false,
    };
    if !authorized {
        return Err(GridError::Unauthorized);
    }
    grid.low_load_discount = Some(discount);
    Ok(())
}

/// `true` when `bill_consumption` is defined for these inputs (the on-chain entry point
/// panics on an overflow otherwise).
pub fn billing_is_defined(
    grid: &GridStorage,
    stored_balance: Option<i128>,
    base_rate: i128,
    timestamp: u64,
) -> (r: bool)
    ensures
        r == billing_defined(*grid, stored_balance, base_rate, timestamp),
{
    let config = load_config_at(grid, timestamp);
    let rate = if is_peak_time(timestamp) {
        match base_rate.checked_mul(config.peak_load_multiplier) {
            Some(v) => v,
            None => return false,
        }
    } else {
        match base_rate.checked_mul(config.low_load_discount) {
            Some(v) => div_toward_zero(v, 100),
            None => return false,
        }
    };
    let balance = match stored_balance {
        Some(b) => b,
        None => 0,
    };
    balance.checked_sub(rate).is_some()
}

/// Bill a consumption at `base_rate` at time `timestamp` and debit the user's
/// balance (`stored_balance`, zero when none is stored).
pub fn bill_consumption(
    grid: &GridStorage,
    stored_balance: Option<i128>,
    base_rate: i128,
    timestamp: u64,
) -> (bill: ConsumptionBill)
    requires
        billing_defined(*grid, stored_balance, base_rate, timestamp),
    ensures
        bill.final_rate == billed_rate(*grid, base_rate, timestamp),
        bill.new_balance == balance_or_zero(stored_balance) - bill.final_rate,
        bill.config.peak_load_multiplier == peak_multiplier(*grid),
        bill.config.low_load_discount == low_discount(*grid),
        is_peak(timestamp) ==> bill.config.active_window@ == "peak"@,
        !is_peak(timestamp) ==> bill.config.active_window@ == "offpeak"@,
{
    let config = load_config_at(grid, timestamp);
    let mut final_rate = base_rate;
    if is_peak_time(timestamp) {
        final_rate = final_rate * config.peak_load_multiplier;
    } else {
        final_rate = div_toward_zero(final_rate * config.low_load_discount, 100);
    }
    let balance = match stored_balance {
        Some(b) => b,
        None => 0,
    };
    let new_balance = balance - final_rate;
    ConsumptionBill { final_rate, config, new_balance }
}

/// Only the grid admin changes the settings: any other caller is refused and
/// the settings stay as they were.
pub proof fn law_only_admin_configures(grid: GridStorage, caller: Address, value: i128)
    requires
        grid.grid_admin matches Some(a) && a.key@ != caller.key@,
    ensures
        after_set_peak_multiplier(grid, caller, value) == Err::<GridStorage, GridError>(
            GridError::Unauthorized,
        ),
        after_set_low_discount(grid, caller, value) == Err::<GridStorage, GridError>(
            GridError::Unauthorized,
        ),
{
}

/// A multiplier the admin sets is the one applied to every later peak-hour
/// consumption, and a discount the admin sets is the one applied off-peak;
/// setting one leaves the other alone.
pub proof fn law_settings_apply_to_billing(
    grid: GridStorage,
    admin: Address,
    value: i128,
    base_rate: i128,
    timestamp: u64,
)
    requires
        grid.grid_admin matches Some(a) && a.key@ == admin.key@,
    ensures
        after_set_peak_multiplier(grid, admin, value) matches Ok(s) && {
            &&& is_peak(timestamp) ==> billed_rate(s, base_rate, timestamp) == base_rate * value
            &&& !is_peak(timestamp) ==> billed_rate(s, base_rate, timestamp) == billed_rate(
                grid,
                base_rate,
                timestamp,
            )
        },
        after_set_low_discount(grid, admin, value) matches Ok(s) && {
            &&& !is_peak(timestamp) ==> billed_rate(s, base_rate, timestamp) == trunc_div(
                base_rate * value,
                100,
            )
            &&& is_peak(timestamp) ==> billed_rate(s, base_rate, timestamp) == billed_rate(
                grid,
                base_rate,
                timestamp,
            )
        },
{
}

/// The peak window is the same every day: a timestamp and the same time one
/// day later are billed alike.
pub proof fn law_peak_window_repeats_daily(timestamp: u64)
    requires
        timestamp + 86_400 <= u64::MAX,
    ensures
        is_peak(timestamp) == is_peak((timestamp + 86_400) as u64),
{
    let h = timestamp / 3600;
    assert((timestamp + 86_400) / 3600 == h + 24) by {
        vstd::arithmetic::div_mod::lemma_fundamental_div_mod(timestamp as int, 3600);
        vstd::arithmetic::div_mod::lemma_mod_pos_bound(timestamp as int, 3600);
        vstd::arithmetic::div_mod::lemma_fundamental_div_mod_converse(
            timestamp + 86_400,
            3600,
            h + 24,
            timestamp as int % 3600,
        );
    }
    vstd::arithmetic::div_mod::lemma_mod_add_multiples_vanish(h as int, 24);
}

/// The peak window is exactly the evening from 18:00 up to 23:00 UTC: a
/// timestamp is peak exactly when its second of the day lies in
/// [64 800, 82 800), and every consumption in that window is billed at the
/// base rate times the multiplier, every other one at the discount.
pub proof fn law_peak_window_is_evening(grid: GridStorage, base_rate: i128, t: u64)
    ensures
        is_peak(t) <==> 64_800 <= t % 86_400 < 82_800,
        64_800 <= t % 86_400 < 82_800 ==> billed_rate(grid, base_rate, t) == base_rate
            * peak_multiplier(grid),
        !(64_800 <= t % 86_400 < 82_800) ==> billed_rate(grid, base_rate, t) == trunc_div(
            base_rate * low_discount(grid),
            100,
        ),
{
    let ti = t as int;
    let q = ti / 86_400;
    let sd = ti % 86_400;
    vstd::arithmetic::div_mod::lemma_fundamental_div_mod(ti, 86_400);
    vstd::arithmetic::div_mod::lemma_mod_pos_bound(ti, 86_400);
    let h = sd / 3600;
    let r = sd % 3600;
    vstd::arithmetic::div_mod::lemma_fundamental_div_mod(sd, 3600);
    vstd::arithmetic::div_mod::lemma_mod_pos_bound(sd, 3600);
    assert(ti == (24 * q + h) * 3600 + r);
    vstd::arithmetic::div_mod::lemma_fundamental_div_mod_converse(ti, 3600, 24 * q + h, r);
    assert(0 <= h < 24);
    vstd::arithmetic::div_mod::lemma_fundamental_div_mod_converse(24 * q + h, 24, q, h);
    assert(hour_of_day(t) == h);
}

} // verus!
