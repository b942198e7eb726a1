//! A price oracle: an admin-appointed updater publishes the price of XLM in
//! cents; readers get it back, refuse it once it is older than five minutes,
//! and convert between XLM and cents with it.
//!
//! `PriceOracle` holds the contract's instance storage as plain values. The
//! ledger time is passed in as `now`; checking the signature of the admin or
//! updater, and persisting the storage, are left to the host.

use vstd::prelude::*;

use crate::address::Address;
use crate::arith::{clamp_i128, div_toward_zero, saturating_mul, trunc_div};

verus! {

/// A published price is refused once it is older than this many seconds.
pub const MAX_PRICE_AGE_SECONDS: u64 = 300;

/// A published price.
///
/// The price is in cents per XLM; the conversions multiply and divide by it
/// directly, and `decimals` is carried along for the readers of the price.
#[derive(Clone, Copy, Debug, PartialEq, Eq, Structural)]
pub struct PriceData {
    /// Price in smallest units (e.g. cents per XLM).
    pub price: i128,
    /// Number of decimal places.
    pub decimals: u32,
    /// Ledger time of the last update.
    pub last_updated: u64,
}

/// The keys of the oracle's instance storage.
#[derive(Clone, Copy, Debug, PartialEq, Eq, Structural)]
pub enum DataKey {
    Price,
    Admin,
    Updater,
}

/// The errors the oracle answers with.
#[derive(Clone, Copy, Debug, PartialEq, Eq, Structural)]
pub enum ContractError {
    NotAuthorized,
    InvalidPrice,
    StalePrice,
    NotInitialized,
}

impl ContractError {
    /// The numeric code under which the contract reports the error.
    pub open spec fn spec_code(self) -> u32 {
        match self {
            ContractError::NotAuthorized => 1,
            ContractError::InvalidPrice => 2,
            ContractError::StalePrice => 3,
            ContractError::NotInitialized => 4,
        }
    }

    /// The numeric code under which the contract reports the error.
    pub fn code(&self) -> (c: u32)
        ensures
            c == self.spec_code(),
    {
        match self {
            ContractError::NotAuthorized => 1,
            ContractError::InvalidPrice => 2,
            ContractError::StalePrice => 3,
            ContractError::NotInitialized => 4,
        }
    }
}

/// Seconds elapsed since `p` was published, counted as zero when the ledger
/// clock reads earlier than the publication.
pub open spec fn price_age(p: PriceData, now: u64) -> int {
    if now >= p.last_updated {
        now - p.last_updated
    } else {
        0
    }
}

/// `true` when `p` may still be used at time `now`.
pub open spec fn is_fresh(p: PriceData, now: u64) -> bool {
    price_age(p, now) <= MAX_PRICE_AGE_SECONDS
}

/// Cents worth `xlm_amount` at price `p` (cents per XLM): the product of
/// amount and price, saturated to the range of `i128`.
pub open spec fn xlm_to_usd_value(p: PriceData, xlm_amount: i128) -> i128 {
    clamp_i128(xlm_amount * p.price)
}

/// XLM worth `usd_cents` at price `p` (cents per XLM): the cents divided by
/// the price, rounded toward zero.
pub open spec fn usd_to_xlm_value(p: PriceData, usd_cents: i128) -> int {
    trunc_div(usd_cents as int, p.price as int)
}

/// `true` when the conversion of `usd_cents` at price `p` is defined: the
/// division neither divides by zero nor overflows.
pub open spec fn usd_to_xlm_defined(p: PriceData, usd_cents: i128) -> bool {
    p.price != 0 && !(usd_cents == i128::MIN && p.price == -1)
}

/// The oracle's instance storage.
#[derive(Debug)]
pub struct PriceOracle {
    pub admin: Option<Address>,
    pub updater: Option<Address>,
    pub price: Option<PriceData>,
}

impl PriceOracle {
    /// The storage of an oracle that was initialized and since updated only
    /// through its own operations: admin, updater and price are present
    /// together, and a present price is positive.
    pub open spec fn wf(self) -> bool {
        &&& (self.admin is Some) == (self.updater is Some)
        &&& (self.updater is Some) == (self.price is Some)
        &&& (self.price matches Some(p) ==> p.price > 0)
    }

    /// The stored price, or `NotInitialized`.
    pub open spec fn stored_price(self) -> Result<PriceData, ContractError> {
        match self.price {
            Some(p) => Ok(p),
            None => Err(ContractError::NotInitialized),
        }
    }

    /// The stored price if it is still fresh at `now`.
    pub open spec fn fresh_price(self, now: u64) -> Result<PriceData, ContractError> {
        match self.price {
            Some(p) => if is_fresh(p, now) {
                Ok(p)
            } else {
                Err(ContractError::StalePrice)
            },
            None => Err(ContractError::NotInitialized),
        }
    }

    /// The storage after a successful initialization, or the error.
    pub open spec fn after_initialize(
        self,
        admin: Address,
        updater: Address,
        initial_price: i128,
        decimals: u32,
        now: u64,
    ) -> Result<PriceOracle, ContractError> {
        if initial_price <= 0 {
            Err(ContractError::InvalidPrice)
        } else {
            Ok(
                PriceOracle {
                    admin: Some(admin),
                    updater: Some(updater),
                    price: Some(PriceData { price: initial_price, decimals, last_updated: now }),
                },
            )
        }
    }

    /// The storage after a successful price update, or the error.
    pub open spec fn after_update(self, new_price: i128, now: u64) -> Result<
        PriceOracle,
        ContractError,
    > {
        if self.updater is None {
            Err(ContractError::NotInitialized)
        } else if new_price <= 0 {
            Err(ContractError::InvalidPrice)
        } else {
            match self.price {
                None => Err(ContractError::NotInitialized),
                Some(p) => Ok(
                    PriceOracle {
                        price: Some(
                            PriceData { price: new_price, decimals: p.decimals, last_updated: now },
                        ),
                        ..self
                    },
                ),
            }
        }
    }

    /// The storage after the admin is replaced, or the error.
    pub open spec fn after_set_admin(self, new_admin: Address) -> Result<
        PriceOracle,
        ContractError,
    > {
        if self.admin is None {
            Err(ContractError::NotInitialized)
        } else {
            Ok(PriceOracle { admin: Some(new_admin), ..self })
        }
    }

    /// The storage after the updater is replaced, or the error.
    pub open spec fn after_set_updater(self, new_updater: Address) -> Result<
        PriceOracle,
        ContractError,
    > {
        if self.admin is None {
            Err(ContractError::NotInitialized)
        } else {
            Ok(PriceOracle { updater: Some(new_updater), ..self })
        }
    }

    /// The storage of a freshly deployed oracle: nothing is stored.
    pub fn new() -> (o: PriceOracle)
        ensures
            o.admin is None,
            o.updater is None,
            o.price is None,
            o.wf(),
    {
        PriceOracle { admin: None, updater: None, price: None }
    }

    /// `true` once an admin is stored, that is, once `initialize` succeeded.
    pub fn is_initialized(&self) -> (r: bool)
        ensures
            r == (self.admin is Some),
    {
        self.admin.is_some()
    }

    /// Initialize the oracle with admin and updater addresses and a first
    /// price, published at `now`. An oracle is initialized once: the caller
    /// must not call this on an initialized oracle (the on-chain entry point panics with
    /// "already initialized").
    pub fn initialize(
        &mut self,
        admin: Address,
        updater: Address,
        initial_price: i128,
        decimals: u32,
        now: u64,
    ) -> (r: Result<(), ContractError>)
        requires
            old(self).admin is None,
        ensures
            match old(self).after_initialize(admin, updater, initial_price, decimals, now) {
                Ok(s) => r is Ok && *final(self) == s,
                Err(e) => r == Err::<(), ContractError>(e) && *final(self) == *old(self),
            },
    {
        if initial_price <= 0 {
            return Err(ContractError::InvalidPrice);
        }
        self.admin = Some(admin);
        self.updater = Some(updater);
        self.price = Some(PriceData { price: initial_price, decimals, last_updated: now });
        Ok(())
    }

    /// Publish a new price at `now`, keeping the number of decimals. The host
    /// checks beforehand that the stored updater signed the call.
    pub fn update_price(&mut self, new_price: i128, now: u64) -> (r: Result<(), ContractError>)
        ensures
            match old(self).after_update(new_price, now) {
                Ok(s) => r is Ok && *final(self) == s,
                Err(e) => r == Err::<(), ContractError>(e) && *final(self) == *old(self),
            },
    {
        if self.updater.is_none() {
            return Err(ContractError::NotInitialized);
        }
        if new_price <= 0 {
            return Err(ContractError::InvalidPrice);
        }
        let decimals = match self.get_decimals() {
            Ok(d) => d,
            Err(e) => return Err(e),
        };
        self.price = Some(PriceData { price: new_price, decimals, last_updated: now });
        Ok(())
    }

    /// The current price data.
    pub fn get_price(&self) -> (r: Result<PriceData, ContractError>)
        ensures
            r == self.stored_price(),
    {
        match self.price {
            Some(p) => Ok(p),
            None => Err(ContractError::NotInitialized),
        }
    }

    /// The current price data, refused as `StalePrice` when it was published
    /// more than `MAX_PRICE_AGE_SECONDS` before `now`.
    pub fn get_fresh_price(&self, now: u64) -> (r: Result<PriceData, ContractError>)
        ensures
            r == self.fresh_price(now),
    {
        let price_data = match self.get_price() {
            Ok(p) => p,
            Err(e) => return Err(e),
        };
        if now.saturating_sub(price_data.last_updated) > MAX_PRICE_AGE_SECONDS {
            return Err(ContractError::StalePrice);
        }
        Ok(price_data)
    }

    /// Just the price value.
    pub fn get_price_value(&self) -> (r: Result<i128, ContractError>)
        ensures
            r == (match self.stored_price() {
                Ok(p) => Ok::<i128, ContractError>(p.price),
                Err(e) => Err(e),
            }),
    {
        match self.get_price() {
            Ok(p) => Ok(p.price),
            Err(e) => Err(e),
        }
    }

    /// The number of decimals.
    pub fn get_decimals(&self) -> (r: Result<u32, ContractError>)
        ensures
            r == (match self.stored_price() {
                Ok(p) => Ok::<u32, ContractError>(p.decimals),
                Err(e) => Err(e),
            }),
    {
        match self.get_price() {
            Ok(p) => Ok(p.decimals),
            Err(e) => Err(e),
        }
    }

    /// `true` when `usd_cents_to_xlm` is defined at `now` for `usd_cents` (the
    /// on-chain entry point panics otherwise).
    pub fn usd_conversion_defined(&self, now: u64, usd_cents: i128) -> (r: bool)
        ensures
            r == (self.fresh_price(now) matches Ok(p) ==> usd_to_xlm_defined(p, usd_cents)),
    {
        match self.get_fresh_price(now) {
            Ok(p) => p.price != 0 && !(usd_cents == i128::MIN && p.price == -1),
            Err(_) => true,
        }
    }

    /// Convert an XLM amount to USD cents with the price fresh at `now`.
    pub fn xlm_to_usd_cents(&self, now: u64, xlm_amount: i128) -> (r: Result<i128, ContractError>)
        ensures
            r == (match self.fresh_price(now) {
                Ok(p) => Ok::<i128, ContractError>(xlm_to_usd_value(p, xlm_amount)),
                Err(e) => Err(e),
            }),
    {
        let price_data = match self.get_fresh_price(now) {
            Ok(p) => p,
            Err(e) => return Err(e),
        };
        Ok(saturating_mul(xlm_amount, price_data.price))
    }

    /// Convert USD cents to an XLM amount with the price fresh at `now`.
    pub fn usd_cents_to_xlm(&self, now: u64, usd_cents: i128) -> (r: Result<i128, ContractError>)
        requires
            self.fresh_price(now) matches Ok(p) ==> usd_to_xlm_defined(p, usd_cents),
        ensures
            r == (match self.fresh_price(now) {
                Ok(p) => Ok::<i128, ContractError>(usd_to_xlm_value(p, usd_cents) as i128),
                Err(e) => Err(e),
            }),
            r matches Ok(v) ==> v == usd_to_xlm_value(self.fresh_price(now)->Ok_0, usd_cents),
    {
        let price_data = match self.get_fresh_price(now) {
            Ok(p) => p,
            Err(e) => return Err(e),
        };
        Ok(div_toward_zero(usd_cents, price_data.price))
    }

    /// `true` when the stored price is still fresh at `now`.
    pub fn is_price_fresh(&self, now: u64) -> (r: Result<bool, ContractError>)
        ensures
            r == (match self.stored_price() {
                Ok(p) => Ok::<bool, ContractError>(is_fresh(p, now)),
                Err(e) => Err(e),
            }),
    {
        let price_data = match self.get_price() {
            Ok(p) => p,
            Err(e) => return Err(e),
        };
        Ok(now.saturating_sub(price_data.last_updated) <= MAX_PRICE_AGE_SECONDS)
    }

    /// Replace the admin. The host checks beforehand that the stored admin
    /// signed the call.
    pub fn set_admin(&mut self, new_admin: Address) -> (r: Result<(), ContractError>)
        ensures
            match old(self).after_set_admin(new_admin) {
                Ok(s) => r is Ok && *final(self) == s,
                Err(e) => r == Err::<(), ContractError>(e) && *final(self) == *old(self),
            },
    {
        if self.admin.is_none() {
            return Err(ContractError::NotInitialized);
        }
        self.admin = Some(new_admin);
        Ok(())
    }

    /// Replace the updater. The host checks beforehand that the stored admin
    /// signed the call.
    pub fn set_updater(&mut self, new_updater: Address) -> (r: Result<(), ContractError>)
        ensures
            match old(self).after_set_updater(new_updater) {
                Ok(s) => r is Ok && *final(self) == s,
                Err(e) => r == Err::<(), ContractError>(e) && *final(self) == *old(self),
            },
    {
        if self.admin.is_none() {
            return Err(ContractError::NotInitialized);
        }
        self.updater = Some(new_updater);
        Ok(())
    }

    /// The admin address.
    pub fn get_admin(&self) -> (r: Result<Address, ContractError>)
        ensures
            r == (match self.admin {
                Some(a) => Ok::<Address, ContractError>(a),
                None => Err(ContractError::NotInitialized),
            }),
    {
        match &self.admin {
            Some(a) => Ok(a.clone()),
            None => Err(ContractError::NotInitialized),
        }
    }

    /// The updater address.
    pub fn get_updater(&self) -> (r: Result<Address, ContractError>)
        ensures
            r == (match self.updater {
                Some(a) => Ok::<Address, ContractError>(a),
                None => Err(ContractError::NotInitialized),
            }),
    {
        match &self.updater {
            Some(a) => Ok(a.clone()),
            None => Err(ContractError::NotInitialized),
        }
    }
}

/// Initialization stores what it was given: the admin, the updater, and a
/// price that is fresh at the moment of initialization; the result is a
/// well-formed oracle.
pub proof fn law_initialize_then_read(
    o: PriceOracle,
    admin: Address,
    updater: Address,
    initial_price: i128,
    decimals: u32,
    now: u64,
)
    requires
        initial_price > 0,
    ensures
        o.after_initialize(admin, updater, initial_price, decimals, now) matches Ok(s) && {
            &&& s.admin == Some(admin)
            &&& s.updater == Some(updater)
            &&& s.stored_price() == Ok::<PriceData, ContractError>(
                PriceData { price: initial_price, decimals, last_updated: now },
            )
            &&& s.fresh_price(now) == s.stored_price()
            &&& s.wf()
        },
{
}

/// On an initialized oracle, an update with a positive price succeeds; reading
/// afterwards gives the new price with the old number of decimals, fresh at
/// the time of the update; admin and updater stay as they were.
pub proof fn law_update_then_read(o: PriceOracle, new_price: i128, now: u64)
    requires
        o.wf(),
        o.admin is Some,
        new_price > 0,
    ensures
        o.after_update(new_price, now) matches Ok(s) && {
            &&& s.stored_price() == Ok::<PriceData, ContractError>(
                PriceData {
                    price: new_price,
                    decimals: o.price->Some_0.decimals,
                    last_updated: now,
                },
            )
            &&& s.fresh_price(now) == s.stored_price()
            &&& s.admin == o.admin
            &&& s.updater == o.updater
        },
{
}

/// Every operation that changes the storage keeps a well-formed oracle
/// well-formed, and a freshly deployed oracle is well-formed.
pub proof fn law_operations_preserve_wf(
    o: PriceOracle,
    admin: Address,
    updater: Address,
    price: i128,
    decimals: u32,
    now: u64,
)
    requires
        o.wf(),
    ensures
        o.admin is None ==> (o.after_initialize(admin, updater, price, decimals, now) matches Ok(
            s,
        ) ==> s.wf()),
        o.after_update(price, now) matches Ok(s) ==> s.wf(),
        o.after_set_admin(admin) matches Ok(s) ==> s.wf(),
        o.after_set_updater(updater) matches Ok(s) ==> s.wf(),
        (PriceOracle { admin: None, updater: None, price: None }).wf(),
{
}

/// Changing the admin or the updater leaves the published price alone, and
/// each leaves the other role alone.
pub proof fn law_role_changes_keep_price(o: PriceOracle, a: Address)
    ensures
        o.after_set_admin(a) matches Ok(s) ==> s.price == o.price && s.updater == o.updater,
        o.after_set_updater(a) matches Ok(s) ==> s.price == o.price && s.admin == o.admin,
{
}

/// A price is fresh when it is published, and once it has gone stale it stays
/// stale until the next update.
pub proof fn law_staleness_is_permanent(p: PriceData, t1: u64, t2: u64)
    ensures
        is_fresh(p, p.last_updated),
        !is_fresh(p, t1) && t1 <= t2 ==> !is_fresh(p, t2),
{
}

/// Converting an XLM amount to cents and back gives the amount that went
/// in, as long as the multiplication does not saturate.
pub proof fn law_conversion_round_trip(p: PriceData, xlm_amount: i128)
    requires
        p.price > 0,
        i128::MIN <= xlm_amount * p.price <= i128::MAX,
    ensures
        usd_to_xlm_value(p, xlm_to_usd_value(p, xlm_amount)) == xlm_amount,
{
    let x = xlm_amount as int;
    let pr = p.price as int;
    assert(xlm_to_usd_value(p, xlm_amount) == x * pr);
    if x >= 0 {
        assert(x * pr >= 0) by (nonlinear_arith)
            requires
                x >= 0,
                pr > 0,
        ;
        assert((x * pr) / pr == x) by {
            vstd::arithmetic::div_mod::lemma_div_multiples_vanish(x, pr);
            vstd::arithmetic::mul::lemma_mul_is_commutative(x, pr);
        }
    } else {
        assert(x * pr < 0) by (nonlinear_arith)
            requires
                x < 0,
                pr > 0,
        ;
        assert(-(x * pr) == (-x) * pr) by (nonlinear_arith);
        assert(((-x) * pr) / pr == -x) by {
            vstd::arithmetic::div_mod::lemma_div_multiples_vanish(-x, pr);
            vstd::arithmetic::mul::lemma_mul_is_commutative(-x, pr);
        }
    }
}

/// An oracle is initialized at most once: a successful initialization
/// stores an admin, and no later operation removes it, so `initialize` (which
/// requires that no admin is stored; the on-chain entry point panics with
/// "already initialized" otherwise) is never admitted again. Afterwards only
/// `update_price`, `set_admin` and `set_updater` change the storage.
pub proof fn law_initialized_at_most_once(
    o: PriceOracle,
    admin: Address,
    updater: Address,
    initial_price: i128,
    decimals: u32,
    now: u64,
    new_price: i128,
    new_role: Address,
)
    ensures
        o.after_initialize(admin, updater, initial_price, decimals, now) matches Ok(s)
            ==> s.admin is Some,
        o.admin is Some ==> (o.after_update(new_price, now) matches Ok(s) ==> s.admin is Some),
        o.admin is Some ==> (o.after_set_admin(new_role) matches Ok(s) ==> s.admin is Some),
        o.admin is Some ==> (o.after_set_updater(new_role) matches Ok(s) ==> s.admin is Some),
{
}

} // verus!
