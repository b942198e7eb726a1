//! Auto-refill of a streaming balance: when the stream's stable-asset balance
//! falls below a threshold, the missing amount is bought with XLM from a
//! linked backup vault through a DEX path payment.
//!
//! The library decides: whether a refill is needed, which path payment to
//! request, and what the check answers. Querying the vault and executing the
//! payment is outside work done by the host, which hands back the vault's XLM
//! balance and whether the payment succeeded. The caller of a message is
//! passed in.

use vstd::prelude::*;

verus! {

/// An account identifier: thirty-two raw bytes.
#[derive(Debug, Clone, Copy)]
pub struct AccountId {
    pub bytes: [u8; 32],
}

impl PartialEq for AccountId {
    fn eq(&self, other: &AccountId) -> (r: bool) {
        let mut i: usize = 0;
        while i < 32
            invariant
                0 <= i <= 32,
                forall|j: int| 0 <= j < i ==> self.bytes@[j] == other.bytes@[j],
            decreases 32 - i,
        {
            if self.bytes[i] != other.bytes[i] {
                return false;
            }
            i = i + 1;
        }
        assert(self.bytes@ =~= other.bytes@);
        true
    }
}

impl vstd::std_specs::cmp::PartialEqSpecImpl for AccountId {
    open spec fn obeys_eq_spec() -> bool {
        true
    }

    open spec fn eq_spec(&self, other: &AccountId) -> bool {
        self.bytes@ == other.bytes@
    }
}

impl Eq for AccountId {}

/// A DEX path payment: swap `amount` of `from_asset` into `to_asset`.
#[derive(Debug)]
pub struct PathPayment {
    pub from_asset: String,
    pub to_asset: String,
    pub amount: u128,
}

/// The auto-refill configuration of a stream.
#[derive(Debug)]
pub struct AutoRefill {
    /// Linked vault holding backup assets (e.g. XLM).
    pub vault: AccountId,
    /// Primary asset for streaming (e.g. USDC).
    pub stable_asset: String,
    /// Minimum balance threshold before triggering refill.
    pub min_balance: u128,
    /// Owner of the stream.
    pub owner: AccountId,
}

impl AutoRefill {
    /// `true` when the payment `p` is the refill for `current_balance`: the
    /// missing `min_balance - current_balance`, bought with XLM in the stable
    /// asset.
    pub open spec fn is_refill_payment(self, current_balance: u128, p: PathPayment) -> bool {
        &&& p.from_asset@ == "XLM"@
        &&& p.to_asset@ == self.stable_asset@
        &&& p.amount == self.min_balance - current_balance
    }

    /// What a balance check answers, given the vault's XLM balance and
    /// whether the path payment succeeded: nothing to do when
    /// `current_balance` reaches the threshold; otherwise a refill, refused
    /// when the vault holds no XLM or the path payment fails.
    pub open spec fn refill_outcome(
        self,
        current_balance: u128,
        available_xlm: u128,
        payment_succeeded: bool,
    ) -> Result<(), Seq<char>> {
        if current_balance >= self.min_balance {
            Ok(())
        } else if available_xlm == 0 {
            Err("No backup liquidity in vault"@)
        } else if !payment_succeeded {
            Err("DEX path payment failed"@)
        } else {
            Ok(())
        }
    }

    /// The configuration after `caller` sets a new threshold, or the refusal.
    pub open spec fn after_set_min_balance(self, caller: AccountId, new_threshold: u128) -> Result<
        AutoRefill,
        Seq<char>,
    > {
        if caller.bytes@ != self.owner.bytes@ {
            Err("Only owner can update threshold"@)
        } else {
            Ok(AutoRefill { min_balance: new_threshold, ..self })
        }
    }

    /// A new configuration.
    pub fn new(owner: AccountId, vault: AccountId, stable_asset: String, min_balance: u128) -> (s:
        AutoRefill)
        ensures
            s.owner == owner,
            s.vault == vault,
            s.stable_asset == stable_asset,
            s.min_balance == min_balance,
    {
        AutoRefill { vault, stable_asset, min_balance, owner }
    }

    /// The refill a balance of `current_balance` calls for: none at or above
    /// the threshold; below it, a path payment of the missing amount from XLM
    /// into the stable asset. The host queries the vault's XLM balance exactly
    /// when a refill is called for.
    pub fn refill_request(&self, current_balance: u128) -> (r: Option<PathPayment>)
        ensures
            r is Some <==> current_balance < self.min_balance,
            r matches Some(p) ==> self.is_refill_payment(current_balance, p),
    {
        if current_balance >= self.min_balance {
            return None;
        }
        Some(
            PathPayment {
                from_asset: String::from_str("XLM"),
                to_asset: self.stable_asset.clone(),
                amount: self.min_balance - current_balance,
            },
        )
    }

    /// The path payment to execute once the vault has answered with
    /// `available_xlm`: the refill, when one is called for and the vault holds
    /// XLM; none otherwise.
    pub fn payment_to_execute(&self, current_balance: u128, available_xlm: u128) -> (r: Option<
        PathPayment,
    >)
        ensures
            r is Some <==> (current_balance < self.min_balance && available_xlm != 0),
            r matches Some(p) ==> self.is_refill_payment(current_balance, p),
    {
        if available_xlm == 0 {
            return None;
        }
        self.refill_request(current_balance)
    }

    /// Check the balance and answer for the refill of `min_balance -
    /// current_balance` when it is below the threshold, given the vault's XLM
    /// balance (`available_xlm`) and whether the path payment that
    /// `payment_to_execute` asked for succeeded (`payment_succeeded`; ignored
    /// when no payment was asked for). The configuration is not changed.
    pub fn check_and_refill(
        &mut self,
        current_balance: u128,
        available_xlm: u128,
        payment_succeeded: bool,
    ) -> (r: Result<(), String>)
        ensures
            *final(self) == *old(self),
            match old(self).refill_outcome(current_balance, available_xlm, payment_succeeded) {
                Ok(()) => r is Ok,
                Err(m) => r matches Err(e) && e@ == m,
            },
    {
        if current_balance >= self.min_balance {
            return Ok(());
        }
        if available_xlm == 0 {
            return Err(String::from_str("No backup liquidity in vault"));
        }
        if !payment_succeeded {
            return Err(String::from_str("DEX path payment failed"));
        }
        Ok(())
    }

    /// Set a new threshold; only the owner (`caller`) may.
    pub fn set_min_balance(&mut self, caller: AccountId, new_threshold: u128) -> (r: Result<
        (),
        String,
    >)
        ensures
            match old(self).after_set_min_balance(caller, new_threshold) {
                Ok(s) => r is Ok && *final(self) == s,
                Err(m) => (r matches Err(e) && e@ == m) && *final(self) == *old(self),
            },
    {
        if !(caller == self.owner) {
            return Err(String::from_str("Only owner can update threshold"));
        }
        self.min_balance = new_threshold;
        Ok(())
    }
}

/// Only the owner changes the threshold: any other caller is refused and the
/// configuration stays as it was.
pub proof fn law_only_owner_sets_threshold(cfg: AutoRefill, caller: AccountId, threshold: u128)
    ensures
        caller.bytes@ != cfg.owner.bytes@ ==> cfg.after_set_min_balance(caller, threshold) is Err,
        cfg.after_set_min_balance(cfg.owner, threshold) matches Ok(s) && {
            &&& s.min_balance == threshold
            &&& s.owner == cfg.owner
            &&& s.vault == cfg.vault
            &&& s.stable_asset == cfg.stable_asset
        },
{
}

/// A balance at or above the threshold never triggers a refill: no payment is
/// requested and the check succeeds whatever the vault and the DEX would say.
/// Below it, exactly the missing amount is requested from XLM into the stable
/// asset; an empty vault is answered with "No backup liquidity in vault"
/// and no payment, a failed payment with "DEX path payment failed", and a
/// successful one with `Ok`.
pub proof fn law_refill_only_below_threshold(
    cfg: AutoRefill,
    current_balance: u128,
    available_xlm: u128,
    payment_succeeded: bool,
)
    ensures
        current_balance >= cfg.min_balance ==> cfg.refill_outcome(
            current_balance,
            available_xlm,
            payment_succeeded,
        ) is Ok,
        current_balance < cfg.min_balance ==> cfg.min_balance - current_balance > 0,
        current_balance < cfg.min_balance && available_xlm == 0 ==> cfg.refill_outcome(
            current_balance,
            available_xlm,
            payment_succeeded,
        ) == Err::<(), Seq<char>>("No backup liquidity in vault"@),
        current_balance < cfg.min_balance && available_xlm != 0 ==> (cfg.refill_outcome(
            current_balance,
            available_xlm,
            payment_succeeded,
        ) is Ok <==> payment_succeeded),
{
}

} // verus!
