//! Tamper response: when a meter reports physical tampering, the device is
//! flagged, its funds are frozen into an escrow account, and its
//! authorization is revoked.
//!
//! The device's state and its escrow balance are looked up by the host and
//! handed in; the new values are handed back to be stored.

use vstd::prelude::*;

use crate::arith::fits_i128;

verus! {

/// What the contract keeps about a metering device.
#[derive(Clone, Copy, Debug, PartialEq, Eq, Structural)]
pub struct DeviceState {
    pub tamper_flag: bool,
    pub balance: i128,
    pub authorized: bool,
}

/// Why a tamper operation was refused.
#[derive(Clone, Copy, Debug, PartialEq, Eq, Structural)]
pub enum TamperError {
    /// The device was never registered.
    DeviceNotRegistered,
}

/// The outcome of a tamper signal.
#[derive(Clone, Copy, Debug, PartialEq, Eq, Structural)]
pub struct TamperResponse {
    /// The device after the response.
    pub device: DeviceState,
    /// The device's escrow balance after the response.
    pub escrow_balance: i128,
    /// The amount moved from the device into escrow.
    pub frozen_balance: i128,
}

/// An escrow balance that was never stored counts as zero.
pub open spec fn escrow_or_zero(stored_escrow: Option<i128>) -> i128 {
    match stored_escrow {
        Some(e) => e,
        None => 0,
    }
}

/// `true` when moving the device's balance into escrow does not overflow.
pub open spec fn freeze_defined(stored: Option<DeviceState>, stored_escrow: Option<i128>) -> bool {
    stored matches Some(d) ==> fits_i128(escrow_or_zero(stored_escrow) + d.balance)
}

/// The response to a tamper signal, or the refusal.
pub open spec fn tamper_response(
    stored: Option<DeviceState>,
    stored_escrow: Option<i128>,
) -> Result<TamperResponse, TamperError> {
    match stored {
        None => Err(TamperError::DeviceNotRegistered),
        Some(d) => Ok(
            TamperResponse {
                device: DeviceState { tamper_flag: true, balance: 0, authorized: false },
                escrow_balance: (escrow_or_zero(stored_escrow) + d.balance) as i128,
                frozen_balance: d.balance,
            },
        ),
    }
}

/// `true` when `handle_tamper_signal` is defined for these inputs (the
/// on-chain entry point panics on an overflow of the escrow balance
/// otherwise).
pub fn freeze_is_defined(stored: Option<DeviceState>, stored_escrow: Option<i128>) -> (r: bool)
    ensures
        r == freeze_defined(stored, stored_escrow),
{
    match stored {
        None => true,
        Some(d) => {
            let escrow = match stored_escrow {
                Some(e) => e,
                None => 0,
            };
            escrow.checked_add(d.balance).is_some()
        },
    }
}

/// Respond to a tamper signal from a registered device: set its tamper flag,
/// move its whole balance into its escrow account (`stored_escrow`, zero when
/// none is stored), and revoke its authorization.
pub fn handle_tamper_signal(stored: Option<DeviceState>, stored_escrow: Option<i128>) -> (r:
    Result<TamperResponse, TamperError>)
    requires
        freeze_defined(stored, stored_escrow),
    ensures
        r == tamper_response(stored, stored_escrow),
{
    let mut state = match stored {
        Some(s) => s,
        None => return Err(TamperError::DeviceNotRegistered),
    };
    state.tamper_flag = true;
    let frozen_balance = state.balance;
    state.balance = 0;
    let mut escrow_balance = match stored_escrow {
        Some(e) => e,
        None => 0,
    };
    escrow_balance = escrow_balance + frozen_balance;
    state.authorized = false;
    Ok(TamperResponse { device: state, escrow_balance, frozen_balance })
}

/// `true` when a registered device has been flagged for tampering.
pub fn is_blacklisted(stored: Option<DeviceState>) -> (r: Result<bool, TamperError>)
    ensures
        r == (match stored {
            Some(d) => Ok::<bool, TamperError>(d.tamper_flag),
            None => Err(TamperError::DeviceNotRegistered),
        }),
{
    match stored {
        Some(state) => Ok(state.tamper_flag),
        None => Err(TamperError::DeviceNotRegistered),
    }
}

/// Freezing moves funds without creating or destroying any: the device's
/// balance and its escrow together hold as much after a tamper signal as
/// before; the device is left with nothing, flagged, and unauthorized.
pub proof fn law_freeze_conserves_funds(d: DeviceState, stored_escrow: Option<i128>)
    requires
        freeze_defined(Some(d), stored_escrow),
    ensures
        tamper_response(Some(d), stored_escrow) matches Ok(t) && {
            &&& t.device.balance + t.escrow_balance == d.balance + escrow_or_zero(stored_escrow)
            &&& t.device.balance == 0
            &&& t.device.tamper_flag
            &&& !t.device.authorized
            &&& t.frozen_balance == d.balance
        },
{
}

/// A device that reported tampering is blacklisted from then on, and a
/// second tamper signal moves nothing more into escrow.
pub proof fn law_tampered_device_is_blacklisted(d: DeviceState, stored_escrow: Option<i128>)
    requires
        freeze_defined(Some(d), stored_escrow),
    ensures
        tamper_response(Some(d), stored_escrow) matches Ok(t) && {
            &&& t.device.tamper_flag
            &&& tamper_response(Some(t.device), Some(t.escrow_balance)) matches Ok(t2) && {
                &&& t2.frozen_balance == 0
                &&& t2.escrow_balance == t.escrow_balance
                &&& t2.device == t.device
            }
        },
{
}

} // verus!
