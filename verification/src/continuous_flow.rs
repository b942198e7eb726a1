//! The continuous-flow engine: a stream pays out at a fixed rate per second
//! from its main balance; a pre-paid buffer, held apart from the main balance,
//! keeps the stream flowing once the main balance runs dry. Withdrawals reach
//! the main balance only.
//!
//! Every function works on a `ContinuousFlow` value; the ledger time is
//! passed in, and loading and storing the stream is left to the host.

use vstd::prelude::*;

use crate::arith::{clamp_i128, saturating_add, saturating_mul, saturating_sub};

verus! {

/// The smallest amount of XLM that can be represented (one stroop).
pub const XLM_MINIMUM_INCREMENT: i128 = 1;

/// The state of a stream.
#[derive(Clone, Copy, Debug, PartialEq, Eq, Structural)]
pub enum StreamStatus {
    Active,
    Paused,
    Depleted,
}

/// A continuous payment stream.
#[derive(Clone, Copy, Debug, PartialEq, Eq, Structural)]
pub struct ContinuousFlow {
    pub stream_id: u64,
    /// Amount paid out per second.
    pub flow_rate_per_second: i128,
    /// The main balance, from which the flow is paid and withdrawals are made.
    pub accumulated_balance: i128,
    /// The pre-paid buffer, tapped only when the main balance cannot cover the
    /// flow.
    pub buffer_balance: i128,
    /// Ledger time up to which the flow has been paid.
    pub last_flow_timestamp: u64,
    pub created_timestamp: u64,
    pub status: StreamStatus,
}

/// Why an operation on a stream was refused.
#[derive(Clone, Copy, Debug, PartialEq, Eq, Structural)]
pub enum FlowError {
    /// A deposit or withdrawal that is not positive, or a withdrawal larger
    /// than the main balance.
    InvalidTokenAmount,
    /// The buffer of a depleted stream is not refunded.
    StreamDepleted,
}

/// `true` when `amount` is dust: positive but below the smallest
/// representable amount of XLM.
pub open spec fn spec_is_dust(amount: i128) -> bool {
    0 < amount < XLM_MINIMUM_INCREMENT
}

/// The amount that has flowed out of an active stream between its last
/// payment and `now` (saturated); nothing flows out of a stream that is not
/// active, or when the clock reads earlier than the last payment.
pub open spec fn accumulation(f: ContinuousFlow, now: u64) -> i128 {
    if f.status != StreamStatus::Active || now < f.last_flow_timestamp {
        0
    } else {
        clamp_i128(f.flow_rate_per_second * (now - f.last_flow_timestamp))
    }
}

/// The part of `shortfall` that a buffer of `buffer` covers.
pub open spec fn buffer_draw(buffer: i128, shortfall: i128) -> i128 {
    if buffer <= 0 {
        0
    } else if buffer < shortfall {
        buffer
    } else {
        shortfall
    }
}

/// The stream after paying the flow up to `now`, and the amount paid. The
/// flow is paid from the main balance; what the main balance cannot cover is
/// drawn from the buffer; a stream whose main balance and buffer are both
/// exhausted is depleted, and a paused stream that has money again is active.
pub open spec fn settled(f: ContinuousFlow, now: u64) -> (ContinuousFlow, i128) {
    let a = accumulation(f, now);
    if f.accumulated_balance < a {
        let shortfall = clamp_i128(a - f.accumulated_balance);
        let drawn = buffer_draw(f.buffer_balance, shortfall);
        let buffer = (f.buffer_balance - drawn) as i128;
        (
            ContinuousFlow {
                accumulated_balance: 0,
                buffer_balance: buffer,
                last_flow_timestamp: now,
                status: if buffer == 0 {
                    StreamStatus::Depleted
                } else {
                    f.status
                },
                ..f
            },
            (f.accumulated_balance + drawn) as i128,
        )
    } else {
        let balance = clamp_i128(f.accumulated_balance - a);
        (
            ContinuousFlow {
                accumulated_balance: balance,
                last_flow_timestamp: now,
                status: if balance == 0 && f.buffer_balance == 0 {
                    StreamStatus::Depleted
                } else if f.status == StreamStatus::Paused && balance > 0 {
                    StreamStatus::Active
                } else {
                    f.status
                },
                ..f
            },
            a,
        )
    }
}

/// The status of a stream whose main balance is `balance` and whose buffer is
/// `buffer` after a withdrawal.
pub open spec fn status_after_withdrawal(
    balance: i128,
    buffer: i128,
    status: StreamStatus,
) -> StreamStatus {
    if balance == 0 && buffer == 0 {
        StreamStatus::Depleted
    } else {
        status
    }
}

/// The stream after withdrawing `amount` from its main balance at `now`, or
/// the reason it is refused. The flow is paid up to `now` first; the
/// withdrawal must be positive and covered by the main balance alone.
pub open spec fn after_withdrawal(f: ContinuousFlow, now: u64, amount: i128) -> Result<
    ContinuousFlow,
    FlowError,
> {
    let s = settled(f, now).0;
    if amount <= 0 || s.accumulated_balance < amount {
        Err(FlowError::InvalidTokenAmount)
    } else {
        let balance = (s.accumulated_balance - amount) as i128;
        Ok(
            ContinuousFlow {
                accumulated_balance: balance,
                status: status_after_withdrawal(balance, s.buffer_balance, s.status),
                ..s
            },
        )
    }
}

/// The stream after depositing `amount` into its main balance at `now`, or
/// the reason it is refused. The flow is paid up to `now` first; a stream that
/// has money and a positive rate afterwards is active.
pub open spec fn after_deposit(f: ContinuousFlow, now: u64, amount: i128) -> Result<
    ContinuousFlow,
    FlowError,
> {
    if amount <= 0 {
        Err(FlowError::InvalidTokenAmount)
    } else {
        let s = settled(f, now).0;
        let balance = clamp_i128(s.accumulated_balance + amount);
        Ok(
            ContinuousFlow {
                accumulated_balance: balance,
                status: if balance > 0 && s.flow_rate_per_second > 0 {
                    StreamStatus::Active
                } else {
                    s.status
                },
                ..s
            },
        )
    }
}

/// The stream after its rate is set to `new_rate`: a zero rate pauses it, and
/// a paused stream with money and a non-zero rate becomes active.
pub open spec fn with_rate(f: ContinuousFlow, new_rate: i128) -> ContinuousFlow {
    ContinuousFlow {
        flow_rate_per_second: new_rate,
        status: if new_rate == 0 {
            StreamStatus::Paused
        } else if f.accumulated_balance > 0 && f.status == StreamStatus::Paused {
            StreamStatus::Active
        } else {
            f.status
        },
        ..f
    }
}

/// The stream after `amount` is added to its buffer, or the reason it is
/// refused.
pub open spec fn after_buffer_deposit(f: ContinuousFlow, amount: i128) -> Result<
    ContinuousFlow,
    FlowError,
> {
    if amount <= 0 {
        Err(FlowError::InvalidTokenAmount)
    } else {
        Ok(ContinuousFlow { buffer_balance: clamp_i128(f.buffer_balance + amount), ..f })
    }
}

/// `true` when `amount` is dust: positive but below the smallest representable
/// amount of XLM.
pub fn is_dust_amount(amount: i128) -> (r: bool)
    ensures
        r == spec_is_dust(amount),
{
    amount > 0 && amount < XLM_MINIMUM_INCREMENT
}

/// A new stream created at `current_timestamp` with an empty buffer (the
/// buffer is deposited with `add_buffer_to_flow`), active when it starts with
/// money and paused otherwise.
pub fn create_continuous_flow(
    stream_id: u64,
    flow_rate_per_second: i128,
    initial_balance: i128,
    current_timestamp: u64,
) -> (r: ContinuousFlow)
    ensures
        r == (ContinuousFlow {
            stream_id,
            flow_rate_per_second,
            accumulated_balance: initial_balance,
            buffer_balance: 0,
            last_flow_timestamp: current_timestamp,
            created_timestamp: current_timestamp,
            status: if initial_balance > 0 {
                StreamStatus::Active
            } else {
                StreamStatus::Paused
            },
        }),
{
    ContinuousFlow {
        stream_id,
        flow_rate_per_second,
        accumulated_balance: initial_balance,
        buffer_balance: 0,
        last_flow_timestamp: current_timestamp,
        created_timestamp: current_timestamp,
        status: if initial_balance > 0 {
            StreamStatus::Active
        } else {
            StreamStatus::Paused
        },
    }
}

/// The amount that has flowed out of the stream between its last payment and
/// `current_timestamp`.
pub fn calculate_flow_accumulation(flow: &ContinuousFlow, current_timestamp: u64) -> (r: i128)
    ensures
        r == accumulation(*flow, current_timestamp),
{
    if flow.status != StreamStatus::Active {
        return 0;
    }
    let elapsed_seconds = match current_timestamp.checked_sub(flow.last_flow_timestamp) {
        Some(elapsed) => elapsed,
        None => return 0,
    };
    saturating_mul(flow.flow_rate_per_second, elapsed_seconds as i128)
}

/// Pay the flow up to `current_timestamp`; returns the amount paid.
pub fn update_continuous_flow(flow: &mut ContinuousFlow, current_timestamp: u64) -> (r: i128)
    ensures
        (*final(flow), r) == settled(*old(flow), current_timestamp),
{
    let accumulation = calculate_flow_accumulation(flow, current_timestamp);
    if flow.accumulated_balance < accumulation {
        let shortfall = saturating_sub(accumulation, flow.accumulated_balance);
        let drawn = if flow.buffer_balance <= 0 {
            0
        } else if flow.buffer_balance < shortfall {
            flow.buffer_balance
        } else {
            shortfall
        };
        let deducted = flow.accumulated_balance + drawn;
        flow.buffer_balance = flow.buffer_balance - drawn;
        flow.accumulated_balance = 0;
        flow.last_flow_timestamp = current_timestamp;
        if flow.buffer_balance == 0 {
            flow.status = StreamStatus::Depleted;
        }
        return deducted;
    }
    flow.accumulated_balance = saturating_sub(flow.accumulated_balance, accumulation);
    flow.last_flow_timestamp = current_timestamp;
    if flow.accumulated_balance == 0 && flow.buffer_balance == 0 {
        flow.status = StreamStatus::Depleted;
    } else if flow.status == StreamStatus::Paused && flow.accumulated_balance > 0 {
        flow.status = StreamStatus::Active;
    }
    accumulation
}

/// Set the stream's rate.
pub fn update_flow_rate(flow: &mut ContinuousFlow, new_flow_rate: i128)
    ensures
        *final(flow) == with_rate(*old(flow), new_flow_rate),
{
    flow.flow_rate_per_second = new_flow_rate;
    if new_flow_rate == 0 {
        flow.status = StreamStatus::Paused;
    } else if flow.accumulated_balance > 0 && flow.status == StreamStatus::Paused {
        flow.status = StreamStatus::Active;
    }
}

/// Deposit into the stream's main balance at `current_timestamp`. A refused
/// deposit leaves the stream as it was.
pub fn add_balance_to_flow(
    flow: &mut ContinuousFlow,
    current_timestamp: u64,
    additional_balance: i128,
) -> (r: Result<(), FlowError>)
    ensures
        match after_deposit(*old(flow), current_timestamp, additional_balance) {
            Ok(s) => r is Ok && *final(flow) == s,
            Err(e) => r == Err::<(), FlowError>(e) && *final(flow) == *old(flow),
        },
{
    if additional_balance <= 0 {
        return Err(FlowError::InvalidTokenAmount);
    }
    let mut updated = *flow;
    update_continuous_flow(&mut updated, current_timestamp);
    updated.accumulated_balance = saturating_add(updated.accumulated_balance, additional_balance);
    if updated.accumulated_balance > 0 && updated.flow_rate_per_second > 0 {
        updated.status = StreamStatus::Active;
    }
    *flow = updated;
    Ok(())
}

/// Withdraw `withdrawal_amount` from the stream's main balance at
/// `current_timestamp`; returns the amount withdrawn. The buffer is never
/// reached by a withdrawal. A refused withdrawal leaves the stream as it was.
pub fn withdraw_from_flow(
    flow: &mut ContinuousFlow,
    current_timestamp: u64,
    withdrawal_amount: i128,
) -> (r: Result<i128, FlowError>)
    ensures
        match after_withdrawal(*old(flow), current_timestamp, withdrawal_amount) {
            Ok(s) => r == Ok::<i128, FlowError>(withdrawal_amount) && *final(flow) == s,
            Err(e) => r == Err::<i128, FlowError>(e) && *final(flow) == *old(flow),
        },
{
    if withdrawal_amount <= 0 {
        return Err(FlowError::InvalidTokenAmount);
    }
    let mut updated = *flow;
    update_continuous_flow(&mut updated, current_timestamp);
    if updated.accumulated_balance < withdrawal_amount {
        return Err(FlowError::InvalidTokenAmount);
    }
    updated.accumulated_balance = updated.accumulated_balance - withdrawal_amount;
    if updated.accumulated_balance == 0 && updated.buffer_balance == 0 {
        updated.status = StreamStatus::Depleted;
    }
    *flow = updated;
    Ok(withdrawal_amount)
}

/// Add to the stream's buffer. A refused deposit leaves the stream as it was.
pub fn add_buffer_to_flow(flow: &mut ContinuousFlow, amount: i128) -> (r: Result<(), FlowError>)
    ensures
        match after_buffer_deposit(*old(flow), amount) {
            Ok(s) => r is Ok && *final(flow) == s,
            Err(e) => r == Err::<(), FlowError>(e) && *final(flow) == *old(flow),
        },
{
    if amount <= 0 {
        return Err(FlowError::InvalidTokenAmount);
    }
    flow.buffer_balance = saturating_add(flow.buffer_balance, amount);
    Ok(())
}

/// Close the stream amicably: the whole buffer is handed back (the returned
/// amount) and the stream stops flowing. The buffer of a depleted stream is
/// not refunded.
pub fn refund_buffer(flow: &mut ContinuousFlow) -> (r: Result<i128, FlowError>)
    ensures
        old(flow).status == StreamStatus::Depleted ==> r == Err::<i128, FlowError>(
            FlowError::StreamDepleted,
        ) && *final(flow) == *old(flow),
        old(flow).status != StreamStatus::Depleted ==> r == Ok::<i128, FlowError>(
            old(flow).buffer_balance,
        ) && *final(flow) == (ContinuousFlow {
            buffer_balance: 0,
            status: StreamStatus::Paused,
            ..*old(flow)
        }),
{
    if flow.status == StreamStatus::Depleted {
        return Err(FlowError::StreamDepleted);
    }
    let refunded = flow.buffer_balance;
    flow.buffer_balance = 0;
    flow.status = StreamStatus::Paused;
    Ok(refunded)
}

/// A withdrawal is taken from the main balance alone: once the flow is paid
/// up to the time of the withdrawal, the buffer is exactly as the payment left
/// it, the main balance drops by the amount withdrawn, and a withdrawal larger
/// than the main balance is refused however large the buffer.
pub proof fn law_withdrawal_never_touches_buffer(f: ContinuousFlow, now: u64, amount: i128)
    ensures
        after_withdrawal(f, now, amount) matches Ok(s) ==> {
            &&& s.buffer_balance == settled(f, now).0.buffer_balance
            &&& s.accumulated_balance == settled(f, now).0.accumulated_balance - amount
        },
        settled(f, now).0.accumulated_balance < amount ==> after_withdrawal(f, now, amount)
            == Err::<ContinuousFlow, FlowError>(FlowError::InvalidTokenAmount),
{
}

/// No operation makes a non-negative buffer negative (a new stream starts
/// with an empty buffer).
pub proof fn law_buffer_never_negative(f: ContinuousFlow, now: u64, amount: i128, rate: i128)
    requires
        f.buffer_balance >= 0,
    ensures
        settled(f, now).0.buffer_balance >= 0,
        after_withdrawal(f, now, amount) matches Ok(s) ==> s.buffer_balance >= 0,
        after_deposit(f, now, amount) matches Ok(s) ==> s.buffer_balance >= 0,
        after_buffer_deposit(f, amount) matches Ok(s) ==> s.buffer_balance >= 0,
        with_rate(f, rate).buffer_balance >= 0,
{
}

/// A stream whose main balance and buffer are both exhausted by paying the
/// flow or by a withdrawal is depleted.
pub proof fn law_exhausted_stream_is_depleted(f: ContinuousFlow, now: u64, amount: i128)
    ensures
        settled(f, now).0.accumulated_balance == 0 && settled(f, now).0.buffer_balance == 0
            ==> settled(f, now).0.status == StreamStatus::Depleted,
        after_withdrawal(f, now, amount) matches Ok(s) ==> (s.accumulated_balance == 0
            && s.buffer_balance == 0 ==> s.status == StreamStatus::Depleted),
{
}

/// Paying the flow moves money out and nowhere else: for a stream with a
/// non-negative rate, main balance and buffer, what was held before equals
/// what is held after plus what was paid, the amount paid is never negative,
/// and the buffer only shrinks.
pub proof fn law_settlement_conserves_funds(f: ContinuousFlow, now: u64)
    requires
        f.flow_rate_per_second >= 0,
        f.accumulated_balance >= 0,
        f.buffer_balance >= 0,
    ensures
        f.accumulated_balance + f.buffer_balance == settled(f, now).0.accumulated_balance
            + settled(f, now).0.buffer_balance + settled(f, now).1,
        settled(f, now).1 >= 0,
        settled(f, now).0.buffer_balance <= f.buffer_balance,
{
    let elapsed = now - f.last_flow_timestamp;
    if f.status == StreamStatus::Active && now >= f.last_flow_timestamp {
        assert(f.flow_rate_per_second * elapsed >= 0) by (nonlinear_arith)
            requires
                f.flow_rate_per_second >= 0,
                elapsed >= 0,
        ;
    }
}

/// Without time passing nothing flows: paying a stream up to its own last
/// payment time pays nothing and leaves its balances as they were.
pub proof fn law_no_flow_without_time(f: ContinuousFlow)
    requires
        f.accumulated_balance >= 0,
    ensures
        settled(f, f.last_flow_timestamp).1 == 0,
        settled(f, f.last_flow_timestamp).0.accumulated_balance == f.accumulated_balance,
        settled(f, f.last_flow_timestamp).0.buffer_balance == f.buffer_balance,
{
}

/// A depleted stream stays depleted and pays nothing, however much time
/// passes.
pub proof fn law_depleted_stream_stays_depleted(f: ContinuousFlow, now: u64)
    requires
        f.status == StreamStatus::Depleted,
        f.accumulated_balance >= 0,
    ensures
        settled(f, now) == (ContinuousFlow { last_flow_timestamp: now, ..f }, 0i128),
{
}

/// Settling always brings the stream's clock to the settlement time, so
/// settling a second time at the same moment pays nothing and leaves the
/// balances alone (a second is never charged twice).
pub proof fn law_settlement_advances_clock(f: ContinuousFlow, now: u64)
    ensures
        settled(f, now).0.last_flow_timestamp == now,
        settled(f, now).0.accumulated_balance >= 0 ==> {
            let g = settled(f, now).0;
            &&& settled(g, now).1 == 0
            &&& settled(g, now).0.accumulated_balance == g.accumulated_balance
            &&& settled(g, now).0.buffer_balance == g.buffer_balance
        },
{
}

/// Settlement is additive in time: for an active stream with a non-negative
/// rate, main balance and buffer, settling up to `t1` and then up to `t2`
/// pays in total exactly what settling straight up to `t2` pays, and leaves
/// the same main balance, the same buffer, and the clock at `t2` (as long as
/// the flow owed up to `t2` does not saturate).
pub proof fn law_settlement_is_additive_in_time(f: ContinuousFlow, t1: u64, t2: u64)
    requires
        f.status == StreamStatus::Active,
        f.last_flow_timestamp <= t1 <= t2,
        f.flow_rate_per_second >= 0,
        f.accumulated_balance >= 0,
        f.buffer_balance >= 0,
        f.flow_rate_per_second * (t2 - f.last_flow_timestamp) <= i128::MAX,
    ensures
        settled(f, t1).1 + settled(settled(f, t1).0, t2).1 == settled(f, t2).1,
        settled(settled(f, t1).0, t2).0.accumulated_balance == settled(f, t2).0.accumulated_balance,
        settled(settled(f, t1).0, t2).0.buffer_balance == settled(f, t2).0.buffer_balance,
        settled(settled(f, t1).0, t2).0.last_flow_timestamp == t2,
        settled(f, t2).0.last_flow_timestamp == t2,
{
    let r = f.flow_rate_per_second as int;
    let e1 = t1 - f.last_flow_timestamp;
    let e2 = t2 - t1;
    let e = t2 - f.last_flow_timestamp;
    assert(r * e == r * e1 + r * e2) by (nonlinear_arith)
        requires
            e == e1 + e2,
    ;
    assert(r * e1 >= 0 && r * e2 >= 0) by (nonlinear_arith)
        requires
            r >= 0,
            e1 >= 0,
            e2 >= 0,
    ;
    assert(accumulation(f, t1) == r * e1);
    assert(accumulation(f, t2) == r * e);
    let g = settled(f, t1).0;
    if g.status == StreamStatus::Active {
        assert(accumulation(g, t2) == r * e2);
    } else {
        assert(accumulation(g, t2) == 0);
    }
}

/// A deposit first pays the flow owed up to the time of the deposit: for an
/// active stream with a non-negative rate that its main balance covers, the
/// main balance after depositing `amount` at `now` is the old balance, minus
/// the rate times the seconds elapsed, plus `amount`; the buffer is untouched
/// and the clock moves to `now`.
pub proof fn law_deposit_settles_first(f: ContinuousFlow, now: u64, amount: i128)
    requires
        f.status == StreamStatus::Active,
        f.last_flow_timestamp <= now,
        f.flow_rate_per_second >= 0,
        amount > 0,
        f.flow_rate_per_second * (now - f.last_flow_timestamp) <= f.accumulated_balance,
        f.accumulated_balance - f.flow_rate_per_second * (now - f.last_flow_timestamp) + amount
            <= i128::MAX,
    ensures
        after_deposit(f, now, amount) matches Ok(s) && {
            &&& s.accumulated_balance == f.accumulated_balance - f.flow_rate_per_second * (now
                - f.last_flow_timestamp) + amount
            &&& s.buffer_balance == f.buffer_balance
            &&& s.last_flow_timestamp == now
            &&& s.flow_rate_per_second == f.flow_rate_per_second
        },
{
    let r = f.flow_rate_per_second as int;
    let e = now - f.last_flow_timestamp;
    assert(r * e >= 0) by (nonlinear_arith)
        requires
            r >= 0,
            e >= 0,
    ;
    assert(accumulation(f, now) == r * e);
}

/// Changing the rate changes only the rate and, through it, whether the
/// stream flows: a zero rate pauses the stream; a non-zero rate never pauses
/// it (an active stream stays active and a depleted one stays depleted) and
/// restarts a paused stream exactly when it has money; balances, buffer and
/// clock are untouched, and later settlements charge at the new rate.
pub proof fn law_rate_change(f: ContinuousFlow, new_rate: i128, now: u64)
    ensures
        with_rate(f, new_rate).flow_rate_per_second == new_rate,
        with_rate(f, new_rate).accumulated_balance == f.accumulated_balance,
        with_rate(f, new_rate).buffer_balance == f.buffer_balance,
        with_rate(f, new_rate).last_flow_timestamp == f.last_flow_timestamp,
        new_rate == 0 ==> with_rate(f, new_rate).status == StreamStatus::Paused,
        new_rate != 0 && f.status == StreamStatus::Active ==> with_rate(f, new_rate).status
            == StreamStatus::Active,
        new_rate != 0 && f.status == StreamStatus::Depleted ==> with_rate(f, new_rate).status
            == StreamStatus::Depleted,
        new_rate != 0 && f.status == StreamStatus::Paused ==> (with_rate(f, new_rate).status
            == StreamStatus::Active <==> f.accumulated_balance > 0),
        new_rate != 0 && f.status == StreamStatus::Paused ==> with_rate(f, new_rate).status
            != StreamStatus::Depleted,
        new_rate != 0 && f.status == StreamStatus::Active && f.last_flow_timestamp <= now
            ==> accumulation(with_rate(f, new_rate), now) == clamp_i128(
            new_rate * (now - f.last_flow_timestamp),
        ),
{
}

} // verus!
