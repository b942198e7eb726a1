use utility_contracts::continuous_flow::{
    add_balance_to_flow, add_buffer_to_flow, calculate_flow_accumulation,
    create_continuous_flow, refund_buffer, update_continuous_flow,
    update_flow_rate, withdraw_from_flow, ContinuousFlow, FlowError, StreamStatus,
};

fn flow(rate: i128, balance: i128, buffer: i128, status: StreamStatus) -> ContinuousFlow {
    ContinuousFlow {
        stream_id: 7,
        flow_rate_per_second: rate,
        accumulated_balance: balance,
        buffer_balance: buffer,
        last_flow_timestamp: 100,
        created_timestamp: 100,
        status,
    }
}

#[test]
fn flow_creation() {
    let f = create_continuous_flow(1, 10, 0, 5);
    assert_eq!(f.status, StreamStatus::Paused);
    assert_eq!(f.buffer_balance, 0);
    assert_eq!(f.last_flow_timestamp, 5);
    assert_eq!(f.created_timestamp, 5);
    let g = create_continuous_flow(2, 10, 1, 5);
    assert_eq!(g.status, StreamStatus::Active);
}

#[test]
fn flow_accumulation() {
    assert_eq!(calculate_flow_accumulation(&flow(10, 0, 0, StreamStatus::Active), 105), 50);
    assert_eq!(calculate_flow_accumulation(&flow(10, 0, 0, StreamStatus::Paused), 105), 0);
    assert_eq!(calculate_flow_accumulation(&flow(10, 0, 0, StreamStatus::Active), 99), 0);
    assert_eq!(
        calculate_flow_accumulation(&flow(i128::MAX, 0, 0, StreamStatus::Active), 102),
        i128::MAX
    );
}

#[test]
fn flow_settlement_from_main_balance() {
    let mut f = flow(10, 1_000, 500, StreamStatus::Active);
    assert_eq!(update_continuous_flow(&mut f, 110), 100);
    assert_eq!(f.accumulated_balance, 900);
    assert_eq!(f.buffer_balance, 500);
    assert_eq!(f.last_flow_timestamp, 110);
    assert_eq!(f.status, StreamStatus::Active);
}

#[test]
fn flow_settlement_taps_buffer_then_depletes() {
    let mut f = flow(10, 30, 500, StreamStatus::Active);
    // 100 due: 30 from the main balance, 70 from the buffer
    assert_eq!(update_continuous_flow(&mut f, 110), 100);
    assert_eq!(f.accumulated_balance, 0);
    assert_eq!(f.buffer_balance, 430);
    assert_eq!(f.status, StreamStatus::Active);
    // 1000 due, only the 430 left in the buffer is paid
    assert_eq!(update_continuous_flow(&mut f, 210), 430);
    assert_eq!(f.buffer_balance, 0);
    assert_eq!(f.status, StreamStatus::Depleted);
    // a depleted stream pays nothing more
    assert_eq!(update_continuous_flow(&mut f, 10_000), 0);
    assert_eq!(f.status, StreamStatus::Depleted);
}

#[test]
fn flow_settlement_without_buffer_depletes_at_once() {
    let mut f = flow(10, 30, 0, StreamStatus::Active);
    assert_eq!(update_continuous_flow(&mut f, 110), 30);
    assert_eq!(f.accumulated_balance, 0);
    assert_eq!(f.status, StreamStatus::Depleted);
}

#[test]
fn withdrawal_uses_main_balance_only() {
    let mut f = flow(10, 1_000, 5_000, StreamStatus::Active);
    let before = f;
    // 900 remain after paying 100; the buffer cannot make up the difference
    assert_eq!(
        withdraw_from_flow(&mut f, 110, 901),
        Err(FlowError::InvalidTokenAmount)
    );
    assert_eq!(f, before);
    assert_eq!(withdraw_from_flow(&mut f, 110, 0), Err(FlowError::InvalidTokenAmount));
    assert_eq!(withdraw_from_flow(&mut f, 110, 900), Ok(900));
    assert_eq!(f.accumulated_balance, 0);
    assert_eq!(f.buffer_balance, 5_000);
    assert_eq!(f.status, StreamStatus::Active);
}

#[test]
fn withdrawal_emptying_everything_depletes() {
    let mut f = flow(0, 400, 0, StreamStatus::Paused);
    assert_eq!(withdraw_from_flow(&mut f, 500, 400), Ok(400));
    assert_eq!(f.status, StreamStatus::Depleted);
}

#[test]
fn deposit_reactivates_stream() {
    let mut f = flow(10, 0, 0, StreamStatus::Paused);
    assert_eq!(
        add_balance_to_flow(&mut f, 120, -3),
        Err(FlowError::InvalidTokenAmount)
    );
    assert_eq!(add_balance_to_flow(&mut f, 120, 250), Ok(()));
    assert_eq!(f.accumulated_balance, 250);
    assert_eq!(f.status, StreamStatus::Active);
    assert_eq!(f.last_flow_timestamp, 120);
}

#[test]
fn rate_changes() {
    let mut f = flow(10, 50, 0, StreamStatus::Active);
    update_flow_rate(&mut f, 0);
    assert_eq!(f.status, StreamStatus::Paused);
    update_flow_rate(&mut f, 4);
    assert_eq!(f.status, StreamStatus::Active);
    assert_eq!(f.flow_rate_per_second, 4);
}

#[test]
fn buffer_deposit_and_refund() {
    let mut f = flow(10, 50, 100, StreamStatus::Active);
    assert_eq!(add_buffer_to_flow(&mut f, 0), Err(FlowError::InvalidTokenAmount));
    assert_eq!(add_buffer_to_flow(&mut f, 25), Ok(()));
    assert_eq!(f.buffer_balance, 125);
    assert_eq!(refund_buffer(&mut f), Ok(125));
    assert_eq!(f.buffer_balance, 0);
    assert_eq!(f.status, StreamStatus::Paused);

    let mut d = flow(10, 0, 0, StreamStatus::Depleted);
    assert_eq!(refund_buffer(&mut d), Err(FlowError::StreamDepleted));
}

#[test]
fn settlement_conserves_funds() {
    let mut f = flow(7, 40, 90, StreamStatus::Active);
    let paid = update_continuous_flow(&mut f, 115);
    assert_eq!(40 + 90, f.accumulated_balance + f.buffer_balance + paid);
}

#[test]
fn no_flow_without_time() {
    let mut f = flow(25, 300, 40, StreamStatus::Active);
    assert_eq!(update_continuous_flow(&mut f, 100), 0);
    assert_eq!(f.accumulated_balance, 300);
    assert_eq!(f.buffer_balance, 40);
}
