use utility_contracts::continuous_flow::{create_continuous_flow, is_dust_amount, StreamStatus};

#[test]
fn test_dust_detection_logic() {
    // Test the dust detection function directly
    assert!(is_dust_amount(0) == false); // 0 is not dust
    assert!(is_dust_amount(1) == false); // 1 stroop is not dust (equal to minimum increment)
    assert!(is_dust_amount(-1) == false); // negative amounts are not dust
    // Since XLM_MINIMUM_INCREMENT = 1, there's no amount that would be < 1 but > 0
    // This is expected behavior for XLM with 7 decimal places
}

#[test]
fn test_stream_creation_and_dust_detection() {
    // Create a stream
    let stream_id = 1u64;
    let flow = Some(create_continuous_flow(stream_id, 1000, 5000, 0));
    assert!(flow.is_some());

    let flow_data = flow.unwrap();
    assert_eq!(flow_data.stream_id, stream_id);
    assert_eq!(flow_data.flow_rate_per_second, 1000);
    assert_eq!(flow_data.accumulated_balance, 5000);
    assert_eq!(flow_data.status, StreamStatus::Active);
}
