use utility_contracts::tamper_detection::{
    freeze_is_defined, handle_tamper_signal, is_blacklisted, DeviceState, TamperError,
};

#[test]
fn tamper_signal_freezes_funds() {
    let device = DeviceState { tamper_flag: false, balance: 750, authorized: true };
    assert_eq!(is_blacklisted(Some(device)), Ok(false));
    let response = handle_tamper_signal(Some(device), Some(250)).unwrap();
    assert_eq!(response.frozen_balance, 750);
    assert_eq!(response.escrow_balance, 1_000);
    assert_eq!(
        response.device,
        DeviceState { tamper_flag: true, balance: 0, authorized: false }
    );
    assert_eq!(is_blacklisted(Some(response.device)), Ok(true));

    let again = handle_tamper_signal(Some(response.device), Some(response.escrow_balance)).unwrap();
    assert_eq!(again.frozen_balance, 0);
    assert_eq!(again.escrow_balance, 1_000);
}

#[test]
fn unknown_device_is_refused() {
    assert_eq!(handle_tamper_signal(None, Some(5)), Err(TamperError::DeviceNotRegistered));
    assert_eq!(is_blacklisted(None), Err(TamperError::DeviceNotRegistered));
}

#[test]
fn escrow_starts_at_zero() {
    let device = DeviceState { tamper_flag: false, balance: 40, authorized: true };
    assert_eq!(handle_tamper_signal(Some(device), None).unwrap().escrow_balance, 40);
    let rich = DeviceState { tamper_flag: false, balance: i128::MAX, authorized: true };
    assert!(!freeze_is_defined(Some(rich), Some(1)));
    assert!(freeze_is_defined(Some(rich), None));
}
