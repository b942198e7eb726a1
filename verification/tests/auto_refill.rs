use utility_contracts::auto_refill::{AccountId, AutoRefill};

fn id(b: u8) -> AccountId {
    AccountId { bytes: [b; 32] }
}

#[test]
fn refill_check() {
    let mut cfg = AutoRefill::new(id(1), id(2), "USDC".to_string(), 500);
    assert!(cfg.refill_request(500).is_none());
    assert_eq!(cfg.check_and_refill(500, 0, false), Ok(()));
    assert_eq!(cfg.check_and_refill(10, 1000, true), Ok(()));
    assert_eq!(cfg.min_balance, 500);
    assert_eq!(cfg.stable_asset, "USDC");
}

#[test]
fn refill_requests_the_missing_amount() {
    let mut cfg = AutoRefill::new(id(1), id(2), "USDC".to_string(), 100);
    let request = cfg.refill_request(40).unwrap();
    assert_eq!(request.from_asset, "XLM");
    assert_eq!(request.to_asset, "USDC");
    assert_eq!(request.amount, 60);
    let payment = cfg.payment_to_execute(40, 1000).unwrap();
    assert_eq!(payment.amount, 60);
    assert_eq!(cfg.check_and_refill(40, 1000, true), Ok(()));
    assert_eq!(cfg.min_balance, 100);
}

#[test]
fn refill_failures() {
    let mut cfg = AutoRefill::new(id(1), id(2), "USDC".to_string(), 100);
    assert!(cfg.payment_to_execute(40, 0).is_none());
    assert_eq!(
        cfg.check_and_refill(40, 0, false),
        Err("No backup liquidity in vault".to_string())
    );
    assert_eq!(
        cfg.check_and_refill(40, 5, false),
        Err("DEX path payment failed".to_string())
    );
    assert!(cfg.payment_to_execute(100, 1000).is_none());
}

#[test]
fn only_owner_sets_threshold() {
    let mut cfg = AutoRefill::new(id(1), id(2), "USDC".to_string(), 500);
    assert_eq!(
        cfg.set_min_balance(id(3), 10),
        Err("Only owner can update threshold".to_string())
    );
    assert_eq!(cfg.min_balance, 500);
    assert_eq!(cfg.set_min_balance(id(1), 10), Ok(()));
    assert_eq!(cfg.min_balance, 10);
    let mut other = id(1);
    other.bytes[31] = 0;
    assert!(cfg.set_min_balance(other, 99).is_err());
}
