use utility_contracts::address::Address;
use utility_contracts::energy_grid::{
    bill_consumption, billing_is_defined, is_peak_time, load_config_at, set_low_discount,
    set_peak_multiplier, GridError, GridStorage,
};

fn addr(key: &str) -> Address {
    Address::new(key.to_string())
}

fn grid() -> GridStorage {
    GridStorage { grid_admin: Some(addr("GGRIDADMIN")), peak_load_multiplier: None, low_load_discount: None }
}

const HOUR: u64 = 3600;

#[test]
fn peak_hours_are_eighteen_to_twenty_two() {
    assert!(!is_peak_time(17 * HOUR + 3599));
    assert!(is_peak_time(18 * HOUR));
    assert!(is_peak_time(22 * HOUR + 3599));
    assert!(!is_peak_time(23 * HOUR));
    // the next day repeats the pattern
    assert!(is_peak_time(24 * HOUR + 19 * HOUR));
    assert!(!is_peak_time(24 * HOUR + 3 * HOUR));
}

#[test]
fn default_billing() {
    let g = grid();
    let peak = bill_consumption(&g, None, 100, 19 * HOUR);
    assert_eq!(peak.final_rate, 200);
    assert_eq!(peak.new_balance, -200);
    assert_eq!(peak.config.active_window, "peak");
    let off = bill_consumption(&g, Some(1_000), 250, 9 * HOUR);
    // 250 * 1 / 100, rounded toward zero
    assert_eq!(off.final_rate, 2);
    assert_eq!(off.new_balance, 998);
    assert_eq!(off.config.active_window, "offpeak");
    assert_eq!(off.config.peak_load_multiplier, 2);
    assert_eq!(off.config.low_load_discount, 1);
}

#[test]
fn negative_rates_round_toward_zero() {
    let g = grid();
    let off = bill_consumption(&g, Some(0), -250, 9 * HOUR);
    assert_eq!(off.final_rate, -2);
    assert_eq!(off.new_balance, 2);
}

#[test]
fn admin_settings_apply() {
    let mut g = grid();
    assert_eq!(set_peak_multiplier(&mut g, &addr("GGRIDADMIN"), 3), Ok(()));
    assert_eq!(set_low_discount(&mut g, &addr("GGRIDADMIN"), 80), Ok(()));
    assert_eq!(bill_consumption(&g, Some(0), 100, 20 * HOUR).final_rate, 300);
    assert_eq!(bill_consumption(&g, Some(0), 100, 2 * HOUR).final_rate, 80);
    let cfg = load_config_at(&g, 2 * HOUR);
    assert_eq!(cfg.peak_load_multiplier, 3);
    assert_eq!(cfg.low_load_discount, 80);
}

#[test]
fn others_cannot_configure() {
    let mut g = grid();
    assert_eq!(set_peak_multiplier(&mut g, &addr("GMALLORY"), 9), Err(GridError::Unauthorized));
    assert_eq!(set_low_discount(&mut g, &addr("GMALLORY"), 9), Err(GridError::Unauthorized));
    assert_eq!(g.peak_load_multiplier, None);
    assert_eq!(g.low_load_discount, None);
}

#[test]
fn billing_overflow_is_detected() {
    let g = grid();
    assert!(!billing_is_defined(&g, None, i128::MAX, 19 * HOUR));
    assert!(billing_is_defined(&g, None, i128::MAX / 2, 19 * HOUR));
    assert!(!billing_is_defined(&g, Some(i128::MIN), 100, 19 * HOUR));
    assert!(billing_is_defined(&g, Some(0), i128::MAX, 9 * HOUR));
    assert!(!billing_is_defined(&g, Some(i128::MAX), -10_000, 9 * HOUR));
}
