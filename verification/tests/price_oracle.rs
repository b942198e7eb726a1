use utility_contracts::address::Address;
use utility_contracts::price_oracle::{ContractError, PriceData, PriceOracle, MAX_PRICE_AGE_SECONDS};

fn addr(key: &str) -> Address {
    Address::new(key.to_string())
}

fn initialized(price: i128, decimals: u32, now: u64) -> PriceOracle {
    let mut oracle = PriceOracle::new();
    oracle
        .initialize(addr("GADMIN"), addr("GUPDATER"), price, decimals, now)
        .unwrap();
    oracle
}

#[test]
fn test_initialization() {
    let mut oracle = PriceOracle::new();
    let admin = addr("GADMINADDRESS");
    let updater = addr("GUPDATERADDRESS");
    let initial_price = 150; // $1.50 per XLM in cents
    let decimals = 2;

    oracle
        .initialize(admin.clone(), updater.clone(), initial_price, decimals, 0)
        .unwrap();

    assert_eq!(oracle.get_admin().unwrap(), admin);
    assert_eq!(oracle.get_updater().unwrap(), updater);

    let price_data = oracle.get_price().unwrap();
    assert_eq!(price_data.price, initial_price);
    assert_eq!(price_data.decimals, decimals);
}

#[test]
fn test_price_update() {
    let mut oracle = initialized(100, 2, 0);

    let new_price = 200; // $2.00 per XLM
    oracle.update_price(new_price, 0).unwrap();

    assert_eq!(oracle.get_price_value().unwrap(), new_price);
}

#[test]
fn test_xlm_to_usd_conversion() {
    let oracle = initialized(150, 2, 0); // $1.50 per XLM

    let xlm_amount = 100; // 100 XLM
    let usd_cents = oracle.xlm_to_usd_cents(0, xlm_amount).unwrap();
    assert_eq!(usd_cents, 15000); // 100 * 150 cents = 15000 cents = $150.00

    let usd_amount = 30000; // $300.00 in cents
    let xlm_needed = oracle.usd_cents_to_xlm(0, usd_amount).unwrap();
    assert_eq!(xlm_needed, 200); // 30000 / 150 = 200 XLM
}

#[test]
fn test_fresh_price_check() {
    let oracle = initialized(100, 2, 0);

    // Should be fresh initially
    assert!(oracle.is_price_fresh(0).unwrap());

    // Advance time beyond staleness threshold
    assert!(!oracle.is_price_fresh(0 + 301).unwrap());
}

#[test]
fn oracle_rejects_non_positive_initial_price() {
    let mut oracle = PriceOracle::new();
    assert_eq!(
        oracle.initialize(addr("GA"), addr("GU"), 0, 2, 5),
        Err(ContractError::InvalidPrice)
    );
    assert!(!oracle.is_initialized());
    assert_eq!(oracle.get_price(), Err(ContractError::NotInitialized));
    assert_eq!(oracle.get_admin(), Err(ContractError::NotInitialized));
    assert_eq!(oracle.get_updater(), Err(ContractError::NotInitialized));
}

#[test]
fn oracle_update_errors_leave_price_unchanged() {
    let mut empty = PriceOracle::new();
    assert_eq!(empty.update_price(10, 1), Err(ContractError::NotInitialized));

    let mut oracle = initialized(100, 7, 10);
    assert_eq!(oracle.update_price(-5, 20), Err(ContractError::InvalidPrice));
    assert_eq!(
        oracle.get_price(),
        Ok(PriceData { price: 100, decimals: 7, last_updated: 10 })
    );
    oracle.update_price(250, 40).unwrap();
    assert_eq!(
        oracle.get_price(),
        Ok(PriceData { price: 250, decimals: 7, last_updated: 40 })
    );
    assert_eq!(oracle.get_decimals(), Ok(7));
}

#[test]
fn oracle_fresh_price_boundary() {
    let oracle = initialized(100, 2, 1_000);
    assert!(oracle.get_fresh_price(1_000 + MAX_PRICE_AGE_SECONDS).is_ok());
    assert_eq!(
        oracle.get_fresh_price(1_000 + MAX_PRICE_AGE_SECONDS + 1),
        Err(ContractError::StalePrice)
    );
    // A clock reading earlier than the update counts as no age at all.
    assert!(oracle.get_fresh_price(0).is_ok());
    assert_eq!(
        oracle.xlm_to_usd_cents(2_000, 1),
        Err(ContractError::StalePrice)
    );
    assert_eq!(
        oracle.usd_cents_to_xlm(2_000, 1),
        Err(ContractError::StalePrice)
    );
}

#[test]
fn oracle_conversions_saturate_and_truncate() {
    let oracle = initialized(150, 2, 0);
    assert_eq!(oracle.xlm_to_usd_cents(0, i128::MAX), Ok(i128::MAX));
    assert_eq!(oracle.xlm_to_usd_cents(0, i128::MIN), Ok(i128::MIN));
    assert_eq!(oracle.usd_cents_to_xlm(0, 299), Ok(1));
    assert_eq!(oracle.usd_cents_to_xlm(0, -301), Ok(-2));
    assert!(oracle.usd_conversion_defined(0, i128::MIN));
}

#[test]
fn oracle_round_trip_is_exact() {
    let oracle = initialized(150, 2, 0);
    let cents = oracle.xlm_to_usd_cents(0, 12_345).unwrap();
    assert_eq!(cents, 1_851_750);
    assert_eq!(oracle.usd_cents_to_xlm(0, cents), Ok(12_345));
}

#[test]
fn oracle_role_changes() {
    let mut empty = PriceOracle::new();
    assert_eq!(empty.set_admin(addr("GX")), Err(ContractError::NotInitialized));
    assert_eq!(empty.set_updater(addr("GX")), Err(ContractError::NotInitialized));

    let mut oracle = initialized(100, 2, 0);
    oracle.set_admin(addr("GNEWADMIN")).unwrap();
    assert_eq!(oracle.get_admin(), Ok(addr("GNEWADMIN")));
    assert_eq!(oracle.get_updater(), Ok(addr("GUPDATER")));
    oracle.set_updater(addr("GNEWUPDATER")).unwrap();
    assert_eq!(oracle.get_updater(), Ok(addr("GNEWUPDATER")));
    assert_eq!(oracle.get_admin(), Ok(addr("GNEWADMIN")));
    assert_eq!(oracle.get_price_value(), Ok(100));
}

#[test]
fn oracle_error_codes() {
    assert_eq!(ContractError::NotAuthorized.code(), 1);
    assert_eq!(ContractError::InvalidPrice.code(), 2);
    assert_eq!(ContractError::StalePrice.code(), 3);
    assert_eq!(ContractError::NotInitialized.code(), 4);
}

#[test]
fn oracle_initialized_at_most_once() {
    let mut oracle = initialized(100, 2, 0);
    assert!(oracle.is_initialized());
    oracle.update_price(120, 5).unwrap();
    oracle.set_admin(addr("GOTHER")).unwrap();
    oracle.set_updater(addr("GOTHER2")).unwrap();
    assert!(oracle.is_initialized());
}
