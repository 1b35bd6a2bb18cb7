use seal_coin::baseline::BaselineTable;
use seal_coin::contract::SealCoinContract;
use seal_coin::engine::Principal;
use seal_coin::engine::SupplyAction;
use seal_coin::engine::evaluate_reading;
use seal_coin::engine::required_authorizer;
use seal_coin::errors::ErrorKind;

fn table_with_day_one(value: u32) -> BaselineTable {
    let mut values = vec![0u32; 366];
    values[0] = value;
    BaselineTable::new(values).unwrap()
}

#[test]
fn version_reports_revision() {
    assert_eq!(SealCoinContract::version(), 2);
}

#[test]
fn mint_decision_is_exact() {
    let table = table_with_day_one(13823);
    let decision = evaluate_reading(&table, 1, 13923).unwrap();
    assert_eq!(decision.delta_raw, 100);
    assert_eq!(decision.delta_scaled, 100 * 100 * 10_000_000);
    assert_eq!(decision.action, SupplyAction::Mint);
}

#[test]
fn burn_decision_is_exact() {
    let table = table_with_day_one(13823);
    let decision = evaluate_reading(&table, 1, 13723).unwrap();
    assert_eq!(decision.delta_raw, -100);
    assert_eq!(decision.delta_scaled, -100 * 100 * 10_000_000);
    assert_eq!(decision.action, SupplyAction::Burn);
}

#[test]
fn deadband_boundaries() {
    let table = table_with_day_one(13823);

    // A deviation of exactly ten extent units lands on the deadband and
    // does nothing, in either direction.
    let on_band_up = evaluate_reading(&table, 1, 13833).unwrap();
    assert_eq!(on_band_up.delta_scaled, 1000 * 10_000_000);
    assert_eq!(on_band_up.action, SupplyAction::NoOp);

    let on_band_down = evaluate_reading(&table, 1, 13813).unwrap();
    assert_eq!(on_band_down.delta_scaled, -1000 * 10_000_000);
    assert_eq!(on_band_down.action, SupplyAction::NoOp);

    // One extent unit past the deadband moves supply.
    let past_band_up = evaluate_reading(&table, 1, 13834).unwrap();
    assert_eq!(past_band_up.action, SupplyAction::Mint);

    let past_band_down = evaluate_reading(&table, 1, 13812).unwrap();
    assert_eq!(past_band_down.action, SupplyAction::Burn);

    // No deviation at all.
    let exact = evaluate_reading(&table, 1, 13823).unwrap();
    assert_eq!(exact.delta_raw, 0);
    assert_eq!(exact.delta_scaled, 0);
    assert_eq!(exact.action, SupplyAction::NoOp);
}

#[test]
fn day_of_year_range_is_enforced() {
    let table = table_with_day_one(13823);
    assert_eq!(evaluate_reading(&table, 0, 13823), Err(ErrorKind::OutOfRange));
    assert_eq!(evaluate_reading(&table, 367, 13823), Err(ErrorKind::OutOfRange));
    assert!(evaluate_reading(&table, 1, 13823).is_ok());
    assert!(evaluate_reading(&table, 366, 0).is_ok());
}

#[test]
fn extent_range_is_enforced() {
    let table = table_with_day_one(13823);
    assert_eq!(evaluate_reading(&table, 1, 30_001), Err(ErrorKind::OutOfRange));
    assert!(evaluate_reading(&table, 1, 30_000).is_ok());
    assert!(evaluate_reading(&table, 1, 0).is_ok());
}

#[test]
fn largest_deviation_is_computed() {
    // The widest spread the validated ranges admit: a zero baseline and
    // the largest plausible extent.
    let table = table_with_day_one(0);
    let decision = evaluate_reading(&table, 1, 30_000).unwrap();
    assert_eq!(decision.delta_raw, 30_000);
    assert_eq!(decision.delta_scaled, 30_000i128 * 100 * 10_000_000);
    assert_eq!(decision.action, SupplyAction::Mint);
}

#[test]
fn authorizer_follows_direction() {
    assert_eq!(required_authorizer(SupplyAction::Mint), Some(Principal::Issuer));
    assert_eq!(required_authorizer(SupplyAction::Burn), Some(Principal::Distributor));
    assert_eq!(required_authorizer(SupplyAction::NoOp), None);
}

#[test]
fn baseline_table_requires_a_full_year() {
    assert!(BaselineTable::new(vec![1u32; 366]).is_some());
    assert!(BaselineTable::new(vec![1u32; 365]).is_none());
    assert!(BaselineTable::new(vec![1u32; 367]).is_none());
    assert!(BaselineTable::new(Vec::new()).is_none());
}

#[test]
fn baseline_table_lookup_is_by_day() {
    let mut values = vec![0u32; 366];
    values[0] = 11;
    values[365] = 22;
    let table = BaselineTable::new(values).unwrap();
    assert_eq!(table.get(1), 11);
    assert_eq!(table.get(366), 22);
}
