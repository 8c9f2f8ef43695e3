//! The staged fee schedule: immediate and staged reschedules, lazy
//! activation, and the per-series snapshots.

use apollo42_nft_contract::fee::to_sec;
use apollo42_nft_contract::types::{Contract, ContractError, TokenMetadata};

fn setup_contract() -> Contract {
    Contract::new_default_meta("alice".to_string(), "eugene".to_string())
}

fn series_metadata(copies: Option<u64>) -> TokenMetadata {
    TokenMetadata {
        title: Some("Tsundere land".to_string()),
        description: None,
        media: Some("bafybeidzcan4nzcz7sczs4yzyxly4galgygnbjewipj6haco4kffoqpkiy".to_string()),
        media_hash: None,
        copies,
        issued_at: None,
        expires_at: None,
        starts_at: None,
        updated_at: None,
        extra: None,
        reference: Some("bafybeicg4ss7qh5odijfn2eogizuxkrdh3zlv4eftcmgnljwu7dm64uwji".to_string()),
        reference_hash: None,
    }
}

fn create_series(
    contract: &mut Contract,
    caller: &str,
    royalty: &[(&str, u32)],
    price: Option<u128>,
    copies: Option<u64>,
) {
    let royalty: Vec<(String, u32)> = royalty.iter().map(|(a, v)| (a.to_string(), *v)).collect();
    contract
        .nft_create_series(
            &caller.to_string(),
            None,
            series_metadata(copies),
            price,
            Some(royalty),
            0,
        )
        .unwrap();
}

#[test]
fn test_change_transaction_fee_immediately() {
    let mut contract = setup_contract();
    contract
        .set_transaction_fee(&"alice".to_string(), 100, None, 0)
        .unwrap();
    assert_eq!(contract.get_transaction_fee().current_fee, 100);
}

#[test]
fn test_change_transaction_fee_with_time() {
    let mut contract = setup_contract();

    assert_eq!(contract.get_transaction_fee().current_fee, 300);
    assert_eq!(contract.get_transaction_fee().next_fee, None);
    assert_eq!(contract.get_transaction_fee().start_time, None);

    let next_fee: u16 = 100;
    let start_time: u64 = 1618109122863866400;
    let start_time_sec: u32 = to_sec(start_time);
    contract
        .set_transaction_fee(&"alice".to_string(), next_fee, Some(start_time_sec), 0)
        .unwrap();

    assert_eq!(contract.get_transaction_fee().current_fee, 300);
    assert_eq!(contract.get_transaction_fee().next_fee, Some(next_fee));
    assert_eq!(contract.get_transaction_fee().start_time, Some(start_time_sec));

    contract.calculate_current_transaction_fee(start_time + 1);
    assert_eq!(contract.get_transaction_fee().current_fee, next_fee);
    assert_eq!(contract.get_transaction_fee().next_fee, None);
    assert_eq!(contract.get_transaction_fee().start_time, None);
}

#[test]
fn test_transaction_fee_locked() {
    let mut contract = setup_contract();

    assert_eq!(contract.get_transaction_fee().current_fee, 300);
    assert_eq!(contract.get_transaction_fee().next_fee, None);
    assert_eq!(contract.get_transaction_fee().start_time, None);

    let next_fee: u16 = 100;
    let start_time: u64 = 1618109122863866400;
    let start_time_sec: u32 = to_sec(start_time);
    contract
        .set_transaction_fee(&"alice".to_string(), next_fee, Some(start_time_sec), 0)
        .unwrap();

    create_series(
        &mut contract,
        "alice",
        &[("bob", 1000)],
        Some(10u128.pow(24)),
        None,
    );
    contract
        .nft_set_series_price(&"alice".to_string(), 1, None, 0)
        .unwrap();

    assert_eq!(contract.get_transaction_fee().current_fee, 300);
    assert_eq!(contract.get_transaction_fee().next_fee, Some(next_fee));
    assert_eq!(contract.get_transaction_fee().start_time, Some(start_time_sec));

    contract.calculate_current_transaction_fee(start_time + 1);
    assert_eq!(contract.get_transaction_fee().current_fee, next_fee);
    assert_eq!(contract.get_transaction_fee().next_fee, None);
    assert_eq!(contract.get_transaction_fee().start_time, None);

    let series = contract.nft_get_series_single(1).unwrap();
    assert_eq!(series.transaction_fee, Some(300));
}

#[test]
fn staged_fee_activates_exactly_at_start_time() {
    let mut contract = setup_contract();
    let start_time_sec: u32 = 1_700_000_000;
    let start_time_nanos: u64 = start_time_sec as u64 * 1_000_000_000;
    contract
        .set_transaction_fee(&"alice".to_string(), 100, Some(start_time_sec), 0)
        .unwrap();

    // One nanosecond short of the activation second: unchanged.
    let fee = contract.calculate_current_transaction_fee(start_time_nanos - 1);
    assert_eq!(fee, 300);
    assert_eq!(contract.get_transaction_fee().next_fee, Some(100));

    // At the activation time: the staged fee takes over and the stage clears.
    let fee = contract.calculate_current_transaction_fee(start_time_nanos);
    assert_eq!(fee, 100);
    assert_eq!(contract.get_transaction_fee().next_fee, None);
    assert_eq!(contract.get_transaction_fee().start_time, None);

    // A second read returns the activated fee; nothing activates twice.
    let fee = contract.calculate_current_transaction_fee(start_time_nanos + 5_000_000_000);
    assert_eq!(fee, 100);
}

#[test]
fn reschedule_is_owner_only() {
    let mut contract = setup_contract();
    let r = contract.set_transaction_fee(&"bob".to_string(), 100, None, 0);
    assert_eq!(r, Err(ContractError::OwnerOnly));
    assert_eq!(contract.get_transaction_fee().current_fee, 300);
}

#[test]
fn reschedule_rejects_fee_of_10000_or_more() {
    let mut contract = setup_contract();
    let r = contract.set_transaction_fee(&"alice".to_string(), 10_000, None, 0);
    assert_eq!(r, Err(ContractError::FeeTooHigh));
}

#[test]
fn reschedule_rejects_start_time_not_in_future() {
    let mut contract = setup_contract();
    let now: u64 = 2_000_000_000_000_000_000;
    let r = contract.set_transaction_fee(&"alice".to_string(), 100, Some(to_sec(now)), now);
    assert_eq!(r, Err(ContractError::StartTimeNotFuture));
}

#[test]
fn unknown_series_falls_back_to_current_fee() {
    let mut contract = setup_contract();
    assert_eq!(contract.get_market_data_transaction_fee(7), 300);
    assert_eq!(contract.calculate_market_data_transaction_fee(7, 0), 300);
}

#[test]
fn price_change_resnapshots_the_fee() {
    let mut contract = setup_contract();
    create_series(
        &mut contract,
        "alice",
        &[("bob", 1000)],
        Some(10u128.pow(24)),
        None,
    );
    assert_eq!(contract.get_market_data_transaction_fee(1), 300);

    contract
        .set_transaction_fee(&"alice".to_string(), 50, None, 0)
        .unwrap();
    // The snapshot still carries the fee at creation time.
    assert_eq!(contract.get_market_data_transaction_fee(1), 300);

    // A price change re-prices the platform fee for the series.
    contract
        .nft_set_series_price(&"alice".to_string(), 1, Some(5), 0)
        .unwrap();
    assert_eq!(contract.get_market_data_transaction_fee(1), 50);
}
