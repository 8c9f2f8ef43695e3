//! Buying editions and splitting sale proceeds: the royalty payout engine
//! and the operations composed with it.

use apollo42_nft_contract::types::{Contract, ContractError, TokenMetadata};

fn setup_contract() -> Contract {
    Contract::new_default_meta("alice".to_string(), "eugene".to_string())
}

fn series_metadata(copies: Option<u64>) -> TokenMetadata {
    TokenMetadata {
        title: Some("Tsundere land".to_string()),
        description: None,
        media: Some("bafybeidzcan4nzcz7sczs4yzyxly4galgygnbjewipj6haco4kffoqpkiy".to_string()),
        media_hash: None,
        copies,
        issued_at: None,
        expires_at: None,
        starts_at: None,
        updated_at: None,
        extra: None,
        reference: Some("bafybeicg4ss7qh5odijfn2eogizuxkrdh3zlv4eftcmgnljwu7dm64uwji".to_string()),
        reference_hash: None,
    }
}

fn create_series(
    contract: &mut Contract,
    caller: &str,
    royalty: &[(&str, u32)],
    price: Option<u128>,
    copies: Option<u64>,
) {
    let royalty: Vec<(String, u32)> = royalty.iter().map(|(a, v)| (a.to_string(), *v)).collect();
    contract
        .nft_create_series(
            &caller.to_string(),
            None,
            series_metadata(copies),
            price,
            Some(royalty),
            0,
        )
        .unwrap();
}

#[test]
fn test_buy() {
    let mut contract = setup_contract();
    create_series(
        &mut contract,
        "bob",
        &[("bob", 1000)],
        Some(10u128.pow(24)),
        None,
    );

    let receipt = contract
        .nft_buy(1, "charlie".to_string(), 10u128.pow(24), 0)
        .unwrap();

    let token_from_nft_token = contract.nft_token(receipt.token_id);
    assert_eq!(token_from_nft_token.unwrap().owner_id, "charlie".to_string());

    // The 3% default fee goes to the treasury; the rest is the creator's.
    assert_eq!(receipt.creator_id, "bob".to_string());
    assert_eq!(receipt.treasury_amount, 300 * 10u128.pow(24) / 10_000);
    assert_eq!(
        receipt.creator_amount + receipt.treasury_amount,
        10u128.pow(24)
    );
}

#[test]
fn test_invalid_buy_price_null() {
    let mut contract = setup_contract();
    create_series(
        &mut contract,
        "bob",
        &[("bob", 1000)],
        Some(10u128.pow(24)),
        None,
    );

    contract
        .nft_set_series_price(&"bob".to_string(), 1, None, 0)
        .unwrap();

    let r = contract.nft_buy(1, "charlie".to_string(), 10u128.pow(24), 0);
    assert_eq!(r, Err(ContractError::NotForSale));
}

#[test]
fn buy_requires_the_price_attached() {
    let mut contract = setup_contract();
    create_series(&mut contract, "bob", &[("bob", 1000)], Some(1000), None);
    let r = contract.nft_buy(1, "charlie".to_string(), 999, 0);
    assert_eq!(r, Err(ContractError::DepositTooLow));
    let r = contract.nft_buy(9, "charlie".to_string(), 999, 0);
    assert_eq!(r, Err(ContractError::SeriesNotFound));
}

#[test]
fn test_nft_transfer_payout() {
    let mut contract = setup_contract();
    create_series(&mut contract, "bob", &[("bob", 1000)], None, None);
    let token_id = contract
        .nft_mint(&"bob".to_string(), 1, "charlie".to_string(), 0)
        .unwrap();

    let payout = contract
        .nft_transfer_payout(
            &"charlie".to_string(),
            &"danny".to_string(),
            token_id,
            Some(0),
            Some(10u128.pow(24)),
            Some(10),
        )
        .unwrap();

    let expected: Vec<(String, u128)> = vec![
        ("bob".to_string(), 1000 * 10u128.pow(24) / 10_000),
        ("charlie".to_string(), 9000 * 10u128.pow(24) / 10_000),
    ];
    assert_eq!(payout.unwrap().payout, expected);

    let token = contract.nft_token(token_id).unwrap();
    assert_eq!(token.owner_id, "danny".to_string());
}

#[test]
fn payout_splits_ten_percent_royalty() {
    let mut contract = setup_contract();
    // Royalty of 10% to alice; the edition belongs to bob.
    create_series(&mut contract, "bob", &[("alice", 1000)], None, None);
    let token_id = contract
        .nft_mint(&"bob".to_string(), 1, "bob".to_string(), 0)
        .unwrap();

    let payout = contract.nft_payout(token_id, 1_000_000, 10).unwrap();
    let expected: Vec<(String, u128)> = vec![
        ("alice".to_string(), 100_000),
        ("bob".to_string(), 900_000),
    ];
    assert_eq!(payout.payout, expected);
}

#[test]
fn payout_absorbs_rounding_into_the_owner_share() {
    let mut contract = setup_contract();
    // 50% to alice; a sale of 3 cannot split evenly.
    create_series(&mut contract, "bob", &[("alice", 5000)], None, None);
    let token_id = contract
        .nft_mint(&"bob".to_string(), 1, "bob".to_string(), 0)
        .unwrap();

    let payout = contract.nft_payout(token_id, 3, 10).unwrap().payout;
    assert_eq!(payout, vec![("alice".to_string(), 1u128), ("bob".to_string(), 2u128)]);
    let total: u128 = payout.iter().map(|(_, v)| v).sum();
    assert_eq!(total, 3);
}

#[test]
fn owner_in_royalty_table_only_gets_the_remainder() {
    let mut contract = setup_contract();
    create_series(
        &mut contract,
        "bob",
        &[("alice", 1000), ("bob", 2000)],
        None,
        None,
    );
    let token_id = contract
        .nft_mint(&"bob".to_string(), 1, "bob".to_string(), 0)
        .unwrap();

    // bob owns the edition, so bob's own royalty entry is skipped and bob
    // receives everything but alice's share.
    let payout = contract.nft_payout(token_id, 10_000, 10).unwrap().payout;
    assert_eq!(
        payout,
        vec![("alice".to_string(), 1000u128), ("bob".to_string(), 9000u128)]
    );
}

#[test]
fn payout_bounds_are_checked() {
    let mut contract = setup_contract();
    create_series(&mut contract, "bob", &[("alice", 1000)], None, None);
    let token_id = contract
        .nft_mint(&"bob".to_string(), 1, "bob".to_string(), 0)
        .unwrap();

    let r = contract.nft_payout(token_id, 1_000_000, 0);
    assert_eq!(r, Err(ContractError::TooManyRecipients));

    let r = contract.nft_payout(token_id, u128::MAX / 10_000 + 1, 10);
    assert_eq!(r, Err(ContractError::BalanceTooLarge));

    let r = contract.nft_transfer_payout(
        &"bob".to_string(),
        &"danny".to_string(),
        token_id,
        None,
        Some(1_000_000),
        None,
    );
    assert_eq!(r, Err(ContractError::MaxRecipientsRequired));

    // None of the rejected calls moved the edition.
    assert_eq!(contract.nft_token(token_id).unwrap().owner_id, "bob".to_string());
}

#[test]
fn transfer_payout_without_balance_returns_no_payout() {
    let mut contract = setup_contract();
    create_series(&mut contract, "bob", &[("alice", 1000)], None, None);
    let token_id = contract
        .nft_mint(&"bob".to_string(), 1, "bob".to_string(), 0)
        .unwrap();

    let payout = contract
        .nft_transfer_payout(&"bob".to_string(), &"danny".to_string(), token_id, None, None, None)
        .unwrap();
    assert!(payout.is_none());
    assert_eq!(contract.nft_token(token_id).unwrap().owner_id, "danny".to_string());
}
