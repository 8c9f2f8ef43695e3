//! Single-phase transfers, the two-phase acknowledged transfer with its
//! rollback, approvals and burning.

use apollo42_nft_contract::types::{Contract, ContractError, TokenId, TokenMetadata};

fn setup_contract() -> Contract {
    Contract::new_default_meta("alice".to_string(), "eugene".to_string())
}

fn series_metadata(copies: Option<u64>) -> TokenMetadata {
    TokenMetadata {
        title: Some("Tsundere land".to_string()),
        description: None,
        media: Some("bafybeidzcan4nzcz7sczs4yzyxly4galgygnbjewipj6haco4kffoqpkiy".to_string()),
        media_hash: None,
        copies,
        issued_at: None,
        expires_at: None,
        starts_at: None,
        updated_at: None,
        extra: None,
        reference: Some("bafybeicg4ss7qh5odijfn2eogizuxkrdh3zlv4eftcmgnljwu7dm64uwji".to_string()),
        reference_hash: None,
    }
}

fn create_series(
    contract: &mut Contract,
    caller: &str,
    royalty: &[(&str, u32)],
    price: Option<u128>,
    copies: Option<u64>,
) {
    let royalty: Vec<(String, u32)> = royalty.iter().map(|(a, v)| (a.to_string(), *v)).collect();
    contract
        .nft_create_series(
            &caller.to_string(),
            None,
            series_metadata(copies),
            price,
            Some(royalty),
            0,
        )
        .unwrap();
}

fn minted_token(contract: &mut Contract, owner: &str) -> TokenId {
    create_series(contract, "bob", &[("bob", 1000)], None, None);
    let sid = contract.token_series_by_id.len() as u64;
    contract
        .nft_mint(&"bob".to_string(), sid, owner.to_string(), 0)
        .unwrap()
}

#[test]
fn test_nft_transfer() {
    let mut contract = setup_contract();
    let token_id = minted_token(&mut contract, "charlie");

    contract
        .nft_transfer(&"charlie".to_string(), &"danny".to_string(), token_id, None, None)
        .unwrap();

    let token = contract.nft_token(token_id).unwrap();
    assert_eq!(token.owner_id, "danny".to_string());
}

#[test]
fn test_nft_transfer_unsafe() {
    let mut contract = setup_contract();
    let token_id = minted_token(&mut contract, "charlie");

    contract
        .nft_transfer_unsafe(&"charlie".to_string(), &"danny".to_string(), token_id, None, None)
        .unwrap();

    let token = contract.nft_token(token_id).unwrap();
    assert_eq!(token.owner_id, "danny".to_string());
}

#[test]
fn test_nft_burn() {
    let mut contract = setup_contract();
    let token_id = minted_token(&mut contract, "charlie");

    contract
        .nft_burn(&"charlie".to_string(), token_id)
        .unwrap();
    let token = contract.nft_token(token_id);
    assert!(token.is_none());
}

#[test]
fn burn_is_owner_only() {
    let mut contract = setup_contract();
    let token_id = minted_token(&mut contract, "charlie");
    let r = contract.nft_burn(&"danny".to_string(), token_id);
    assert_eq!(r, Err(ContractError::Unauthorized));
    let missing = TokenId { token_series_id: 1, edition: 9 };
    let r = contract.nft_burn(&"charlie".to_string(), missing);
    assert_eq!(r, Err(ContractError::TokenNotFound));
}

#[test]
fn transfer_authorization_rules() {
    let mut contract = setup_contract();
    let token_id = minted_token(&mut contract, "charlie");

    // A stranger may not move the edition.
    let r = contract.nft_transfer(&"danny".to_string(), &"fargo".to_string(), token_id, None, None);
    assert_eq!(r, Err(ContractError::Unauthorized));

    // The owner may not "transfer" to itself.
    let r =
        contract.nft_transfer(&"charlie".to_string(), &"charlie".to_string(), token_id, None, None);
    assert_eq!(r, Err(ContractError::ReceiverIsOwner));

    // The owner moves it; afterwards the old owner has no authority left.
    contract
        .nft_transfer(&"charlie".to_string(), &"danny".to_string(), token_id, None, None)
        .unwrap();
    let r = contract.nft_transfer(&"charlie".to_string(), &"fargo".to_string(), token_id, None, None);
    assert_eq!(r, Err(ContractError::Unauthorized));
}

#[test]
fn mint_and_approve_registers_a_fresh_approval() {
    let mut contract = setup_contract();
    create_series(&mut contract, "bob", &[("bob", 1000)], None, None);

    let (token_id, approval_id) = contract
        .nft_mint_and_approve(&"bob".to_string(), 1, "charlie".to_string(), 0)
        .unwrap();
    assert_eq!(approval_id, 1);

    let token = contract.nft_token(token_id).unwrap();
    assert_eq!(token.owner_id, "bob".to_string());
    assert_eq!(
        token.approved_account_ids,
        vec![("charlie".to_string(), 1u64)]
    );

    // An approved party supplying no approval id is not authorized, a
    // wrong id is rejected, and the registered id authorizes the move.
    let r = contract.nft_transfer(
        &"charlie".to_string(),
        &"danny".to_string(),
        token_id,
        None,
        None,
    );
    assert_eq!(r, Err(ContractError::Unauthorized));
    let r = contract.nft_transfer(
        &"charlie".to_string(),
        &"danny".to_string(),
        token_id,
        Some(2),
        None,
    );
    assert_eq!(r, Err(ContractError::ApprovalMismatch));
    contract
        .nft_transfer(
            &"charlie".to_string(),
            &"danny".to_string(),
            token_id,
            Some(1),
            None,
        )
        .unwrap();
    let token = contract.nft_token(token_id).unwrap();
    assert_eq!(token.owner_id, "danny".to_string());
    // Any transfer consumes the approval table.
    assert!(token.approved_account_ids.is_empty());
}

#[test]
fn acknowledged_transfer_rolls_back_on_reject() {
    let mut contract = setup_contract();
    create_series(&mut contract, "bob", &[("bob", 1000)], None, None);
    let (token_id, _approval_id) = contract
        .nft_mint_and_approve(&"bob".to_string(), 1, "charlie".to_string(), 0)
        .unwrap();

    let pending = contract
        .nft_transfer_call(
            &"bob".to_string(),
            &"danny".to_string(),
            token_id,
            None,
            None,
            "take it".to_string(),
        )
        .unwrap();
    assert_eq!(pending.previous_owner_id, "bob".to_string());
    assert_eq!(pending.receiver_id, "danny".to_string());
    assert_eq!(pending.msg, "take it".to_string());
    assert_eq!(
        pending.approved_account_ids,
        vec![("charlie".to_string(), 1u64)]
    );

    // Phase 1 is durably visible: the receiver owns it during suspension.
    assert_eq!(contract.nft_token(token_id).unwrap().owner_id, "danny".to_string());

    // The hook asks for the edition back: ownership and the original
    // approval table are restored.
    let kept = contract.nft_resolve_transfer(
        pending.previous_owner_id,
        &pending.receiver_id,
        pending.token_id,
        Some(pending.approved_account_ids),
        Some(true),
    );
    assert!(!kept);
    let token = contract.nft_token(token_id).unwrap();
    assert_eq!(token.owner_id, "bob".to_string());
    assert_eq!(
        token.approved_account_ids,
        vec![("charlie".to_string(), 1u64)]
    );
}

#[test]
fn acknowledged_transfer_stands_on_accept() {
    let mut contract = setup_contract();
    let token_id = minted_token(&mut contract, "charlie");

    let pending = contract
        .nft_transfer_call(
            &"charlie".to_string(),
            &"danny".to_string(),
            token_id,
            None,
            None,
            String::new(),
        )
        .unwrap();

    // The hook keeps the edition: nothing moves back.
    let kept = contract.nft_resolve_transfer(
        pending.previous_owner_id,
        &pending.receiver_id,
        pending.token_id,
        Some(pending.approved_account_ids),
        Some(false),
    );
    assert!(kept);
    assert_eq!(contract.nft_token(token_id).unwrap().owner_id, "danny".to_string());
}

#[test]
fn hook_failure_counts_as_reject() {
    let mut contract = setup_contract();
    let token_id = minted_token(&mut contract, "charlie");

    let pending = contract
        .nft_transfer_call(
            &"charlie".to_string(),
            &"danny".to_string(),
            token_id,
            None,
            None,
            String::new(),
        )
        .unwrap();

    let kept = contract.nft_resolve_transfer(
        pending.previous_owner_id,
        &pending.receiver_id,
        pending.token_id,
        Some(pending.approved_account_ids),
        None,
    );
    assert!(!kept);
    assert_eq!(contract.nft_token(token_id).unwrap().owner_id, "charlie".to_string());
}

#[test]
fn rollback_skipped_after_intervening_transfer() {
    let mut contract = setup_contract();
    let token_id = minted_token(&mut contract, "charlie");

    let pending = contract
        .nft_transfer_call(
            &"charlie".to_string(),
            &"danny".to_string(),
            token_id,
            None,
            None,
            String::new(),
        )
        .unwrap();

    // During the suspension a third party receives the edition from danny.
    contract
        .nft_transfer(&"danny".to_string(), &"fargo".to_string(), token_id, None, None)
        .unwrap();

    // The reject arrives too late: restoring would seize the edition from
    // fargo, so the state is left as it stands.
    let kept = contract.nft_resolve_transfer(
        pending.previous_owner_id,
        &pending.receiver_id,
        pending.token_id,
        Some(pending.approved_account_ids),
        Some(true),
    );
    assert!(kept);
    assert_eq!(contract.nft_token(token_id).unwrap().owner_id, "fargo".to_string());
}

#[test]
fn rollback_skipped_after_burn_during_suspension() {
    let mut contract = setup_contract();
    let token_id = minted_token(&mut contract, "charlie");

    let pending = contract
        .nft_transfer_call(
            &"charlie".to_string(),
            &"danny".to_string(),
            token_id,
            None,
            None,
            String::new(),
        )
        .unwrap();

    contract.nft_burn(&"danny".to_string(), token_id).unwrap();

    let kept = contract.nft_resolve_transfer(
        pending.previous_owner_id,
        &pending.receiver_id,
        pending.token_id,
        Some(pending.approved_account_ids),
        Some(true),
    );
    assert!(kept);
    assert!(contract.nft_token(token_id).is_none());
}
