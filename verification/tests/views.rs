//! Read composition and the paginated query surface.

use apollo42_nft_contract::types::{Contract, ContractError, TokenMetadata};

fn setup_contract() -> Contract {
    Contract::new_default_meta("alice".to_string(), "eugene".to_string())
}

fn series_metadata(copies: Option<u64>) -> TokenMetadata {
    TokenMetadata {
        title: Some("Tsundere land".to_string()),
        description: Some("a place".to_string()),
        media: Some("bafybeidzcan4nzcz7sczs4yzyxly4galgygnbjewipj6haco4kffoqpkiy".to_string()),
        media_hash: None,
        copies,
        issued_at: None,
        expires_at: None,
        starts_at: None,
        updated_at: None,
        extra: Some("extra".to_string()),
        reference: Some("bafybeicg4ss7qh5odijfn2eogizuxkrdh3zlv4eftcmgnljwu7dm64uwji".to_string()),
        reference_hash: None,
    }
}

fn create_series(
    contract: &mut Contract,
    caller: &str,
    royalty: &[(&str, u32)],
    price: Option<u128>,
    copies: Option<u64>,
) {
    let royalty: Vec<(String, u32)> = royalty.iter().map(|(a, v)| (a.to_string(), *v)).collect();
    contract
        .nft_create_series(
            &caller.to_string(),
            None,
            series_metadata(copies),
            price,
            Some(royalty),
            0,
        )
        .unwrap();
}

#[test]
fn reading_an_edition_joins_the_series_template() {
    let mut contract = setup_contract();
    create_series(&mut contract, "bob", &[("bob", 1000)], None, Some(10));
    let mint_time: u64 = 42_000_000_000;
    let token_id = contract
        .nft_mint(&"bob".to_string(), 1, "charlie".to_string(), mint_time)
        .unwrap();
    assert_eq!(token_id.token_series_id, 1);
    assert_eq!(token_id.edition, 1);

    let token = contract.nft_token(token_id).unwrap();
    let metadata = token.metadata.unwrap();
    let template = series_metadata(Some(10));
    // The template fields come back although the mint stored none of them.
    assert_eq!(metadata.title, template.title);
    assert_eq!(metadata.description, template.description);
    assert_eq!(metadata.media, template.media);
    assert_eq!(metadata.reference, template.reference);
    assert_eq!(metadata.extra, template.extra);
    assert_eq!(metadata.copies, Some(10));
    // Only the mint time is the edition's own.
    assert_eq!(metadata.issued_at, Some(mint_time));
}

#[test]
fn template_edits_show_through_minted_editions() {
    let mut contract = setup_contract();
    create_series(&mut contract, "bob", &[("bob", 1000)], None, Some(10));
    let token_id = contract
        .nft_mint(&"bob".to_string(), 1, "charlie".to_string(), 0)
        .unwrap();

    // The cap changes after the mint; the next read reflects it, because
    // the edition never stored a copy of the template.
    contract
        .nft_decrease_series_copies(&"bob".to_string(), 1, 5)
        .unwrap();
    let token = contract.nft_token(token_id).unwrap();
    assert_eq!(token.metadata.unwrap().copies, Some(5));
}

#[test]
fn series_pages_are_bounded() {
    let mut contract = setup_contract();
    for _ in 0..3 {
        create_series(&mut contract, "bob", &[("bob", 1000)], None, None);
    }

    let page = contract.nft_get_series(None, None).unwrap();
    assert_eq!(page.len(), 3);
    assert_eq!(page[0].token_series_id, 1);
    assert_eq!(page[2].token_series_id, 3);
    assert_eq!(page[1].transaction_fee, None);

    let page = contract.nft_get_series(Some(1), Some(1)).unwrap();
    assert_eq!(page.len(), 1);
    assert_eq!(page[0].token_series_id, 2);

    let r = contract.nft_get_series(Some(3), None);
    assert_eq!(r.unwrap_err(), ContractError::OutOfBounds);
    let r = contract.nft_get_series(None, Some(0));
    assert_eq!(r.unwrap_err(), ContractError::ZeroLimit);
}

#[test]
fn ledger_enumeration_follows_ownership() {
    let mut contract = setup_contract();
    create_series(&mut contract, "bob", &[("bob", 1000)], None, None);
    let t1 = contract
        .nft_mint(&"bob".to_string(), 1, "charlie".to_string(), 0)
        .unwrap();
    let t2 = contract
        .nft_mint(&"bob".to_string(), 1, "charlie".to_string(), 0)
        .unwrap();
    let t3 = contract
        .nft_mint(&"bob".to_string(), 1, "danny".to_string(), 0)
        .unwrap();

    assert_eq!(contract.nft_total_supply(), 3);
    assert_eq!(contract.nft_supply_for_owner(&"charlie".to_string()), 2);
    assert_eq!(contract.nft_supply_for_owner(&"danny".to_string()), 1);
    assert_eq!(contract.nft_supply_for_owner(&"fargo".to_string()), 0);

    let all = contract.nft_tokens(None, None).unwrap();
    assert_eq!(all.len(), 3);
    assert_eq!(all[0].token_id, t1);
    assert_eq!(all[2].token_id, t3);

    let charlies = contract
        .nft_tokens_for_owner(&"charlie".to_string(), None, None)
        .unwrap();
    assert_eq!(charlies.len(), 2);
    assert_eq!(charlies[0].token_id, t1);
    assert_eq!(charlies[1].token_id, t2);

    // An owner of nothing falls under the shared bounds contract: a
    // default read starts at index 0 of an empty collection.
    let nobodys = contract.nft_tokens_for_owner(&"fargo".to_string(), None, None);
    assert_eq!(nobodys.unwrap_err(), ContractError::OutOfBounds);
    let r = contract.nft_tokens_for_owner(&"charlie".to_string(), None, Some(0));
    assert_eq!(r.unwrap_err(), ContractError::ZeroLimit);
    let r = contract.nft_tokens_for_owner(&"charlie".to_string(), Some(2), None);
    assert_eq!(r.unwrap_err(), ContractError::OutOfBounds);

    contract
        .nft_transfer(&"charlie".to_string(), &"danny".to_string(), t1, None, None)
        .unwrap();
    assert_eq!(contract.nft_supply_for_owner(&"charlie".to_string()), 1);
    assert_eq!(contract.nft_supply_for_owner(&"danny".to_string()), 2);
}

#[test]
fn series_editions_enumerate_and_survive_burns() {
    let mut contract = setup_contract();
    create_series(&mut contract, "bob", &[("bob", 1000)], None, None);
    let t1 = contract
        .nft_mint(&"bob".to_string(), 1, "charlie".to_string(), 0)
        .unwrap();
    let _t2 = contract
        .nft_mint(&"bob".to_string(), 1, "charlie".to_string(), 0)
        .unwrap();

    let page = contract.nft_tokens_by_series(1, None, None).unwrap();
    assert_eq!(page.len(), 2);
    assert_eq!(page[0].token_id.edition, 1);
    assert_eq!(page[1].token_id.edition, 2);

    // Burning an edition does not lower the minted count, and enumerating
    // across the burned edition reports it missing.
    contract.nft_burn(&"charlie".to_string(), t1).unwrap();
    assert_eq!(contract.nft_supply_for_series(1).unwrap(), 2);
    let r = contract.nft_tokens_by_series(1, None, None);
    assert_eq!(r.unwrap_err(), ContractError::TokenNotFound);
    let page = contract.nft_tokens_by_series(1, Some(1), None).unwrap();
    assert_eq!(page.len(), 1);
    assert_eq!(page[0].token_id.edition, 2);
}

#[test]
fn series_price_and_format_queries() {
    let mut contract = setup_contract();
    create_series(&mut contract, "bob", &[("bob", 1000)], Some(77), None);
    assert_eq!(contract.nft_get_series_price(1).unwrap(), Some(77));
    assert_eq!(
        contract.nft_get_series_price(9),
        Err(ContractError::SeriesNotFound)
    );

    let (token_delim, title_delim, edition_delim) = contract.nft_get_series_format();
    assert_eq!(token_delim, ':');
    assert_eq!(title_delim, " #");
    assert_eq!(edition_delim, "/");

    contract
        .set_treasury(&"alice".to_string(), "fargo".to_string())
        .unwrap();
    assert_eq!(
        contract.set_treasury(&"bob".to_string(), "bob".to_string()),
        Err(ContractError::OwnerOnly)
    );
}
