use eneftigo::context::{CallContext, CallResult};
use eneftigo::nft::collection::{make_collection_storage, NEW_COLLECTION_WORST_CASE_STORAGE};
use eneftigo::nft::contract::NftContract;
use eneftigo::nft::errors::NftError;
use eneftigo::nft::metadata::TokenMetadata;
use eneftigo::nft::mint::MINT_WORST_CASE_STORAGE_BASE;
use eneftigo::nft::nft_core::{NonFungibleTokenCore, ResolveTransferArgs};
use eneftigo::table::LookupTable;

const BYTE_COST: u128 = 10_000_000_000_000_000_000;

fn nft_ctx(account: &str, attached: u128) -> CallContext {
    CallContext {
        current_account_id: "nft.eneftigo.near".to_string(),
        signer_account_id: account.to_string(),
        predecessor_account_id: account.to_string(),
        attached_deposit: attached,
        block_timestamp: 1_000_000,
        storage_byte_cost: BYTE_COST,
        prepaid_gas: 300_000_000_000_000,
    }
}

fn make(contract: &mut NftContract, ctx: &CallContext, title: &str, media: &str, max_supply: u64) -> Result<u64, NftError> {
    let storage = make_collection_storage(title, media);
    contract
        .make_collection(ctx, TokenMetadata::new(title, media), max_supply, storage)
        .map(|o| o.collection_id)
}

#[test]
fn test_nft_make_collection() {
    let ctx = nft_ctx("marketplace.near", NEW_COLLECTION_WORST_CASE_STORAGE as u128 * BYTE_COST);
    let mut contract = NftContract::new_default_meta("test.near".to_string());
    assert_eq!(make(&mut contract, &ctx, "collection", "http://eneftigo/asset1.png", 5), Ok(0));
    assert_eq!(make(&mut contract, &ctx, "collection2", "http://eneftigo/asset0.png", 5), Ok(1));
    assert_eq!(make(&mut contract, &ctx, "collection", "http://eneftigo/asset22.png", 10), Ok(2));
    assert_eq!(contract.next_collection_id, 3);
    assert_eq!(contract.collections_by_id.get(&2).unwrap().max_supply, 10);
    assert_eq!(*contract.collections_by_url.get(&"http://eneftigo/asset0.png".to_string()).unwrap(), 1);
}

#[test]
fn test_nft_make_collection_duplicated_asset_url_is_refused() {
    let ctx = nft_ctx("marketplace.near", NEW_COLLECTION_WORST_CASE_STORAGE as u128 * BYTE_COST);
    let mut contract = NftContract::new_default_meta("test.near".to_string());
    assert_eq!(make(&mut contract, &ctx, "collection", "http://eneftigo/asset.png", 5), Ok(0));
    assert_eq!(
        make(&mut contract, &ctx, "collection", "http://eneftigo/asset.png", 10),
        Err(NftError::CollectionExistsForMedia)
    );
    assert_eq!(contract.next_collection_id, 1);
}

#[test]
fn test_make_collection_storage_formula() {
    // 152 bytes, the title once and the media URL twice
    assert_eq!(make_collection_storage("collection", "http://eneftigo/asset1.png"), 152 + 10 + 2 * 26);
    assert_eq!(make_collection_storage("", ""), 152);
}

#[test]
fn test_make_collection_refunds_unused_deposit() {
    let storage = make_collection_storage("collection", "http://eneftigo/asset1.png");
    let ctx = nft_ctx("marketplace.near", NEW_COLLECTION_WORST_CASE_STORAGE as u128 * BYTE_COST);
    let mut contract = NftContract::new_default_meta("test.near".to_string());
    let outcome = contract
        .make_collection(&ctx, TokenMetadata::new("collection", "http://eneftigo/asset1.png"), 5, storage)
        .unwrap();
    let refund = outcome.refund.expect("no refund");
    assert_eq!(refund.receiver_id, "marketplace.near");
    assert_eq!(refund.amount_yocto, (NEW_COLLECTION_WORST_CASE_STORAGE - storage) as u128 * BYTE_COST);
}

#[test]
fn test_make_collection_checks() {
    let mut contract = NftContract::new_default_meta("test.near".to_string());
    let ctx = nft_ctx("marketplace.near", NEW_COLLECTION_WORST_CASE_STORAGE as u128 * BYTE_COST);
    let long_title = "t".repeat(129);
    assert_eq!(make(&mut contract, &ctx, &long_title, "http://eneftigo/a.png", 5), Err(NftError::TitleTooLong));
    assert_eq!(make(&mut contract, &ctx, "t", "not a url", 5), Err(NftError::InvalidMediaUrl));
    let poor = nft_ctx("marketplace.near", 1);
    assert_eq!(make(&mut contract, &poor, "t", "http://eneftigo/a.png", 5), Err(NftError::AttachedDepositTooLow));
    let mut no_title = TokenMetadata::new("t", "http://eneftigo/a.png");
    no_title.title = None;
    assert!(matches!(
        contract.make_collection(&ctx, no_title, 5, 0),
        Err(NftError::MissingTitle)
    ));
    let mut no_media = TokenMetadata::new("t", "http://eneftigo/a.png");
    no_media.media = None;
    assert!(matches!(
        contract.make_collection(&ctx, no_media, 5, 0),
        Err(NftError::MissingMedia)
    ));
    assert_eq!(contract.next_collection_id, 0);
}

fn minting_contract() -> NftContract {
    let mut contract = NftContract::new_default_meta("marketplace.near".to_string());
    let ctx = nft_ctx("marketplace.near", NEW_COLLECTION_WORST_CASE_STORAGE as u128 * BYTE_COST);
    let title = "abcdefghabcdefghabcdefghabcdefghabcdefghabcdefghabcdefghabcdefghabcdefghabcdefghabcdefghabcdefghabcdefghabcdefghabcdefghabcdefgh";
    assert_eq!(title.len(), 128);
    let asset_url = "https://ipfs.io/ipfs/Qme7ss3ARVgxv6rXqVPiikMJ8u2NLgmgszg13pYrDKEoiu";
    assert_eq!(asset_url.len(), 21 + 46);
    assert_eq!(make(&mut contract, &ctx, title, asset_url, 2), Ok(0));
    contract
}

#[test]
fn test_mint_numbers_tokens_within_a_collection() {
    let mut contract = minting_contract();
    let receiver = "receiver1.near".to_string();
    let worst = MINT_WORST_CASE_STORAGE_BASE + receiver.len() as u64 * 2;
    let ctx = nft_ctx("marketplace.near", 8580000000000000000000);

    let first = contract.mint(&ctx, receiver.clone(), 0, None, worst).expect("minting is refused");
    assert_eq!(first.token_id, "0");
    // the deposit is exactly the worst case: nothing to refund
    assert!(first.refund.is_none());
    let second = contract.mint(&ctx, receiver.clone(), 0, None, worst).expect("minting is refused");
    assert_eq!(second.token_id, "1");
    let token = contract.tokens_by_id.get(&"1".to_string()).unwrap();
    assert_eq!(token.owner_id, receiver);
    assert_eq!(token.collection_id, 0);
    let metadata = contract.token_metadata_by_id.get(&"1".to_string()).unwrap();
    assert_eq!(metadata.copies, Some(1));
    assert_eq!(metadata.issued_at, Some(1_000_000));

    // the collection holds two tokens at most
    assert!(matches!(
        contract.mint(&ctx, receiver.clone(), 0, None, worst),
        Err(NftError::MaxSupplyReached)
    ));
}

#[test]
fn test_mint_checks() {
    let mut contract = minting_contract();
    let ctx = nft_ctx("marketplace.near", 8580000000000000000000);
    assert!(matches!(
        contract.mint(&nft_ctx("stranger.near", 8580000000000000000000), "r.near".to_string(), 0, None, 100),
        Err(NftError::NotContractOwner)
    ));
    assert!(matches!(
        contract.mint(&nft_ctx("marketplace.near", 1), "r.near".to_string(), 0, None, 100),
        Err(NftError::AttachedDepositTooLow)
    ));
    assert!(matches!(
        contract.mint(&ctx, "r.near".to_string(), 7, None, 100),
        Err(NftError::CollectionNotFound)
    ));
    let mut royalties = LookupTable::new();
    for i in 0..7u32 {
        royalties.insert(format!("r{}.near", i), 100);
    }
    assert!(matches!(
        contract.mint(&ctx, "r.near".to_string(), 0, Some(royalties), 100),
        Err(NftError::TooManyRoyaltyBeneficiaries)
    ));
    assert!(matches!(
        contract.mint(&ctx, "r.near".to_string(), 0, None, 1_000_000),
        Err(NftError::AttachedDepositTooLow)
    ));
    assert_eq!(contract.tokens_by_id.len(), 0);
}

#[test]
fn test_freeze_collection_stops_minting() {
    let mut contract = minting_contract();
    let ctx = nft_ctx("marketplace.near", 8580000000000000000000);
    assert!(matches!(contract.freeze_collection(&ctx, 0), Err(NftError::CollectionEmpty)));
    contract.mint(&ctx, "r.near".to_string(), 0, None, 100).unwrap();
    assert!(matches!(
        contract.freeze_collection(&nft_ctx("stranger.near", 0), 0),
        Err(NftError::NotContractOwner)
    ));
    contract.freeze_collection(&ctx, 0).expect("freezing is refused");
    assert!(matches!(
        contract.mint(&ctx, "r.near".to_string(), 0, None, 100),
        Err(NftError::CollectionFrozen)
    ));
}

#[test]
fn test_transfer_moves_a_token() {
    let mut contract = minting_contract();
    let ctx = nft_ctx("marketplace.near", 8580000000000000000000);
    contract.mint(&ctx, "alice.near".to_string(), 0, None, 850).unwrap();

    let one_yocto = nft_ctx("alice.near", 1);
    assert!(matches!(
        contract.nft_transfer(&nft_ctx("alice.near", 0), "bob.near".to_string(), "0".to_string(), 0, None),
        Err(NftError::RequiresOneYocto)
    ));
    assert!(matches!(
        contract.nft_transfer(&nft_ctx("bob.near", 1), "carol.near".to_string(), "0".to_string(), 0, None),
        Err(NftError::Unauthorized)
    ));
    assert!(matches!(
        contract.nft_transfer(&one_yocto, "alice.near".to_string(), "0".to_string(), 0, None),
        Err(NftError::ReceiverIsOwner)
    ));
    assert!(matches!(
        contract.nft_transfer(&one_yocto, "bob.near".to_string(), "9".to_string(), 0, None),
        Err(NftError::TokenNotFound)
    ));
    let refund = contract
        .nft_transfer(&one_yocto, "bob.near".to_string(), "0".to_string(), 0, None)
        .expect("the transfer is refused");
    assert_eq!(refund.receiver_id, "alice.near");
    assert_eq!(refund.amount_yocto, 0);
    assert_eq!(contract.tokens_by_id.get(&"0".to_string()).unwrap().owner_id, "bob.near");
    assert!(contract.tokens_per_owner.get(&"alice.near".to_string()).is_none());
    assert!(contract
        .tokens_per_owner
        .get(&"bob.near".to_string())
        .unwrap()
        .contains_key(&"0".to_string()));
}

#[test]
fn test_refused_transfer_call_gives_the_token_back() {
    let mut contract = minting_contract();
    let ctx = nft_ctx("marketplace.near", 8580000000000000000000);
    contract.mint(&ctx, "alice.near".to_string(), 0, None, 850).unwrap();

    let call = contract
        .nft_transfer_call(
            &nft_ctx("alice.near", 1),
            "market.near".to_string(),
            "0".to_string(),
            0,
            None,
            "{}".to_string(),
        )
        .expect("the transfer call is refused");
    assert_eq!(call.on_transfer.receiver_contract_id, "market.near");
    assert_eq!(call.on_transfer.previous_owner_id, "alice.near");
    assert_eq!(contract.tokens_by_id.get(&"0".to_string()).unwrap().owner_id, "market.near");

    // the receiver answered that the token must go back
    let self_call = CallContext {
        predecessor_account_id: "nft.eneftigo.near".to_string(),
        ..nft_ctx("alice.near", 0)
    };
    let outcome = contract
        .nft_resolve_transfer(&self_call, call.resolve, CallResult::Successful(Some(true)))
        .expect("resolving fails");
    assert!(!outcome.transferred);
    assert_eq!(contract.tokens_by_id.get(&"0".to_string()).unwrap().owner_id, "alice.near");
    assert!(contract.tokens_per_owner.get(&"market.near".to_string()).is_none());
}

#[test]
fn test_accepted_transfer_call_stands() {
    let mut contract = minting_contract();
    let ctx = nft_ctx("marketplace.near", 8580000000000000000000);
    contract.mint(&ctx, "alice.near".to_string(), 0, None, 850).unwrap();
    let call = contract
        .nft_transfer_call(&nft_ctx("alice.near", 1), "market.near".to_string(), "0".to_string(), 0, None, String::new())
        .unwrap();
    let self_call = CallContext {
        predecessor_account_id: "nft.eneftigo.near".to_string(),
        ..nft_ctx("alice.near", 0)
    };
    let stray = ResolveTransferArgs {
        authorized_id: None,
        previous_owner_id: "alice.near".to_string(),
        receiver_id: "market.near".to_string(),
        token_id: "0".to_string(),
        previous_approved_account_ids: LookupTable::new(),
        memo: None,
    };
    assert!(matches!(
        contract.nft_resolve_transfer(&nft_ctx("alice.near", 0), stray, CallResult::Successful(Some(true))),
        Err(NftError::NotSelfCall)
    ));
    let outcome = contract
        .nft_resolve_transfer(&self_call, call.resolve, CallResult::Successful(Some(false)))
        .unwrap();
    assert!(outcome.transferred);
    assert_eq!(contract.tokens_by_id.get(&"0".to_string()).unwrap().owner_id, "market.near");
}

#[test]
fn test_transfer_call_needs_gas() {
    let mut contract = minting_contract();
    let ctx = nft_ctx("marketplace.near", 8580000000000000000000);
    contract.mint(&ctx, "alice.near".to_string(), 0, None, 850).unwrap();
    let low_gas = CallContext { prepaid_gas: 1, ..nft_ctx("alice.near", 1) };
    assert!(matches!(
        contract.nft_transfer_call(&low_gas, "market.near".to_string(), "0".to_string(), 0, None, String::new()),
        Err(NftError::NotEnoughGas)
    ));
}
