use chrono::{DateTime, TimeZone, Utc};
use eneftigo::context::CallContext;
use eneftigo::marketplace::bid::Bid;
use eneftigo::marketplace::constants::{
    NFT_MAKE_COLLECTION_GAS, NFT_MAKE_COLLECTION_STORAGE_MAX, PRICE_STEP_YOCTO,
    PRIMARY_LISTING_ADD_STORAGE_MAX,
};
use eneftigo::marketplace::contract::MarketplaceContract;
use eneftigo::marketplace::primary_seller::{
    primary_listing_add_accepting_proposals_storage, primary_listing_add_buy_now_only_storage,
};
use eneftigo::marketplace::errors::MarketError;
use eneftigo::marketplace::external::NftMetadata;
use eneftigo::marketplace::primary::{PrimaryListing, PrimaryListingId};
use eneftigo::marketplace::status::ListingStatus;

const MARKETPLACE_ACCOUNT_ID: &str = "place.eneftigo.testnet";
const NFT_CONTRACT_ID: &str = "0.nft.eneftigo.testnet";
const NONEXISTENT_NFT_CONTRACT_ID: &str = "nonexistent.eneftigo.testnet";
const OFFEROR_ACCOUNT_ID: &str = "v-20220601151730-24646460642804";
const MALICIOUS_ACCOUNT_ID: &str = "malicious.eneftigo.testnet";
const PROPOSER1_ACCOUNT_ID: &str = "proposer1.eneftigo.testnet";
const PROPOSER2_ACCOUNT_ID: &str = "proposer2.eneftigo.testnet";

fn pl_nanos(y: i32, mo: u32, d: u32, h: u32, mi: u32) -> u64 {
    Utc.with_ymd_and_hms(y, mo, d, h, mi, 0).unwrap().timestamp_nanos_opt().unwrap() as u64
}

fn pl_rfc3339(s: &str) -> i64 {
    DateTime::parse_from_rfc3339(s).unwrap().timestamp_nanos_opt().unwrap()
}

/// A call by the seller (or by a stranger when `malicious`) at `now`, with
/// storage priced at `byte_cost`.
fn pl_ctx(malicious: bool, now: u64, attached: u128, byte_cost: u128) -> CallContext {
    let account = if malicious { MALICIOUS_ACCOUNT_ID } else { OFFEROR_ACCOUNT_ID };
    CallContext {
        current_account_id: MARKETPLACE_ACCOUNT_ID.to_string(),
        signer_account_id: account.to_string(),
        predecessor_account_id: account.to_string(),
        attached_deposit: attached,
        block_timestamp: now,
        storage_byte_cost: byte_cost,
        prepaid_gas: 1_000_000_000_000_000_000,
    }
}

fn pl_bid(id: u64, bidder: &str, amount: u128) -> Bid {
    Bid { id, bidder_id: bidder.to_string(), amount_yocto: amount }
}

fn pl_metadata() -> NftMetadata {
    NftMetadata::new(
        "Bored Grapes",
        "https://ipfs.io/ipfs/QmcRD4wkPPi6dig81r5sLj9Zm1gDCL4zgpEj9CfuRrGbzF",
    )
}

fn pl_listing(
    nft_contract_id: &str,
    seller: &str,
    supply: u64,
    start: &str,
    end: &str,
    next_bid_id: u64,
) -> PrimaryListing {
    PrimaryListing {
        id: PrimaryListingId { nft_contract_id: nft_contract_id.to_string(), collection_id: 0 },
        seller_id: seller.to_string(),
        nft_metadata: pl_metadata(),
        supply_total: supply,
        price_yocto: Some(1000),
        min_bid_yocto: Some(500),
        start_timestamp: pl_rfc3339(start),
        end_timestamp: Some(pl_rfc3339(end)),
        status: ListingStatus::Unstarted,
        supply_left: supply,
        bids: Vec::new(),
        next_bid_id,
    }
}

/// A listing of `supply` tokens from 26 May to 10 June 1975 with three
/// standing proposals.
fn seller_listing(supply: u64, with_proposals: bool) -> PrimaryListing {
    let mut listing = pl_listing(
        NFT_CONTRACT_ID,
        OFFEROR_ACCOUNT_ID,
        supply,
        "1975-05-26T00:00:00+00:00",
        "1975-06-10T00:00:00+00:00",
        4,
    );
    if with_proposals {
        listing.bids.push(pl_bid(1, PROPOSER1_ACCOUNT_ID, 500));
        listing.bids.push(pl_bid(2, PROPOSER2_ACCOUNT_ID, 900));
        listing.bids.push(pl_bid(3, PROPOSER2_ACCOUNT_ID, 700));
        listing.sort_bids();
    }
    listing
}

fn pl_marketplace(listing: PrimaryListing) -> MarketplaceContract {
    let mut marketplace = MarketplaceContract::new(MARKETPLACE_ACCOUNT_ID.to_string());
    marketplace.primary_listings.add(listing);
    marketplace
}

fn pl_key() -> PrimaryListingId {
    PrimaryListingId { nft_contract_id: NFT_CONTRACT_ID.to_string(), collection_id: 0 }
}

fn bid_ids(listing: &PrimaryListing) -> Vec<u64> {
    listing.bids.iter().map(|b| b.id).collect()
}

#[test]
fn internal_tests_test_lifetime() {
    let mut listing = pl_listing(
        "nft.eneftigo.testnet",
        "offeror.eneftigo.testnet",
        5,
        "1975-05-26T00:00:00+00:00",
        "1975-06-24T00:00:00+00:00",
        0,
    );

    listing.update_status(pl_nanos(1975, 5, 25, 0, 0) as i64);
    assert!(listing.status == ListingStatus::Unstarted);

    listing.update_status(pl_nanos(1975, 5, 26, 1, 0) as i64);
    assert!(listing.status == ListingStatus::Running);

    listing.update_status(pl_nanos(1975, 5, 25, 1, 0) as i64);
    assert!(listing.status == ListingStatus::Running);

    listing.update_status(pl_nanos(1975, 6, 25, 1, 0) as i64);
    assert!(listing.status == ListingStatus::Ended);

    listing.update_status(pl_nanos(1975, 6, 20, 1, 0) as i64);
    assert!(listing.status == ListingStatus::Ended);

    listing.update_status(pl_nanos(1975, 5, 20, 1, 0) as i64);
    assert!(listing.status == ListingStatus::Ended);
}

#[test]
fn internal_tests_test_functions() {
    let mut listing = pl_listing(
        "nft.eneftigo.testnet",
        "offeror.eneftigo.testnet",
        5,
        "1975-05-26T00:00:00+00:00",
        "1975-06-24T00:00:00+00:00",
        0,
    );

    listing.bids.push(pl_bid(1, "proposer1", 900));
    assert!(listing.acceptable_bid_yocto() == Ok(500), "Wrong acceptable price");
    listing.bids.push(pl_bid(2, "proposer2", 600));
    assert!(listing.acceptable_bid_yocto() == Ok(500), "Wrong acceptable price");
    listing.bids.push(pl_bid(3, "proposer3", 800));
    assert!(listing.acceptable_bid_yocto() == Ok(500), "Wrong acceptable price");
    listing.bids.push(pl_bid(4, "proposer4", 500));
    assert!(listing.acceptable_bid_yocto() == Ok(500), "Wrong acceptable price");
    listing.bids.push(pl_bid(5, "proposer5", 500));

    assert!(bid_ids(&listing) == vec![1, 2, 3, 4, 5], "Wrong initial ordering");

    listing.sort_bids();
    assert!(bid_ids(&listing) == vec![1, 3, 2, 4, 5], "Wrong sorted ordering");
    assert!(listing.acceptable_bid_yocto() == Ok(500 + PRICE_STEP_YOCTO), "Wrong acceptable price");

    listing.supply_left = 3;
    let pruned = listing.remove_supply_exceeding_bids();
    assert!(
        listing.bids.len() == 3,
        "Number of acceptable proposals after pruning does not match supply"
    );
    assert!(bid_ids(&listing) == vec![1, 3, 2], "Wrong proposals pruned");
    assert!(listing.acceptable_bid_yocto() == Ok(600 + PRICE_STEP_YOCTO), "Wrong acceptable price");
    assert!(listing.bids.len() == 3, "Wrong proposals are acceptable/unacceptable");
    assert_eq!(pruned.iter().map(|b| b.id).collect::<Vec<u64>>(), vec![5, 4]);
}

#[test]
fn test_add_buy_now_only_success() {
    let ctx = pl_ctx(false, pl_nanos(1975, 5, 24, 13, 10), 60470000000000000000000, 0);
    let marketplace = MarketplaceContract::new(MARKETPLACE_ACCOUNT_ID.to_string());

    let request = marketplace
        .primary_listing_add_buy_now_only(
            &ctx,
            String::from("abcd"),
            String::from("https://ipfs.io/ipfs/Qmc"),
            10,
            1000,
            Some(String::from("2022-09-01T00:00:00+00:00")),
            Some(String::from("2022-09-20T00:00:00+00:00")),
        )
        .expect("the listing is refused");
    assert_eq!(request.make_collection.nft_contract_id, "nft.place.eneftigo.testnet");
    assert_eq!(request.make_collection.max_supply, 10);
    assert_eq!(request.make_collection.gas, NFT_MAKE_COLLECTION_GAS);
    assert_eq!(request.completion.buy_now_price_yocto, 1000);
    assert!(request.completion.min_proposal_price_yocto.is_none());
    assert_eq!(request.completion.start_timestamp, pl_rfc3339("2022-09-01T00:00:00+00:00"));
    assert_eq!(request.completion.end_timestamp, Some(pl_rfc3339("2022-09-20T00:00:00+00:00")));
}

#[test]
fn test_accepting_proposals_batches() {
    let ctx = pl_ctx(false, pl_nanos(1975, 5, 24, 13, 10), 8380000000000000000000, 0);
    let mut marketplace = pl_marketplace(seller_listing(3, true));

    let accepted = marketplace
        .primary_listing_accept_proposals(&ctx, NFT_CONTRACT_ID.to_string(), 0, 1)
        .expect("accepting is refused");
    assert_eq!(accepted.iter().map(|b| b.id).collect::<Vec<u64>>(), vec![2]);
    let listing = marketplace.primary_listings.get(&pl_key()).expect("Could not get updated FPO");
    assert!(listing.bids.len() == 2, "Wrong number of acceptable_proposals");
    assert!(listing.supply_left == 2, "Wrong supply_left");

    marketplace
        .primary_listing_accept_proposals(&ctx, NFT_CONTRACT_ID.to_string(), 0, 2)
        .expect("accepting is refused");
    let listing = marketplace.primary_listings.get(&pl_key()).expect("Could not get updated FPO");
    assert!(listing.bids.is_empty(), "Wrong number of acceptable_proposals");
    assert!(listing.supply_left == 0, "Wrong supply_left");
}

#[test]
fn test_accepting_proposals_all_at_once() {
    let ctx = pl_ctx(false, pl_nanos(1975, 5, 24, 13, 10), 8380000000000000000000, 0);
    let mut marketplace = pl_marketplace(seller_listing(3, true));

    let accepted = marketplace
        .primary_listing_accept_proposals(&ctx, NFT_CONTRACT_ID.to_string(), 0, 3)
        .expect("accepting is refused");
    assert_eq!(accepted.iter().map(|b| b.id).collect::<Vec<u64>>(), vec![2, 3, 1]);
    let listing = marketplace.primary_listings.get(&pl_key()).expect("Could not get updated FPO");
    assert!(listing.bids.is_empty(), "Some acceptable_proposals are left");
    assert!(listing.supply_left == 0, "Some supply_left");
}

#[test]
fn test_accepting_proposals_by_unauthorized_user_is_refused() {
    let ctx = pl_ctx(true, pl_nanos(1975, 5, 24, 13, 10), 0, 0);
    let mut marketplace = pl_marketplace(seller_listing(3, true));
    let r = marketplace.primary_listing_accept_proposals(&ctx, NFT_CONTRACT_ID.to_string(), 0, 1);
    assert!(matches!(r, Err(MarketError::NotSeller)));
}

#[test]
fn test_accepting_too_many_proposals_is_refused() {
    let ctx = pl_ctx(false, pl_nanos(1975, 5, 24, 13, 10), 0, 0);
    let mut marketplace = pl_marketplace(seller_listing(3, true));
    let r = marketplace.primary_listing_accept_proposals(&ctx, NFT_CONTRACT_ID.to_string(), 0, 4);
    assert!(matches!(r, Err(MarketError::NotEnoughProposals)));
    let listing = marketplace.primary_listings.get(&pl_key()).unwrap();
    assert_eq!(bid_ids(listing), vec![2, 3, 1]);
    assert_eq!(listing.supply_left, 3);
}

#[test]
fn test_accepting_proposals_for_nonexistent_offering_is_refused() {
    let ctx = pl_ctx(false, pl_nanos(1975, 5, 24, 13, 10), 0, 0);
    let mut marketplace = pl_marketplace(seller_listing(3, true));
    let r = marketplace.primary_listing_accept_proposals(&ctx, NONEXISTENT_NFT_CONTRACT_ID.to_string(), 0, 1);
    assert!(matches!(r, Err(MarketError::ListingNotFound)));
}

fn assert_concluded(marketplace: &MarketplaceContract) {
    assert!(marketplace.primary_listings.by_id.len() == 0, "fpos_by_contract_id not empty");
    assert!(
        marketplace.primary_listings.by_seller_id.get(&OFFEROR_ACCOUNT_ID.to_string()).is_none(),
        "fpos_by_contract_id not empty"
    );
}

#[test]
fn test_conclude_before_start_date() {
    let ctx = pl_ctx(false, pl_nanos(1975, 5, 24, 0, 0), 8380000000000000000000, 0);
    let mut marketplace = pl_marketplace(seller_listing(3, true));
    let (deposit, refunds, released) = marketplace
        .primary_listing_conclude(&ctx, NFT_CONTRACT_ID.to_string(), 0, 0, 0)
        .expect("concluding is refused");
    assert_concluded(&marketplace);
    assert_eq!(deposit, 0);
    assert_eq!(released.iter().map(|b| b.id).collect::<Vec<u64>>(), vec![1, 3, 2]);
    assert_eq!(refunds.iter().map(|t| t.amount_yocto).collect::<Vec<u128>>(), vec![500, 700, 900]);
}

#[test]
fn test_conclude_after_end_date() {
    let ctx = pl_ctx(false, pl_nanos(1975, 7, 24, 0, 0), 8380000000000000000000, 0);
    let mut marketplace = pl_marketplace(seller_listing(3, true));
    marketplace
        .primary_listing_conclude(&ctx, NFT_CONTRACT_ID.to_string(), 0, 0, 0)
        .expect("concluding is refused");
    assert_concluded(&marketplace);
}

#[test]
fn test_conclude_while_running_and_supply_zero() {
    let ctx = pl_ctx(false, pl_nanos(1975, 6, 1, 0, 0), 8380000000000000000000, 0);
    let mut marketplace = pl_marketplace(seller_listing(0, false));
    marketplace
        .primary_listing_conclude(&ctx, NFT_CONTRACT_ID.to_string(), 0, 0, 0)
        .expect("concluding is refused");
    assert_concluded(&marketplace);
}

#[test]
fn test_conclude_credits_freed_storage_to_the_seller() {
    let byte_cost: u128 = 10_000_000_000_000_000_000;
    let ctx = pl_ctx(false, pl_nanos(1975, 7, 24, 0, 0), 0, byte_cost);
    let mut marketplace = pl_marketplace(seller_listing(3, true));
    marketplace.storage_deposits.insert(OFFEROR_ACCOUNT_ID.to_string(), 7);
    let (deposit, _, _) = marketplace
        .primary_listing_conclude(&ctx, NFT_CONTRACT_ID.to_string(), 0, 100, 0)
        .expect("concluding is refused");
    assert_eq!(deposit, 7 + 100 * byte_cost);
    assert_eq!(marketplace.deposit_or_zero(&OFFEROR_ACCOUNT_ID.to_string()), 7 + 100 * byte_cost);
}

#[test]
fn test_conclude_credits_released_bidders_their_storage() {
    let byte_cost: u128 = 10_000_000_000_000_000_000;
    let ctx = pl_ctx(false, pl_nanos(1975, 7, 24, 0, 0), 0, byte_cost);
    let mut marketplace = pl_marketplace(seller_listing(3, true));
    marketplace.storage_deposits.insert(PROPOSER2_ACCOUNT_ID.to_string(), 3);
    let (deposit, refunds, _) = marketplace
        .primary_listing_conclude(&ctx, NFT_CONTRACT_ID.to_string(), 0, 100, 40)
        .expect("concluding is refused");
    assert_eq!(deposit, 100 * byte_cost);
    assert_eq!(refunds.iter().map(|t| t.amount_yocto).collect::<Vec<u128>>(), vec![500, 700, 900]);
    // proposer2 had two bids, each freeing 40 bytes; proposer1 has no record
    assert_eq!(marketplace.deposit_or_zero(&PROPOSER2_ACCOUNT_ID.to_string()), 3 + 2 * 40 * byte_cost);
    assert_eq!(marketplace.deposit(&PROPOSER1_ACCOUNT_ID.to_string()), (0, false));
}

#[test]
fn test_conclude_by_unauthorized_user_is_refused() {
    let ctx = pl_ctx(true, pl_nanos(1975, 5, 24, 13, 10), 0, 0);
    let mut marketplace = pl_marketplace(seller_listing(3, true));
    let r = marketplace.primary_listing_conclude(&ctx, NFT_CONTRACT_ID.to_string(), 0, 0, 0);
    assert!(matches!(r, Err(MarketError::NotSeller)));
    assert!(marketplace.primary_listings.get(&pl_key()).is_some());
}

#[test]
fn test_conclude_nonexistent_offering_is_refused() {
    let ctx = pl_ctx(false, pl_nanos(1975, 5, 24, 13, 10), 0, 0);
    let mut marketplace = pl_marketplace(seller_listing(3, true));
    let r = marketplace.primary_listing_conclude(&ctx, NONEXISTENT_NFT_CONTRACT_ID.to_string(), 0, 0, 0);
    assert!(matches!(r, Err(MarketError::ListingNotFound)));
}

#[test]
fn test_end_date_into_the_past() {
    // the runtime's default byte cost, and no storage deposit record
    let ctx = pl_ctx(false, pl_nanos(1975, 5, 24, 13, 10), 9490000000000000000000, 10_000_000_000_000_000_000);
    let marketplace = MarketplaceContract::new(MARKETPLACE_ACCOUNT_ID.to_string());
    let r = marketplace.primary_listing_add_accepting_proposals(
        &ctx,
        String::from("Bored Grapes"),
        String::from("https://ipfs.io/ipfs/QmcRD4wkPPi6dig81r5sLj9Zm1gDCL4zgpEj9CfuRrGbzF"),
        2,
        1100,
        500,
        None,
        "1975-04-24T00:00:00+00:00".to_string(),
    );
    assert!(matches!(r, Err(MarketError::EndDateInThePast)));
}

#[test]
fn test_conclude_while_running_and_supply_left() {
    let ctx = pl_ctx(false, pl_nanos(1975, 6, 1, 0, 0), 8380000000000000000000, 0);
    let mut marketplace = pl_marketplace(seller_listing(3, true));
    let r = marketplace.primary_listing_conclude(&ctx, NFT_CONTRACT_ID.to_string(), 0, 0, 0);
    assert!(matches!(r, Err(MarketError::CannotConcludeRunning)));
    let listing = marketplace.primary_listings.get(&pl_key()).expect("the listing is gone");
    assert_eq!(bid_ids(listing), vec![2, 3, 1]);
    assert_eq!(listing.supply_left, 3);
}

fn add_accepting(
    ctx: &CallContext,
    supply: u64,
    price: u128,
    min_proposal: u128,
    start: Option<&str>,
    end: &str,
) -> Result<(), MarketError> {
    let marketplace = MarketplaceContract::new(MARKETPLACE_ACCOUNT_ID.to_string());
    marketplace
        .primary_listing_add_accepting_proposals(
            ctx,
            String::from("Bored Grapes"),
            String::from("https://ipfs.io/ipfs/QmcRD4wkPPi6dig81r5sLj9Zm1gDCL4zgpEj9CfuRrGbzF"),
            supply,
            price,
            min_proposal,
            start.map(|s| s.to_string()),
            end.to_string(),
        )
        .map(|_| ())
}

#[test]
fn test_add_accepting_proposals_checks() {
    let ctx = pl_ctx(false, pl_nanos(1975, 5, 24, 13, 10), 0, 0);
    let start = Some("1975-05-25T00:00:00+00:00");
    let end = "1975-06-01T00:00:00+00:00";
    assert!(add_accepting(&ctx, 10, 5000, 1000, start, end).is_ok());
    assert_eq!(add_accepting(&ctx, 10, 999, 0, start, end), Err(MarketError::PriceTooLow));
    assert_eq!(add_accepting(&ctx, 10, 5005, 1000, start, end), Err(MarketError::PriceNotMultipleOfStep));
    assert_eq!(add_accepting(&ctx, 10, 5000, 1005, start, end), Err(MarketError::PriceNotMultipleOfStep));
    assert_eq!(add_accepting(&ctx, 10, 5000, 5000, start, end), Err(MarketError::MinProposalNotBelowPrice));
    assert_eq!(add_accepting(&ctx, 0, 5000, 1000, start, end), Err(MarketError::SupplyOutOfRange));
    assert_eq!(add_accepting(&ctx, 101, 5000, 1000, start, end), Err(MarketError::SupplyOutOfRange));
    assert_eq!(
        add_accepting(&ctx, 10, 5000, 1000, Some("1975-05-20T00:00:00+00:00"), end),
        Err(MarketError::StartDateInThePast)
    );
    assert_eq!(
        add_accepting(&ctx, 10, 5000, 1000, start, "1975-05-20T00:00:00+00:00"),
        Err(MarketError::EndDateInThePast)
    );
    assert_eq!(
        add_accepting(&ctx, 10, 5000, 1000, start, "1975-05-24T18:00:00+00:00"),
        Err(MarketError::DurationTooShort)
    );
    assert_eq!(
        add_accepting(&ctx, 10, 5000, 1000, start, "1975-05-25T00:30:00+00:00"),
        Err(MarketError::DurationTooShort)
    );
    assert_eq!(
        add_accepting(&ctx, 10, 5000, 1000, start, "1975-07-25T00:00:00+00:00"),
        Err(MarketError::DurationTooLong)
    );
    assert_eq!(add_accepting(&ctx, 10, 5000, 1000, start, "2022-13-01"), Err(MarketError::WrongDateFormat));
    assert_eq!(
        add_accepting(&ctx, 10, 5000, 1000, Some("not a date"), end),
        Err(MarketError::WrongDateFormat)
    );
    // the arguments are checked before the storage deposit
    let priced = pl_ctx(false, pl_nanos(1975, 5, 24, 13, 10), 0, 10_000_000_000_000_000_000);
    assert_eq!(add_accepting(&priced, 10, 5005, 1000, start, end), Err(MarketError::PriceNotMultipleOfStep));
    assert_eq!(add_accepting(&priced, 0, 5000, 1000, start, end), Err(MarketError::SupplyOutOfRange));
    assert_eq!(
        add_accepting(&priced, 10, 5000, 1000, start, "1975-05-20T00:00:00+00:00"),
        Err(MarketError::EndDateInThePast)
    );
    assert_eq!(add_accepting(&priced, 10, 5000, 1000, start, end), Err(MarketError::StorageDepositTooLow));
}

#[test]
fn test_add_needs_a_storage_deposit() {
    let byte_cost: u128 = 10_000_000_000_000_000_000;
    let ctx = pl_ctx(false, pl_nanos(1975, 5, 24, 13, 10), 0, byte_cost);
    let start = Some("1975-05-25T00:00:00+00:00");
    let end = "1975-06-01T00:00:00+00:00";
    assert_eq!(add_accepting(&ctx, 10, 5000, 1000, start, end), Err(MarketError::StorageDepositTooLow));

    let worst = (PRIMARY_LISTING_ADD_STORAGE_MAX + NFT_MAKE_COLLECTION_STORAGE_MAX) as u128 * byte_cost;
    let mut marketplace = MarketplaceContract::new(MARKETPLACE_ACCOUNT_ID.to_string());
    marketplace.storage_deposits.insert(OFFEROR_ACCOUNT_ID.to_string(), worst);
    let request = marketplace
        .primary_listing_add_accepting_proposals(
            &ctx,
            String::from("Bored Grapes"),
            String::from("https://ipfs.io/ipfs/QmcRD4wkPPi6dig81r5sLj9Zm1gDCL4zgpEj9CfuRrGbzF"),
            10,
            5000,
            1000,
            start.map(|s| s.to_string()),
            end.to_string(),
        )
        .expect("the listing is refused");
    assert_eq!(
        request.make_collection.attached_deposit,
        NFT_MAKE_COLLECTION_STORAGE_MAX as u128 * byte_cost
    );
    assert_eq!(request.completion.min_proposal_price_yocto, Some(1000));
}

#[test]
fn test_buy_now_only_end_date_into_the_past_is_refused() {
    let ctx = pl_ctx(false, pl_nanos(1975, 5, 24, 13, 10), 0, 0);
    let marketplace = MarketplaceContract::new(MARKETPLACE_ACCOUNT_ID.to_string());
    let r = marketplace.primary_listing_add_buy_now_only(
        &ctx,
        String::from("abcd"),
        String::from("https://ipfs.io/ipfs/Qmc"),
        10,
        1000,
        None,
        Some(String::from("1975-05-20T00:00:00+00:00")),
    );
    assert!(matches!(r, Err(MarketError::EndDateInThePast)));
    let r = marketplace.primary_listing_add_buy_now_only(
        &ctx,
        String::from("abcd"),
        String::from("not a url"),
        10,
        1000,
        None,
        None,
    );
    assert!(matches!(r, Err(MarketError::InvalidMediaUrl)));
    let r = marketplace.primary_listing_add_buy_now_only(
        &ctx,
        "t".repeat(129),
        String::from("https://ipfs.io/ipfs/Qmc"),
        10,
        1000,
        None,
        None,
    );
    assert!(matches!(r, Err(MarketError::TitleTooLong)));
}

#[test]
fn test_removing_an_added_listing_restores_the_book() {
    let mut marketplace = pl_marketplace(seller_listing(3, false));
    let mut other = seller_listing(2, false);
    other.id.collection_id = 1;
    marketplace.primary_listings.add(other);
    assert_eq!(marketplace.primary_listings.by_id.len(), 2);
    let removed = marketplace
        .primary_listings
        .remove(&PrimaryListingId { nft_contract_id: NFT_CONTRACT_ID.to_string(), collection_id: 1 })
        .expect("the listing is missing");
    assert_eq!(removed.supply_total, 2);
    assert_eq!(marketplace.primary_listings.by_id.len(), 1);
    let index = marketplace.primary_listings.by_seller_id.get(&OFFEROR_ACCOUNT_ID.to_string()).expect("no index");
    assert_eq!(index.len(), 1);
    assert!(index.contains_key(&pl_key()));
    // removing the seller's only listing empties the index
    marketplace.primary_listings.remove(&pl_key()).expect("the listing is missing");
    assert!(marketplace.primary_listings.by_seller_id.get(&OFFEROR_ACCOUNT_ID.to_string()).is_none());
}

#[test]
fn test_accepting_estimate_is_buy_now_estimate_with_end() {
    let start = Some("1975-05-25T00:00:00+00:00".to_string());
    let end = Some("1975-06-01T00:00:00+00:00".to_string());
    for s in [&None, &start] {
        let accepting = primary_listing_add_accepting_proposals_storage("seller.near", "Grapes", "https://x", s);
        let buy_now = primary_listing_add_buy_now_only_storage("seller.near", "Grapes", "https://x", s, &end);
        assert_eq!(accepting, buy_now);
    }
    assert_eq!(primary_listing_add_accepting_proposals_storage("s", "t", "m", &None), 701 + 2 + 1 + 1 + 8);
}
