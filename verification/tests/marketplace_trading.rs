use eneftigo::context::{CallContext, CallResult};
use eneftigo::marketplace::bid::Bid;
use eneftigo::marketplace::constants::{
    MIN_DEPOSIT, NFT_MINT_STORAGE_MAX, SECONDARY_LISTING_ADD_STORAGE_MAX,
};
use eneftigo::marketplace::contract::MarketplaceContract;
use eneftigo::marketplace::errors::MarketError;
use eneftigo::marketplace::external::NftMetadata;
use eneftigo::marketplace::primary::{PrimaryListing, PrimaryListingId};
use eneftigo::marketplace::secondary::SecondaryListingId;
use eneftigo::marketplace::status::ListingStatus;

const MARKET: &str = "market.near";
const SELLER: &str = "seller.near";
const BUYER: &str = "buyer.near";
const BIDDER1: &str = "bidder1.near";
const BIDDER2: &str = "bidder2.near";
const NFT: &str = "nft.market.near";
const BYTE_COST: u128 = 10_000_000_000_000_000_000;
const HOUR: u64 = 3_600_000_000_000;

fn mt_ctx(account: &str, now: u64, attached: u128) -> CallContext {
    CallContext {
        current_account_id: MARKET.to_string(),
        signer_account_id: account.to_string(),
        predecessor_account_id: account.to_string(),
        attached_deposit: attached,
        block_timestamp: now,
        storage_byte_cost: BYTE_COST,
        prepaid_gas: 300_000_000_000_000,
    }
}

fn mt_metadata() -> NftMetadata {
    NftMetadata::new("Grapes", "https://ipfs.io/ipfs/QmcRD4wkPPi6dig81r5sLj9Zm1gDCL4zgpEj9CfuRrGbzF")
}

/// A running listing of `supply` tokens at 10000, taking bids from 1000.
fn running_listing(supply: u64) -> PrimaryListing {
    PrimaryListing {
        id: PrimaryListingId { nft_contract_id: NFT.to_string(), collection_id: 7 },
        seller_id: SELLER.to_string(),
        nft_metadata: mt_metadata(),
        supply_total: supply,
        price_yocto: Some(10000),
        min_bid_yocto: Some(1000),
        start_timestamp: 0,
        end_timestamp: Some(100 * HOUR as i64),
        status: ListingStatus::Unstarted,
        supply_left: supply,
        bids: Vec::new(),
        next_bid_id: 0,
    }
}

fn mt_marketplace(listing: PrimaryListing) -> MarketplaceContract {
    let mut m = MarketplaceContract::new(MARKET.to_string());
    m.primary_listings.add(listing);
    m
}

fn mt_key() -> PrimaryListingId {
    PrimaryListingId { nft_contract_id: NFT.to_string(), collection_id: 7 }
}

fn standing(m: &MarketplaceContract) -> Vec<(u64, u128)> {
    m.primary_listings.get(&mt_key()).unwrap().bids.iter().map(|b| (b.id, b.amount_yocto)).collect()
}

#[test]
fn test_deposit_place_and_withdraw() {
    let mut m = MarketplaceContract::new(MARKET.to_string());
    let small = mt_ctx(SELLER, HOUR, MIN_DEPOSIT - 1);
    assert!(matches!(m.place_deposit(&small, 80), Err(MarketError::DepositBelowMinimum)));
    assert_eq!(m.deposit(&SELLER.to_string()), (0, false));

    let ctx = mt_ctx(SELLER, HOUR, MIN_DEPOSIT);
    m.place_deposit(&ctx, 80).expect("the deposit is refused");
    assert_eq!(m.deposit(&SELLER.to_string()), (MIN_DEPOSIT - 80 * BYTE_COST, true));

    // a top-up must bring the deposit back to the minimum
    let short = mt_ctx(SELLER, HOUR, 5);
    assert!(matches!(m.place_deposit(&short, 0), Err(MarketError::DepositBelowMinimum)));
    let more = mt_ctx(SELLER, HOUR, 80 * BYTE_COST + 5);
    m.place_deposit(&more, 0).unwrap();
    assert_eq!(m.deposit_or_zero(&SELLER.to_string()), MIN_DEPOSIT + 5);

    let w = mt_ctx(SELLER, HOUR, 0);
    assert!(matches!(
        m.withdraw_deposit(&w, MIN_DEPOSIT + 6),
        Err(MarketError::WithdrawalExceedsDeposit)
    ));
    let t = m.withdraw_deposit(&w, 1000).unwrap();
    assert_eq!(t.receiver_id, SELLER);
    assert_eq!(t.amount_yocto, 1000);
    let rest = m.deposit_or_zero(&SELLER.to_string());
    let t = m.withdraw_deposit(&w, rest).unwrap();
    assert_eq!(t.amount_yocto, MIN_DEPOSIT + 5 - 1000);
    assert_eq!(m.deposit(&SELLER.to_string()), (0, true));
}

#[test]
fn test_deposit_must_cover_its_record() {
    let mut m = MarketplaceContract::new(MARKET.to_string());
    let ctx = mt_ctx(SELLER, HOUR, MIN_DEPOSIT);
    let bytes = (MIN_DEPOSIT / BYTE_COST) as u64 + 1;
    assert!(matches!(m.place_deposit(&ctx, bytes), Err(MarketError::DepositCannotCoverStorage)));
}

#[test]
fn test_bids_stand_best_first_within_supply() {
    let mut m = mt_marketplace(running_listing(2));
    let now = HOUR;

    let out = m
        .primary_listing_place_bid(&mt_ctx(BIDDER1, now, 3000), NFT.to_string(), 7, 2000, 0)
        .expect("the bid is refused");
    assert_eq!(out.bid_id, 0);
    assert_eq!(out.transfers.len(), 1);
    assert_eq!(out.transfers[0].receiver_id, BIDDER1);
    assert_eq!(out.transfers[0].amount_yocto, 1000);
    m.primary_listing_place_bid(&mt_ctx(BIDDER2, now, 5000), NFT.to_string(), 7, 5000, 0).unwrap();
    assert_eq!(standing(&m), vec![(1, 5000), (0, 2000)]);

    // both tokens are matched: a new bid must beat the worst by a step
    let l = m.primary_listings.get(&mt_key()).unwrap();
    assert!(l.acceptable_bid_yocto() == Ok(2010));
    assert!(matches!(
        m.primary_listing_place_bid(&mt_ctx(BIDDER2, now, 2000), NFT.to_string(), 7, 2000, 0),
        Err(MarketError::BidTooLow)
    ));
    let out = m
        .primary_listing_place_bid(&mt_ctx(BIDDER2, now, 3000), NFT.to_string(), 7, 3000, 0)
        .unwrap();
    assert_eq!(standing(&m), vec![(1, 5000), (2, 3000)]);
    assert_eq!(out.released.len(), 1);
    assert_eq!(out.released[0].id, 0);
    assert_eq!(out.transfers.len(), 1);
    assert_eq!(out.transfers[0].receiver_id, BIDDER1);
    assert_eq!(out.transfers[0].amount_yocto, 2000);
}

#[test]
fn test_bid_checks() {
    let mut m = mt_marketplace(running_listing(2));
    let now = HOUR;
    let bid = |m: &mut MarketplaceContract, who: &str, at: u64, attached: u128, amount: u128| {
        m.primary_listing_place_bid(&mt_ctx(who, at, attached), NFT.to_string(), 7, amount, 0)
            .map(|o| o.bid_id)
    };
    assert_eq!(bid(&mut m, SELLER, now, 2000, 2000), Err(MarketError::CannotBidOnOwnListing));
    assert_eq!(bid(&mut m, BIDDER1, now, 20000, 10000), Err(MarketError::BidNotBelowPrice));
    assert_eq!(bid(&mut m, BIDDER1, now, 2000, 1505), Err(MarketError::BidNotMultipleOfStep));
    assert_eq!(bid(&mut m, BIDDER1, now, 1000, 2000), Err(MarketError::AttachedDepositTooLow));
    assert_eq!(
        bid(&mut m, BIDDER1, 200 * HOUR, 2000, 2000),
        Err(MarketError::NotRunning(ListingStatus::Ended))
    );
    assert_eq!(
        m.primary_listing_place_bid(&mt_ctx(BIDDER1, now, 2000), "other.near".to_string(), 7, 2000, 0)
            .map(|o| o.bid_id),
        Err(MarketError::ListingNotFound)
    );
    assert!(standing(&m).is_empty());
    // a bid must also pay for its own storage
    assert_eq!(
        m.primary_listing_place_bid(&mt_ctx(BIDDER1, now, 2000), NFT.to_string(), 7, 2000, 10)
            .map(|o| o.bid_id),
        Err(MarketError::StorageNotCovered)
    );
}

#[test]
fn test_revoke_bid_keeps_a_fee() {
    let mut m = mt_marketplace(running_listing(2));
    let now = HOUR;
    m.primary_listing_place_bid(&mt_ctx(BIDDER1, now, 2000), NFT.to_string(), 7, 2000, 0).unwrap();
    m.primary_listing_place_bid(&mt_ctx(BIDDER2, now, 4000), NFT.to_string(), 7, 4000, 0).unwrap();
    assert!(matches!(
        m.primary_listing_revoke_bid(&mt_ctx(BIDDER2, now, 0), NFT.to_string(), 7, 0, 0),
        Err(MarketError::NotBidder)
    ));
    assert!(matches!(
        m.primary_listing_revoke_bid(&mt_ctx(BIDDER2, now, 0), NFT.to_string(), 7, 9, 0),
        Err(MarketError::BidNotFound)
    ));
    let (refund, fee) = m
        .primary_listing_revoke_bid(&mt_ctx(BIDDER1, now, 0), NFT.to_string(), 7, 0, 0)
        .expect("the revocation is refused");
    assert_eq!(refund.receiver_id, BIDDER1);
    assert_eq!(refund.amount_yocto + fee.amount_yocto, 2000);
    assert_eq!(fee.amount_yocto, 200);
    assert_eq!(fee.receiver_id, "fees.market.near");
    assert_eq!(standing(&m), vec![(1, 4000)]);
}

#[test]
fn test_buy_now_then_mint_completion() {
    let mut m = mt_marketplace(running_listing(2));
    let now = HOUR;
    m.primary_listing_place_bid(&mt_ctx(BIDDER1, now, 2000), NFT.to_string(), 7, 2000, 0).unwrap();
    m.primary_listing_place_bid(&mt_ctx(BIDDER2, now, 3000), NFT.to_string(), 7, 3000, 0).unwrap();

    let buyer_ctx = mt_ctx(BUYER, now, 10000);
    assert!(matches!(
        m.primary_listing_buy(&buyer_ctx, NFT.to_string(), 7),
        Err(MarketError::StorageDepositTooLow)
    ));
    m.storage_deposits.insert(BUYER.to_string(), NFT_MINT_STORAGE_MAX as u128 * BYTE_COST);
    let req = m.primary_listing_buy(&buyer_ctx, NFT.to_string(), 7).expect("the purchase is refused");
    assert_eq!(req.mint.receiver_id, BUYER);
    assert_eq!(req.mint.collection_id, 7);
    assert_eq!(req.mint.attached_deposit, NFT_MINT_STORAGE_MAX as u128 * BYTE_COST);
    assert_eq!(req.completion.price_yocto, 10000);
    assert_eq!(m.primary_listings.get(&mt_key()).unwrap().status, ListingStatus::Running);

    let callback = CallContext { predecessor_account_id: MARKET.to_string(), ..buyer_ctx };
    let out = m
        .primary_listing_buy_now_mint_completion(
            &callback,
            req.completion,
            CallResult::Successful(Some(("0".to_string(), 1000))),
            0,
        )
        .expect("the purchase does not complete");
    assert_eq!(out.token_id, "0");
    assert_eq!(out.buyer_deposit, (NFT_MINT_STORAGE_MAX as u128 - 1000) * BYTE_COST);
    assert_eq!(out.transfers[0].receiver_id, SELLER);
    assert_eq!(out.transfers[0].amount_yocto, 10000);
    // one token left: the worse bid is released and refunded
    assert_eq!(out.released.iter().map(|b: &Bid| b.id).collect::<Vec<u64>>(), vec![0]);
    assert_eq!(out.transfers[1].receiver_id, BIDDER1);
    assert_eq!(out.transfers[1].amount_yocto, 2000);
    assert_eq!(standing(&m), vec![(1, 3000)]);
    assert_eq!(m.primary_listings.get(&mt_key()).unwrap().supply_left, 1);
}

#[test]
fn test_released_bidder_is_credited_its_storage_on_purchase() {
    let mut m = mt_marketplace(running_listing(2));
    let now = HOUR;
    // each bid takes 40 bytes, which its bidder pays on top of the bid
    let bid_bytes: u64 = 40;
    let bid_cost = bid_bytes as u128 * BYTE_COST;
    m.storage_deposits.insert(BIDDER1.to_string(), 5);
    m.primary_listing_place_bid(&mt_ctx(BIDDER1, now, 2000 + bid_cost), NFT.to_string(), 7, 2000, bid_bytes).unwrap();
    m.primary_listing_place_bid(&mt_ctx(BIDDER2, now, 3000 + bid_cost), NFT.to_string(), 7, 3000, bid_bytes).unwrap();
    assert_eq!(m.deposit_or_zero(&BIDDER1.to_string()), 5);

    m.storage_deposits.insert(BUYER.to_string(), NFT_MINT_STORAGE_MAX as u128 * BYTE_COST);
    let buyer_ctx = mt_ctx(BUYER, now, 10000);
    let req = m.primary_listing_buy(&buyer_ctx, NFT.to_string(), 7).expect("the purchase is refused");
    let callback = CallContext { predecessor_account_id: MARKET.to_string(), ..buyer_ctx };
    let out = m
        .primary_listing_buy_now_mint_completion(
            &callback,
            req.completion,
            CallResult::Successful(Some(("0".to_string(), 1000))),
            bid_bytes,
        )
        .expect("the purchase does not complete");
    assert_eq!(out.released.iter().map(|b: &Bid| b.id).collect::<Vec<u64>>(), vec![0]);
    assert_eq!(m.deposit_or_zero(&BIDDER1.to_string()), 5 + bid_cost);
    // a bidder without a deposit record gets no record
    assert_eq!(m.deposit(&BIDDER2.to_string()), (0, false));
    assert_eq!(out.buyer_deposit, (NFT_MINT_STORAGE_MAX as u128 - 1000) * BYTE_COST);
}

#[test]
fn test_outbid_bidder_is_credited_its_storage() {
    let mut m = mt_marketplace(running_listing(1));
    let now = HOUR;
    let bid_bytes: u64 = 40;
    let bid_cost = bid_bytes as u128 * BYTE_COST;
    m.storage_deposits.insert(BIDDER1.to_string(), 5);
    m.primary_listing_place_bid(&mt_ctx(BIDDER1, now, 2000 + bid_cost), NFT.to_string(), 7, 2000, bid_bytes).unwrap();
    let out = m
        .primary_listing_place_bid(&mt_ctx(BIDDER2, now, 3000 + bid_cost), NFT.to_string(), 7, 3000, bid_bytes)
        .unwrap();
    assert_eq!(out.released.iter().map(|b: &Bid| b.id).collect::<Vec<u64>>(), vec![0]);
    assert_eq!(out.transfers[0].receiver_id, BIDDER1);
    assert_eq!(out.transfers[0].amount_yocto, 2000);
    assert_eq!(m.deposit_or_zero(&BIDDER1.to_string()), 5 + bid_cost);
}

#[test]
fn test_bid_is_found_by_its_id() {
    let mut listing = running_listing(2);
    listing.bids.push(Bid { id: 7, bidder_id: BIDDER1.to_string(), amount_yocto: 2000 });
    listing.next_bid_id = 8;
    let m = mt_marketplace(listing);
    let b = m.primary_listing_bid(NFT.to_string(), 7, 7).expect("the bid is not found");
    assert_eq!(b.id, 7);
    assert_eq!(b.bidder_id, BIDDER1);
    assert_eq!(b.amount_yocto, 2000);
    assert!(matches!(m.primary_listing_bid(NFT.to_string(), 7, 0), Err(MarketError::BidNotFound)));
    assert!(matches!(m.primary_listing_bid("other.near".to_string(), 7, 7), Err(MarketError::ListingNotFound)));
}

#[test]
fn test_failed_mint_changes_nothing() {
    let mut m = mt_marketplace(running_listing(2));
    let args = eneftigo::marketplace::primary_buyer::PrimaryListingBuyCompletion {
        seller_id: SELLER.to_string(),
        attached_deposit: 10000,
        price_yocto: 10000,
        listing_id: mt_key(),
    };
    let r = m.primary_listing_buy_now_mint_completion(&mt_ctx(MARKET, HOUR, 0), args, CallResult::Failed, 0);
    assert!(matches!(r, Err(MarketError::NftCallFailed)));
    assert_eq!(m.primary_listings.get(&mt_key()).unwrap().supply_left, 2);
}

fn resale(m: &mut MarketplaceContract, token: &str, price: Option<u128>, min_bid: Option<u128>, end: Option<&str>) -> Result<(), MarketError> {
    m.secondary_listing_add(
        &mt_ctx(NFT, 0, 0),
        SELLER.to_string(),
        NFT.to_string(),
        3,
        token.to_string(),
        mt_metadata(),
        price,
        min_bid,
        None,
        end.map(|s| s.to_string()),
        100,
    )
}

#[test]
fn test_resale_listing_lifecycle() {
    let mut m = MarketplaceContract::new(MARKET.to_string());
    assert_eq!(resale(&mut m, "t1", Some(5000), None, None), Err(MarketError::StorageDepositTooLow));
    let worst = SECONDARY_LISTING_ADD_STORAGE_MAX as u128 * BYTE_COST;
    m.storage_deposits.insert(SELLER.to_string(), worst);
    assert_eq!(resale(&mut m, "t1", Some(5505), None, None), Err(MarketError::PriceNotMultipleOfStep));
    assert_eq!(resale(&mut m, "t1", Some(500), None, None), Err(MarketError::PriceTooLow));
    assert_eq!(resale(&mut m, "t1", Some(5000), Some(500), Some("1970-01-02T00:00:00+00:00")), Err(MarketError::MinBidTooLow));
    assert_eq!(resale(&mut m, "t1", Some(5000), Some(1000), None), Err(MarketError::EndDateRequired));
    resale(&mut m, "t1", Some(5000), None, None).expect("the resale listing is refused");
    assert_eq!(m.deposit_or_zero(&SELLER.to_string()), worst - 100 * BYTE_COST);
    assert!(m.is_listed(NFT.to_string(), "t1".to_string()));
    assert!(!m.is_listed(NFT.to_string(), "t2".to_string()));

    let key = SecondaryListingId { nft_contract_id: NFT.to_string(), token_id: "t1".to_string() };
    assert_eq!(m.secondary_listings.get(&key).unwrap().approval_id, 3);

    let buyer_ctx = mt_ctx(BUYER, HOUR, 5000);
    assert!(matches!(
        m.secondary_listing_buy(&buyer_ctx, NFT.to_string(), "t1".to_string()),
        Err(MarketError::AttachedDepositTooLow)
    ));
    let buyer_ctx = mt_ctx(BUYER, HOUR, 6001);
    let req = m.secondary_listing_buy(&buyer_ctx, NFT.to_string(), "t1".to_string()).expect("refused");
    assert_eq!(req.nft_transfer.receiver_id, BUYER);
    assert_eq!(req.nft_transfer.approval_id, Some(3));
    assert_eq!(req.nft_transfer.attached_deposit, 1);

    let callback = CallContext { predecessor_account_id: MARKET.to_string(), ..buyer_ctx };
    let ts = m
        .nft_transfer_completion(&callback, req.completion, CallResult::Successful(Some(())), 100)
        .expect("the resale does not complete");
    assert_eq!(ts.len(), 2);
    assert_eq!(ts[0].receiver_id, SELLER);
    assert_eq!(ts[0].amount_yocto, 5000);
    assert_eq!(ts[1].receiver_id, BUYER);
    assert_eq!(ts[1].amount_yocto, 1000);
    assert!(!m.is_listed(NFT.to_string(), "t1".to_string()));
    // the seller's only listing is gone from its index too
    assert!(m.secondary_listings.by_seller_id.get(&SELLER.to_string()).is_none());
    assert_eq!(m.deposit_or_zero(&SELLER.to_string()), worst);
}

#[test]
fn test_resale_conclude() {
    let mut m = MarketplaceContract::new(MARKET.to_string());
    let worst = SECONDARY_LISTING_ADD_STORAGE_MAX as u128 * BYTE_COST;
    m.storage_deposits.insert(SELLER.to_string(), worst);
    resale(&mut m, "t1", Some(5000), None, None).unwrap();
    assert!(matches!(
        m.secondary_listing_conclude(&mt_ctx(BUYER, HOUR, 0), SELLER.to_string(), NFT.to_string(), "t1".to_string(), 100),
        Err(MarketError::NotSeller)
    ));
    m.secondary_listing_conclude(&mt_ctx(SELLER, HOUR, 0), SELLER.to_string(), NFT.to_string(), "t1".to_string(), 100)
        .expect("concluding is refused");
    assert!(!m.is_listed(NFT.to_string(), "t1".to_string()));
    // the seller's only listing is gone from its index too
    assert!(m.secondary_listings.by_seller_id.get(&SELLER.to_string()).is_none());
    assert_eq!(m.deposit_or_zero(&SELLER.to_string()), worst);
}

#[test]
fn test_listing_pages() {
    let mut m = MarketplaceContract::new(MARKET.to_string());
    for c in 0..5u64 {
        let mut l = running_listing(2);
        l.id.collection_id = c;
        m.primary_listings.add(l);
    }
    let all = m.primary_listings(None, None).expect("the page fails");
    assert_eq!(all.len(), 5);
    let page = m.primary_listings(Some(1), Some(2)).unwrap();
    assert_eq!(page.iter().map(|j| j.collection_id).collect::<Vec<u64>>(), vec![1, 2]);
    let tail = m.primary_listings(Some(4), Some(10)).unwrap();
    assert_eq!(tail.len(), 1);
    assert!(m.primary_listings(Some(9), None).unwrap().is_empty());
    let by_seller = m.primary_listings_by_seller(&SELLER.to_string(), None, Some(3)).unwrap();
    assert_eq!(by_seller.len(), 3);
    assert!(m.primary_listings_by_seller(&BUYER.to_string(), None, None).unwrap().is_empty());
}

#[test]
fn test_acceptable_bid_never_drops() {
    let mut m = mt_marketplace(running_listing(2));
    let now = HOUR;
    let acceptable = |m: &MarketplaceContract| m.primary_listings.get(&mt_key()).unwrap().acceptable_bid_yocto().unwrap();
    let mut before = acceptable(&m);
    assert_eq!(before, 1000);
    for (who, amount) in [(BIDDER1, 1000u128), (BIDDER2, 4000), (BIDDER1, 2000), (BIDDER2, 9000), (BIDDER1, 5000)] {
        m.primary_listing_place_bid(&mt_ctx(who, now, amount), NFT.to_string(), 7, amount, 0)
            .expect("the bid is refused");
        let after = acceptable(&m);
        assert!(after >= before);
        before = after;
    }
    assert_eq!(standing(&m), vec![(3, 9000), (4, 5000)]);
    assert_eq!(before, 5010);
}

#[test]
fn test_revoking_a_fresh_bid_restores_the_bids() {
    let mut m = mt_marketplace(running_listing(3));
    let now = HOUR;
    m.primary_listing_place_bid(&mt_ctx(BIDDER1, now, 2000), NFT.to_string(), 7, 2000, 0).unwrap();
    m.primary_listing_place_bid(&mt_ctx(BIDDER2, now, 4000), NFT.to_string(), 7, 4000, 0).unwrap();
    let before = standing(&m);
    let out = m
        .primary_listing_place_bid(&mt_ctx(BIDDER1, now, 3000), NFT.to_string(), 7, 3000, 0)
        .unwrap();
    assert!(out.released.is_empty());
    assert_eq!(standing(&m), vec![(1, 4000), (2, 3000), (0, 2000)]);
    m.primary_listing_revoke_bid(&mt_ctx(BIDDER1, now, 0), NFT.to_string(), 7, out.bid_id, 0).unwrap();
    assert_eq!(standing(&m), before);
}

#[test]
fn test_consecutive_pages_join() {
    let mut m = MarketplaceContract::new(MARKET.to_string());
    for c in 0..6u64 {
        let mut l = running_listing(2);
        l.id.collection_id = c;
        m.primary_listings.add(l);
    }
    let ids = |from: u128, limit: u64| -> Vec<u64> {
        m.primary_listings(Some(from), Some(limit)).unwrap().iter().map(|j| j.collection_id).collect()
    };
    let mut joined = ids(0, 2);
    joined.extend(ids(2, 3));
    assert_eq!(joined, ids(0, 5));
    assert_eq!(ids(0, 100).len(), 6);
}
