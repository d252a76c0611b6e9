use std::cmp::Ordering;

use eneftigo::context::CallContext;
use eneftigo::marketplace::bid::Bid;
use eneftigo::marketplace::errors::MarketError;
use eneftigo::marketplace::keys::{
    hash_account_id, hash_primary_listing_id, hash_secondary_listing_id, primary_listing_offers_key,
    primary_listings_of_seller_key, MarketplaceStorageKey,
};
use eneftigo::marketplace::primary::PrimaryListingStorageKey;
use eneftigo::nft_contract::contract::{tokens_of_owner_key, StorageKey};
use eneftigo::marketplace::primary::PrimaryListingId;
use eneftigo::marketplace::schedule::{compute_schedule, sub_account, text_bytes};
use eneftigo::marketplace::secondary::SecondaryListingId;
use eneftigo::marketplace::status::{advance_status, ListingStatus};
use eneftigo::marketplace_contract::contract::{compute_end_after_days, MarketplaceContract as OfferingBoard};
use eneftigo::nft::metadata::TokenMetadata;
use eneftigo::nft_contract::contract::Contract;
use eneftigo::offer::sort_best_first;
use eneftigo::paging::page_bounds;
use eneftigo::table::LookupTable;

const DAY: i64 = 86_400_000_000_000;

fn unit_ctx(account: &str, now: u64, attached: u128) -> CallContext {
    CallContext {
        current_account_id: "market.near".to_string(),
        signer_account_id: account.to_string(),
        predecessor_account_id: account.to_string(),
        attached_deposit: attached,
        block_timestamp: now,
        storage_byte_cost: 10_000_000_000_000_000_000,
        prepaid_gas: 300_000_000_000_000,
    }
}

#[test]
fn test_page_bounds() {
    assert_eq!(page_bounds(10, 0, 3), (0, 3));
    assert_eq!(page_bounds(10, 8, 5), (8, 10));
    assert_eq!(page_bounds(10, 12, 5), (10, 10));
    assert_eq!(page_bounds(0, 0, 0), (0, 0));
    assert_eq!(page_bounds(usize::MAX, usize::MAX - 1, 5), (usize::MAX - 1, usize::MAX));
}

#[test]
fn test_storage_key_hashes() {
    assert_eq!(
        hash_account_id(&"seller.near".to_string()),
        [11, 26, 55, 65, 124, 134, 88, 220, 228, 90, 152, 101, 228, 103, 142, 123, 198, 125, 152, 228, 198, 139,
            99, 21, 67, 235, 197, 22, 250, 229, 33, 51]
    );
    let id = PrimaryListingId { nft_contract_id: "nft.market.near".to_string(), collection_id: 42 };
    assert_eq!(
        hash_primary_listing_id(&id),
        [38, 126, 183, 84, 94, 47, 17, 153, 91, 203, 166, 71, 188, 227, 110, 255, 158, 93, 253, 227, 117, 46, 38,
            33, 182, 177, 116, 201, 99, 36, 103, 161]
    );
    let id = SecondaryListingId { nft_contract_id: "nft.market.near".to_string(), token_id: "t1".to_string() };
    assert_eq!(
        hash_secondary_listing_id(&id),
        [79, 85, 129, 169, 232, 45, 138, 110, 137, 52, 148, 31, 7, 151, 74, 131, 12, 231, 146, 233, 45, 122, 8,
            148, 149, 101, 40, 84, 80, 190, 20, 33]
    );
}

#[test]
fn test_schedule() {
    let now = 10 * DAY;
    let at = |s: &str| Some(s.to_string());
    // 1970-01-12 is eleven days in
    assert_eq!(
        compute_schedule(&at("1970-01-12T00:00:00+00:00"), &None, now, true, None, false),
        Ok((11 * DAY, None))
    );
    assert_eq!(compute_schedule(&None, &None, now, true, None, false), Ok((now, None)));
    assert_eq!(
        compute_schedule(&None, &at("1970-01-12T00:00:00Z"), now, true, Some(14 * DAY), true),
        Ok((now, Some(11 * DAY)))
    );
    assert_eq!(compute_schedule(&None, &None, now, true, None, true), Err(MarketError::EndDateRequired));
    assert_eq!(
        compute_schedule(&at("1970-01-05T00:00:00+00:00"), &None, now, true, None, false),
        Err(MarketError::StartDateInThePast)
    );
    assert_eq!(
        compute_schedule(&None, &at("1970-01-11T00:30:00+00:00"), now, true, None, false),
        Err(MarketError::DurationTooShort)
    );
    assert_eq!(
        compute_schedule(&None, &at("1970-01-10T00:30:00+00:00"), now, true, None, false),
        Err(MarketError::EndDateInThePast)
    );
    assert_eq!(
        compute_schedule(&None, &at("1970-02-10T00:00:00+00:00"), now, true, Some(14 * DAY), false),
        Err(MarketError::DurationTooLong)
    );
    assert_eq!(
        compute_schedule(&at("12 January 1970"), &None, now, true, None, false),
        Err(MarketError::WrongDateFormat)
    );
    // an offset is taken into account: one hour east of UTC is an hour earlier
    assert_eq!(
        compute_schedule(&at("1970-01-12T01:00:00+01:00"), &None, now, true, None, false),
        Ok((11 * DAY, None))
    );
}

#[test]
fn test_status_moves_forward_only() {
    let s = advance_status(ListingStatus::Unstarted, false, Some(100), Some(200), 50);
    assert_eq!(s, ListingStatus::Unstarted);
    let s = advance_status(s, false, Some(100), Some(200), 150);
    assert_eq!(s, ListingStatus::Running);
    assert_eq!(advance_status(s, false, Some(100), Some(200), 50), ListingStatus::Running);
    let s = advance_status(s, false, Some(100), Some(200), 200);
    assert_eq!(s, ListingStatus::Ended);
    assert_eq!(advance_status(s, false, Some(100), Some(200), 0), ListingStatus::Ended);
    // sold out ends a listing at once
    assert_eq!(advance_status(ListingStatus::Running, true, Some(100), None, 150), ListingStatus::Ended);
    assert_eq!(ListingStatus::Running.as_str(), "Running");
    assert_eq!(ListingStatus::Unstarted.as_str(), "Unstarted");
    assert_eq!(ListingStatus::Ended.as_str(), "Ended");
}

#[test]
fn test_bid_order() {
    let b = |id: u64, amount: u128| Bid { id, bidder_id: "x.near".to_string(), amount_yocto: amount };
    assert_eq!(b(1, 900).cmp(&b(2, 800)), Ordering::Less);
    assert_eq!(b(2, 800).cmp(&b(1, 900)), Ordering::Greater);
    assert_eq!(b(1, 800).cmp(&b(2, 800)), Ordering::Less);
    assert_eq!(b(2, 800).cmp(&b(2, 800)), Ordering::Equal);
    let mut v = vec![b(3, 500), b(1, 900), b(4, 700), b(2, 700)];
    sort_best_first(&mut v);
    assert_eq!(v.iter().map(|x| x.id).collect::<Vec<u64>>(), vec![1, 2, 4, 3]);
}

#[test]
fn test_lookup_table() {
    let mut t: LookupTable<String, u64> = LookupTable::new();
    assert_eq!(t.insert("a".to_string(), 1), None);
    assert_eq!(t.insert("b".to_string(), 2), None);
    assert_eq!(t.insert("a".to_string(), 3), Some(1));
    assert_eq!(t.len(), 2);
    assert_eq!(t.get(&"a".to_string()), Some(&3));
    assert!(t.contains_key(&"b".to_string()));
    assert_eq!(t.remove(&"a".to_string()), Some(3));
    assert_eq!(t.remove(&"a".to_string()), None);
    assert_eq!(t.get(&"a".to_string()), None);
    assert_eq!(t.len(), 1);
}

#[test]
fn test_text_helpers() {
    assert_eq!(sub_account("nft.", &"market.near".to_string()), "nft.market.near");
    assert_eq!(text_bytes("héllo"), 6);
}

#[test]
fn test_end_after_days() {
    assert_eq!(compute_end_after_days(5, 2), Some(5 + 2 * DAY));
    assert_eq!(compute_end_after_days(i64::MAX - 1, 1), None);
}

fn offering_metadata() -> TokenMetadata {
    TokenMetadata::new("Grapes", "https://ipfs.io/ipfs/Qmc")
}

fn listed_board() -> OfferingBoard {
    let mut board = OfferingBoard::new("owner.near".to_string());
    let ctx = unit_ctx("owner.near", 1000, 0);
    board
        .fpo_list(
            &ctx,
            "nft.near".to_string(),
            "offeror.near".to_string(),
            50,
            5000,
            1000,
            offering_metadata(),
            Some(3),
            None,
            0,
        )
        .expect("the offering is refused");
    board
}

#[test]
fn test_offering_board_listing() {
    let mut board = listed_board();
    assert_eq!(board.fpo_total_supply(), 1);
    let ctx = unit_ctx("owner.near", 1000, 0);
    let again = board.fpo_list(
        &ctx,
        "nft.near".to_string(),
        "offeror.near".to_string(),
        1,
        5000,
        1000,
        offering_metadata(),
        None,
        None,
        0,
    );
    assert!(matches!(again, Err(MarketError::AlreadyListed)));
    let stranger = unit_ctx("someone.near", 1000, 0);
    let r = board.fpo_list(
        &stranger,
        "other.near".to_string(),
        "offeror.near".to_string(),
        1,
        5000,
        1000,
        offering_metadata(),
        None,
        None,
        0,
    );
    assert!(matches!(r, Err(MarketError::NotMarketplaceOwner)));
    let both = board.fpo_list(
        &ctx,
        "other.near".to_string(),
        "offeror.near".to_string(),
        1,
        5000,
        1000,
        offering_metadata(),
        Some(2),
        Some("2030-01-01T00:00:00+00:00".to_string()),
        0,
    );
    assert!(matches!(both, Err(MarketError::DurationAndEndDate)));
    // either price off the step is refused
    let off_step = |buy_now: u128, min: u128| {
        let mut fresh = OfferingBoard::new("owner.near".to_string());
        fresh.fpo_list(
            &ctx,
            "nft.near".to_string(),
            "offeror.near".to_string(),
            1,
            buy_now,
            min,
            offering_metadata(),
            Some(2),
            None,
            0,
        )
    };
    assert!(matches!(off_step(1005, 500), Err(MarketError::PriceNotMultipleOfStep)));
    assert!(matches!(off_step(1000, 505), Err(MarketError::PriceNotMultipleOfStep)));
    assert!(off_step(1000, 500).is_ok());
    // without a limit the page is empty
    assert!(board.fpos(None, None).is_empty());
    let pages = board.fpos(None, Some(10));
    assert_eq!(pages.len(), 1);
    assert_eq!(pages[0].nft_max_supply, 50);
    assert_eq!(pages[0].end_timestamp, Some(1000 + 3 * DAY));
}

#[test]
fn test_offering_board_purchase_names_the_token() {
    let board = listed_board();
    let ctx = unit_ctx("owner.near", 2000, 6000);
    let req = board.fpo_buy(&ctx, "nft.near".to_string()).expect("the purchase is refused");
    // the token is numbered by the supply left
    assert_eq!(req.mint.token_id, "50");
    assert_eq!(req.mint.attached_deposit, 1);
    assert_eq!(req.surplus_refund.expect("no surplus refund").amount_yocto, 1000);
    let buyer = unit_ctx("buyer.near", 2000, 6000);
    assert!(matches!(board.fpo_buy(&buyer, "nft.near".to_string()), Err(MarketError::NotMarketplaceOwner)));
}

#[test]
fn test_offering_board_proposals() {
    let mut board = listed_board();
    let ctx = unit_ctx("p1.near", 2000, 300);
    assert!(matches!(
        board.fpo_place_proposal(&ctx, "nft.near".to_string(), 1005),
        Err(MarketError::BidNotMultipleOfStep)
    ));
    assert!(matches!(
        board.fpo_place_proposal(&unit_ctx("p1.near", 2000, 10), "nft.near".to_string(), 3000),
        Err(MarketError::AttachedDepositTooLow)
    ));
    assert!(matches!(
        board.fpo_place_proposal(&ctx, "nft.near".to_string(), 990),
        Err(MarketError::BidTooLow)
    ));
    board.fpo_place_proposal(&ctx, "nft.near".to_string(), 3000).expect("the proposal is refused");
    board.fpo_place_proposal(&ctx, "nft.near".to_string(), 2000).expect("the proposal is refused");
    let f = board.fpos_by_contract_id.get(&"nft.near".to_string()).unwrap();
    assert_eq!(f.winning_proposals.iter().map(|p| p.price_yocto).collect::<Vec<u128>>(), vec![2000, 3000]);
    assert_eq!(f.next_proposal_id, 2);
}

#[test]
fn test_offering_board_conclude() {
    let mut board = listed_board();
    assert!(matches!(
        board.fpo_conclude(&unit_ctx("offeror.near", 2000, 0), "nft.near".to_string()),
        Err(MarketError::CannotConcludeRunning)
    ));
    board
        .fpo_conclude(&unit_ctx("offeror.near", 1000 + 4 * DAY as u64, 0), "nft.near".to_string())
        .expect("concluding is refused");
    assert!(board.fpos(None, Some(10)).is_empty());
    assert_eq!(board.fpo_total_supply(), 0);
}

#[test]
fn test_simple_nft_contract() {
    let mut c = Contract::new_default_meta("owner.near".to_string());
    let ctx = unit_ctx("owner.near", 0, 1_000_000_000_000_000_000_000);
    let refund = c
        .nft_mint(&ctx, "t1".to_string(), offering_metadata(), "alice.near".to_string(), None, 50)
        .expect("minting is refused");
    assert_eq!(refund.unwrap().amount_yocto, 1_000_000_000_000_000_000_000 - 50 * 10_000_000_000_000_000_000);
    c.nft_mint(&ctx, "t2".to_string(), offering_metadata(), "alice.near".to_string(), None, 50).unwrap();
    c.nft_mint(&ctx, "t3".to_string(), offering_metadata(), "bob.near".to_string(), None, 50).unwrap();
    assert!(c
        .nft_mint(&ctx, "t1".to_string(), offering_metadata(), "bob.near".to_string(), None, 50)
        .is_err());

    assert_eq!(c.nft_supply_for_owner(&"alice.near".to_string()), 2);
    assert_eq!(c.nft_supply_for_owner(&"carol.near".to_string()), 0);
    assert_eq!(c.nft_tokens(None, None).len(), 3);
    assert_eq!(c.nft_tokens(Some(2), Some(5)).len(), 1);
    // without a limit the page of an owner's tokens is empty
    assert!(c.nft_tokens_for_owner(&"alice.near".to_string(), None, None).is_empty());
    let mine = c.nft_tokens_for_owner(&"alice.near".to_string(), None, Some(5));
    assert_eq!(mine.len(), 2);
    assert_eq!(c.nft_token(&"t3".to_string()).unwrap().owner_id, "bob.near");

    let t = c.nft_burn(&unit_ctx("bob.near", 0, 0), "t3".to_string(), 40).expect("burning is refused");
    assert_eq!(t.receiver_id, "bob.near");
    assert_eq!(t.amount_yocto, 40 * 10_000_000_000_000_000_000);
    assert!(c.nft_token(&"t3".to_string()).is_none());
    assert_eq!(c.nft_supply_for_owner(&"bob.near".to_string()), 0);
}


#[test]
fn test_storage_keys_use_the_hashes() {
    let seller = "seller.near".to_string();
    match primary_listings_of_seller_key(&seller) {
        MarketplaceStorageKey::PrimaryListingsBySellerIdInner { account_id_hash } => {
            assert_eq!(account_id_hash, hash_account_id(&seller))
        }
        _ => panic!("wrong key"),
    }
    match tokens_of_owner_key(&seller) {
        StorageKey::TokenPerOwnerInner { account_id_hash } => assert_eq!(account_id_hash, hash_account_id(&seller)),
        _ => panic!("wrong key"),
    }
    let id = PrimaryListingId { nft_contract_id: "nft.market.near".to_string(), collection_id: 42 };
    match primary_listing_offers_key(&id) {
        PrimaryListingStorageKey::Proposals { listing_id_hash } => {
            assert_eq!(listing_id_hash, hash_primary_listing_id(&id))
        }
    }
}

#[test]
fn test_primary_listing_hash_writes_the_collection_in_decimal() {
    for (collection_id, text) in [(0u64, "nft.near.0"), (105, "nft.near.105"), (u64::MAX, "nft.near.18446744073709551615")] {
        let id = PrimaryListingId { nft_contract_id: "nft.near".to_string(), collection_id };
        let secondary = SecondaryListingId {
            nft_contract_id: "nft.near".to_string(),
            token_id: text["nft.near.".len()..].to_string(),
        };
        // the secondary id's text is the contract and the token id as given
        assert_eq!(hash_primary_listing_id(&id), hash_secondary_listing_id(&secondary));
    }
}
