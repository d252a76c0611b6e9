use chrono::{DateTime, TimeZone, Utc};
use eneftigo::context::{CallContext, CallResult};
use eneftigo::fpo::config::PRICE_STEP_YOCTO;
use eneftigo::fpo::offering::{
    FixedPriceOffering, FixedPriceOfferingProposal, FixedPriceOfferingStatus, OfferingId,
};
use eneftigo::marketplace::contract::MarketplaceContract;
use eneftigo::marketplace::errors::MarketError;
use eneftigo::marketplace::external::NftMetadata;
use eneftigo::marketplace::status::ListingStatus;

const MARKETPLACE_ACCOUNT_ID: &str = "marketplace.eneftigo.testnet";
const NFT_CONTRACT_ID: &str = "nft.eneftigo.testnet";
const OFFEROR_ACCOUNT_ID: &str = "offeror.eneftigo.testnet";
const PROPOSER1_ACCOUNT_ID: &str = "proposer1.eneftigo.testnet";
const PROPOSER2_ACCOUNT_ID: &str = "proposer2.eneftigo.testnet";
const BIDDER_ACCOUNT_ID: &str = "bidder.eneftigo.testnet";

fn fpo_nanos(y: i32, mo: u32, d: u32, h: u32) -> u64 {
    Utc.with_ymd_and_hms(y, mo, d, h, 0, 0).unwrap().timestamp_nanos_opt().unwrap() as u64
}

fn fpo_rfc3339(s: &str) -> i64 {
    DateTime::parse_from_rfc3339(s).unwrap().timestamp_nanos_opt().unwrap()
}

/// A call by `account` at `now`; storage is free, so that an attached
/// deposit pays prices alone.
fn fpo_ctx(account: &str, now: u64, attached: u128) -> CallContext {
    CallContext {
        current_account_id: MARKETPLACE_ACCOUNT_ID.to_string(),
        signer_account_id: account.to_string(),
        predecessor_account_id: account.to_string(),
        attached_deposit: attached,
        block_timestamp: now,
        storage_byte_cost: 0,
        prepaid_gas: 1_000_000_000_000_000_000,
    }
}

fn fpo_proposal(id: u64, proposer: &str, price: u128) -> FixedPriceOfferingProposal {
    FixedPriceOfferingProposal {
        id,
        proposer_id: proposer.to_string(),
        price_yocto: price,
        is_acceptable: true,
    }
}

fn fpo_metadata() -> NftMetadata {
    NftMetadata::new(
        "Bored Grapes",
        "https://ipfs.io/ipfs/QmcRD4wkPPi6dig81r5sLj9Zm1gDCL4zgpEj9CfuRrGbzF",
    )
}

/// The offering of the lifetime checks: five tokens, from 26 May to 24 June
/// 1975.
fn lifetime_fpo() -> FixedPriceOffering {
    FixedPriceOffering {
        offering_id: OfferingId { nft_contract_id: NFT_CONTRACT_ID.to_string(), collection_id: 0 },
        offeror_id: OFFEROR_ACCOUNT_ID.to_string(),
        nft_metadata: fpo_metadata(),
        supply_total: 5,
        buy_now_price_yocto: 1000,
        min_proposal_price_yocto: Some(500),
        start_timestamp: Some(fpo_rfc3339("1975-05-26T00:00:00+00:00")),
        end_timestamp: Some(fpo_rfc3339("1975-06-24T00:00:00+00:00")),
        status: FixedPriceOfferingStatus::Unstarted,
        supply_left: 5,
        proposals: Vec::new(),
        next_proposal_id: 0,
    }
}

/// The offering of the trading checks: three tokens at 1000, from 26 May to
/// 10 June 1975, with three standing proposals.
fn trading_fpo(allow_proposals: bool) -> FixedPriceOffering {
    let mut fpo = FixedPriceOffering {
        offering_id: OfferingId { nft_contract_id: NFT_CONTRACT_ID.to_string(), collection_id: 0 },
        offeror_id: OFFEROR_ACCOUNT_ID.to_string(),
        nft_metadata: fpo_metadata(),
        supply_total: 3,
        buy_now_price_yocto: 1000,
        min_proposal_price_yocto: if allow_proposals { Some(500) } else { None },
        start_timestamp: Some(fpo_rfc3339("1975-05-26T00:00:00+00:00")),
        end_timestamp: Some(fpo_rfc3339("1975-06-10T00:00:00+00:00")),
        status: FixedPriceOfferingStatus::Unstarted,
        supply_left: 3,
        proposals: Vec::new(),
        next_proposal_id: 4,
    };
    if allow_proposals {
        fpo.proposals.push(fpo_proposal(1, PROPOSER1_ACCOUNT_ID, 500));
        fpo.proposals.push(fpo_proposal(2, PROPOSER2_ACCOUNT_ID, 900));
        fpo.proposals.push(fpo_proposal(3, PROPOSER2_ACCOUNT_ID, 700));
        fpo.sort_proposals();
    }
    fpo
}

fn fpo_marketplace(fpo: FixedPriceOffering) -> MarketplaceContract {
    let mut marketplace = MarketplaceContract::new(MARKETPLACE_ACCOUNT_ID.to_string());
    marketplace.fpos.add(fpo);
    marketplace
}

fn fpo_key() -> OfferingId {
    OfferingId { nft_contract_id: NFT_CONTRACT_ID.to_string(), collection_id: 0 }
}

fn stored_ids(marketplace: &MarketplaceContract) -> Vec<u64> {
    let fpo = marketplace.fpos.get(&fpo_key()).expect("Could not get updated FPO");
    fpo.proposals.iter().map(|p| p.id).collect()
}

fn stored_supply_left(marketplace: &MarketplaceContract) -> u64 {
    marketplace.fpos.get(&fpo_key()).expect("Could not get updated FPO").supply_left
}

/// Buys a token: the purchase request, then the completion once the NFT
/// contract minted the token, which leaves the offering as the purchase left
/// it.
fn fpo_buy_and_complete(marketplace: &mut MarketplaceContract, buyer_ctx: &CallContext, token_id: &str) {
    let request = marketplace
        .fpo_buy(buyer_ctx, NFT_CONTRACT_ID.to_string(), 0, 0)
        .expect("the purchase is refused");
    let supply_after_purchase = stored_supply_left(marketplace);
    let ids_after_purchase = stored_ids(marketplace);
    let callback_ctx = CallContext {
        predecessor_account_id: MARKETPLACE_ACCOUNT_ID.to_string(),
        ..fpo_ctx(BIDDER_ACCOUNT_ID, buyer_ctx.block_timestamp, 0)
    };
    let outcome = marketplace
        .fpo_buy_now_mint_completion(
            &callback_ctx,
            request.completion,
            CallResult::Successful(Some((token_id.to_string(), 500))),
        )
        .expect("the purchase does not complete");
    assert_eq!(outcome.token_id, token_id);
    assert_eq!(outcome.seller_payment.receiver_id, OFFEROR_ACCOUNT_ID);
    assert_eq!(outcome.seller_payment.amount_yocto, 1000);
    assert_eq!(stored_supply_left(marketplace), supply_after_purchase);
    assert_eq!(stored_ids(marketplace), ids_after_purchase);
}

#[test]
fn test_lifetime() {
    let mut fpo = lifetime_fpo();

    // before the start date
    fpo.update_status(fpo_nanos(1975, 5, 25, 0) as i64);
    assert!(fpo.status == FixedPriceOfferingStatus::Unstarted);

    // past the start date
    fpo.update_status(fpo_nanos(1975, 5, 26, 1) as i64);
    assert!(fpo.status == FixedPriceOfferingStatus::Running);

    // back before the start date, it stays Running
    fpo.update_status(fpo_nanos(1975, 5, 25, 1) as i64);
    assert!(fpo.status == FixedPriceOfferingStatus::Running);

    // past the end date
    fpo.update_status(fpo_nanos(1975, 6, 25, 1) as i64);
    assert!(fpo.status == FixedPriceOfferingStatus::Ended);

    // back before the end date, it stays Ended
    fpo.update_status(fpo_nanos(1975, 6, 20, 1) as i64);
    assert!(fpo.status == FixedPriceOfferingStatus::Ended);

    // back before the start date, it stays Ended
    fpo.update_status(fpo_nanos(1975, 5, 20, 1) as i64);
    assert!(fpo.status == FixedPriceOfferingStatus::Ended);
}

#[test]
fn test_functions() {
    let mut fpo = lifetime_fpo();

    fpo.proposals.push(fpo_proposal(1, "proposer1", 900));
    assert!(fpo.acceptable_price_yocto() == Ok(500), "Wrong acceptable price");
    fpo.proposals.push(fpo_proposal(2, "proposer2", 600));
    assert!(fpo.acceptable_price_yocto() == Ok(500), "Wrong acceptable price");
    fpo.proposals.push(fpo_proposal(3, "proposer3", 800));
    assert!(fpo.acceptable_price_yocto() == Ok(500), "Wrong acceptable price");
    fpo.proposals.push(fpo_proposal(5, "proposer5", 500));
    assert!(fpo.acceptable_price_yocto() == Ok(500), "Wrong acceptable price");
    fpo.proposals.push(fpo_proposal(4, "proposer4", 500));

    let ids: Vec<u64> = fpo.proposals.iter().map(|p| p.id).collect();
    assert!(ids == vec![1, 2, 3, 5, 4], "Wrong initial ordering");

    fpo.sort_proposals();
    let ids: Vec<u64> = fpo.proposals.iter().map(|p| p.id).collect();
    assert!(ids == vec![5, 4, 2, 3, 1], "Wrong sorted ordering");
    assert!(fpo.acceptable_price_yocto() == Ok(500 + PRICE_STEP_YOCTO), "Wrong acceptable price");

    fpo.supply_left = 3;
    let refunds = fpo.remove_supply_exceeding_proposals_and_refund_proposers(0);
    assert!(
        fpo.proposals.len() == 3,
        "Number of acceptable proposals after pruning does not match supply"
    );
    let ids: Vec<u64> = fpo.proposals.iter().map(|p| p.id).collect();
    assert!(ids == vec![2, 3, 1], "Wrong proposals pruned");
    assert!(fpo.acceptable_price_yocto() == Ok(600 + PRICE_STEP_YOCTO), "Wrong acceptable price");

    assert!(
        fpo.find_proposal(2).is_some()
            && fpo.find_proposal(3).is_some()
            && fpo.find_proposal(1).is_some()
            && fpo.find_proposal(4).is_none()
            && fpo.find_proposal(5).is_none(),
        "Wrong proposals are acceptable/unacceptable"
    );
    assert_eq!(refunds.len(), 2);
    assert_eq!(refunds[0].receiver_id, "proposer5");
    assert_eq!(refunds[0].amount_yocto, 500);
    assert_eq!(refunds[1].receiver_id, "proposer4");
    assert_eq!(refunds[1].amount_yocto, 500);
}

#[test]
fn test_buy_now_while_running() {
    let ctx = fpo_ctx(BIDDER_ACCOUNT_ID, fpo_nanos(1975, 6, 1, 0), 1000);
    let mut marketplace = fpo_marketplace(trading_fpo(true));

    marketplace.fpo_buy(&ctx, NFT_CONTRACT_ID.to_string(), 0, 0).expect("the purchase is refused");
    assert!(stored_supply_left(&marketplace) == 2, "Wrong supply_left");
    assert!(stored_ids(&marketplace) == vec![3, 2], "Proposals state incorrect");

    marketplace.fpo_buy(&ctx, NFT_CONTRACT_ID.to_string(), 0, 0).expect("the purchase is refused");
    assert!(stored_supply_left(&marketplace) == 1, "Wrong supply_left");
    assert!(stored_ids(&marketplace) == vec![2], "Proposals state incorrect");

    marketplace.fpo_buy(&ctx, NFT_CONTRACT_ID.to_string(), 0, 0).expect("the purchase is refused");
    assert!(stored_supply_left(&marketplace) == 0, "Wrong supply_left");
    assert!(stored_ids(&marketplace).is_empty(), "Proposals state incorrect");

    let r = marketplace.fpo_buy(&ctx, NFT_CONTRACT_ID.to_string(), 0, 0);
    assert!(matches!(r, Err(MarketError::NotRunning(ListingStatus::Ended))));
}

#[test]
fn test_buy_now_with_completion() {
    let ctx = fpo_ctx(BIDDER_ACCOUNT_ID, fpo_nanos(1975, 6, 1, 0), 1000);
    let mut marketplace = fpo_marketplace(trading_fpo(true));

    fpo_buy_and_complete(&mut marketplace, &ctx, "0");
    assert!(stored_supply_left(&marketplace) == 2, "Wrong supply_left");
    assert!(stored_ids(&marketplace) == vec![3, 2], "Proposals state incorrect");
}

#[test]
fn test_buy_now_refunds_released_proposals_with_their_storage() {
    // a proposal record takes 80 bytes at 3 yocto a byte
    let ctx = CallContext { storage_byte_cost: 3, ..fpo_ctx(BIDDER_ACCOUNT_ID, fpo_nanos(1975, 6, 1, 0), 1000) };
    let mut marketplace = fpo_marketplace(trading_fpo(true));
    let request = marketplace.fpo_buy(&ctx, NFT_CONTRACT_ID.to_string(), 0, 80).expect("the purchase is refused");
    assert_eq!(request.proposal_refunds.len(), 1);
    assert_eq!(request.proposal_refunds[0].receiver_id, PROPOSER1_ACCOUNT_ID);
    assert_eq!(request.proposal_refunds[0].amount_yocto, 500 + 240);
    assert!(stored_ids(&marketplace) == vec![3, 2]);
}

#[test]
fn test_place_proposal_successful() {
    let ctx = fpo_ctx(BIDDER_ACCOUNT_ID, fpo_nanos(1975, 6, 1, 0), 1000);
    let mut marketplace = fpo_marketplace(trading_fpo(true));

    let outcome = marketplace
        .fpo_place_proposal(&ctx, NFT_CONTRACT_ID.to_string(), 0, 550, 0)
        .expect("the proposal is refused");
    assert_eq!(outcome.proposal_id, 4);
    assert!(stored_ids(&marketplace) == vec![4, 3, 2], "Wrong acceptable_proposals");
    let fpo = marketplace.fpos.get(&fpo_key()).expect("Could not get updated FPO");
    assert!(fpo.next_proposal_id == 5, "Wrong next_proposal_id");

    marketplace
        .fpo_place_proposal(&ctx, NFT_CONTRACT_ID.to_string(), 0, 950, 0)
        .expect("the proposal is refused");
    assert!(stored_ids(&marketplace) == vec![3, 2, 5], "Wrong acceptable_proposals");
    let fpo = marketplace.fpos.get(&fpo_key()).expect("Could not get updated FPO");
    assert!(fpo.next_proposal_id == 6, "Wrong next_proposal_id");
}

#[test]
fn buyer_tests_test_place_proposal_successful() {
    let ctx = fpo_ctx(BIDDER_ACCOUNT_ID, fpo_nanos(1975, 6, 1, 0), 1000);
    let mut marketplace = fpo_marketplace(trading_fpo(true));

    let first = marketplace
        .fpo_place_proposal(&ctx, NFT_CONTRACT_ID.to_string(), 0, 550, 0)
        .expect("the proposal is refused");
    assert!(stored_ids(&marketplace) == vec![4, 3, 2], "Wrong acceptable_proposals");
    // proposal 1 was outbid: it no longer stands and its deposit goes back
    let outbid = first.outbid_refund.expect("the outbid proposal is not refunded");
    assert_eq!(outbid.receiver_id, PROPOSER1_ACCOUNT_ID);
    assert_eq!(outbid.amount_yocto, 500);
    let surplus = first.surplus_refund.expect("the surplus is not refunded");
    assert_eq!(surplus.receiver_id, BIDDER_ACCOUNT_ID);
    assert_eq!(surplus.amount_yocto, 450);
    let fpo = marketplace.fpos.get(&fpo_key()).expect("Could not get updated FPO");
    assert!(fpo.next_proposal_id == 5, "Wrong next_proposal_id");

    marketplace
        .fpo_place_proposal(&ctx, NFT_CONTRACT_ID.to_string(), 0, 950, 0)
        .expect("the proposal is refused");
    let fpo = marketplace.fpos.get(&fpo_key()).expect("Could not get updated FPO");
    assert!(
        fpo.find_proposal(1).is_none()
            && fpo.find_proposal(2).is_some()
            && fpo.find_proposal(3).is_some()
            && fpo.find_proposal(4).is_none()
            && fpo.find_proposal(5).is_some(),
        "Wrong acceptable_proposals"
    );
    assert!(stored_ids(&marketplace) == vec![3, 2, 5], "Wrong acceptable_proposals");
    assert!(fpo.next_proposal_id == 6, "Wrong next_proposal_id");
}

#[test]
fn test_outbid_proposal_is_refunded_with_its_storage() {
    // the caller attaches the price and the 80 bytes of its proposal at 3 yocto a byte
    let ctx = CallContext { storage_byte_cost: 3, ..fpo_ctx(BIDDER_ACCOUNT_ID, fpo_nanos(1975, 6, 1, 0), 790) };
    let mut marketplace = fpo_marketplace(trading_fpo(true));
    let outcome = marketplace
        .fpo_place_proposal(&ctx, NFT_CONTRACT_ID.to_string(), 0, 550, 80)
        .expect("the proposal is refused");
    let outbid = outcome.outbid_refund.expect("the outbid proposal is not refunded");
    assert_eq!(outbid.receiver_id, PROPOSER1_ACCOUNT_ID);
    assert_eq!(outbid.amount_yocto, 500 + 240);
    assert!(stored_ids(&marketplace) == vec![4, 3, 2]);
}

#[test]
fn test_place_acceptable_proposal_after_buy_now() {
    let ctx = fpo_ctx(BIDDER_ACCOUNT_ID, fpo_nanos(1975, 6, 1, 0), 1000);
    let mut marketplace = fpo_marketplace(trading_fpo(true));

    fpo_buy_and_complete(&mut marketplace, &ctx, "0");
    assert!(stored_ids(&marketplace) == vec![3, 2], "acceptable_proposals not updated on buy_now");
    assert!(stored_supply_left(&marketplace) == 2, "Supply left not updated");

    marketplace
        .fpo_place_proposal(&ctx, NFT_CONTRACT_ID.to_string(), 0, 800, 0)
        .expect("the proposal is refused");
    assert!(stored_ids(&marketplace) == vec![4, 2], "acceptable_proposals not updated on buy_now");
}

#[test]
fn test_place_too_low_proposal_after_buy_now_is_refused() {
    let ctx = fpo_ctx(BIDDER_ACCOUNT_ID, fpo_nanos(1975, 6, 1, 0), 1000);
    let mut marketplace = fpo_marketplace(trading_fpo(true));
    fpo_buy_and_complete(&mut marketplace, &ctx, "0");
    // the worst standing proposal is 700: the lowest acceptable price is 710
    let fpo = marketplace.fpos.get(&fpo_key()).unwrap();
    assert!(fpo.acceptable_price_yocto() == Ok(710));
    let r = marketplace.fpo_place_proposal(&ctx, NFT_CONTRACT_ID.to_string(), 0, 700, 0);
    assert!(matches!(r, Err(MarketError::BidTooLow)));
    assert!(stored_ids(&marketplace) == vec![3, 2]);
}

#[test]
fn test_modify_proposal_price_increase() {
    let ctx = fpo_ctx(PROPOSER1_ACCOUNT_ID, fpo_nanos(1975, 6, 1, 0), 350);
    let mut marketplace = fpo_marketplace(trading_fpo(true));

    let surplus = marketplace
        .fpo_modify_proposal(&ctx, NFT_CONTRACT_ID.to_string(), 0, 1, 850)
        .expect("the modification is refused");
    assert!(surplus.is_none());
    let fpo = marketplace.fpos.get(&fpo_key()).expect("Could not get updated FPO");
    assert!(fpo.proposals[1].price_yocto == 850, "Price has not been updated");
    assert!(stored_ids(&marketplace) == vec![3, 1, 2], "Wrong acceptable_proposals");
    assert!(stored_supply_left(&marketplace) == 3, "supply_left incorrect");
}

#[test]
fn test_modify_proposal_buy_now() {
    let ctx = fpo_ctx(PROPOSER1_ACCOUNT_ID, fpo_nanos(1975, 6, 1, 0), 500);
    let mut marketplace = fpo_marketplace(trading_fpo(true));

    marketplace
        .fpo_modify_proposal(&ctx, NFT_CONTRACT_ID.to_string(), 0, 1, 1000)
        .expect("the modification is refused");
    assert!(stored_ids(&marketplace) == vec![3, 2], "Wrong acceptable_proposals");
    assert!(stored_supply_left(&marketplace) == 2, "supply_left incorrect");
}

#[test]
fn test_revoke_the_only_proposal_success() {
    let ctx = fpo_ctx(PROPOSER1_ACCOUNT_ID, fpo_nanos(1975, 6, 1, 0), 1000);
    let mut marketplace = fpo_marketplace(trading_fpo(true));

    let (refund, penalty) = marketplace
        .fpo_revoke_proposal(&ctx, NFT_CONTRACT_ID.to_string(), 0, 1)
        .expect("the revocation is refused");
    assert!(stored_ids(&marketplace) == vec![3, 2], "acceptable_proposals incorrect");
    assert_eq!(refund.receiver_id, PROPOSER1_ACCOUNT_ID);
    assert_eq!(refund.amount_yocto + penalty.amount_yocto, 500);
    assert_eq!(penalty.amount_yocto, 50);
    assert_eq!(penalty.receiver_id, "profit.eneftigo.near");
}

#[test]
fn test_revoke_one_of_many_proposals_success() {
    let ctx = fpo_ctx(PROPOSER2_ACCOUNT_ID, fpo_nanos(1975, 6, 1, 0), 1000);
    let mut marketplace = fpo_marketplace(trading_fpo(true));

    marketplace
        .fpo_revoke_proposal(&ctx, NFT_CONTRACT_ID.to_string(), 0, 2)
        .expect("the revocation is refused");
    assert!(stored_ids(&marketplace) == vec![1, 3], "acceptable_proposals incorrect");
}

#[test]
fn test_accepting_proposals() {
    let ctx = fpo_ctx(OFFEROR_ACCOUNT_ID, fpo_nanos(1975, 5, 24, 13), 8380000000000000000000);
    let mut fpo = trading_fpo(true);
    fpo.next_proposal_id = 0;
    fpo.status = FixedPriceOfferingStatus::Running;
    let mut marketplace = fpo_marketplace(fpo);

    let accepted = marketplace
        .fpo_accept_proposals(&ctx, NFT_CONTRACT_ID.to_string(), 0, 1)
        .expect("accepting is refused");
    assert_eq!(accepted.len(), 1);
    assert_eq!(accepted[0].id, 2);
    let fpo = marketplace.fpos.get(&fpo_key()).expect("Could not get updated FPO");
    assert!(fpo.proposals.len() == 2, "Wrong number of acceptable_proposals");
    assert!(stored_ids(&marketplace) == vec![1, 3], "acceptable_proposals content incorrect");
    assert!(
        fpo.find_proposal(1).is_some() && fpo.find_proposal(2).is_none() && fpo.find_proposal(3).is_some(),
        "proposals content incorrect"
    );
    assert!(
        fpo.find_proposal_of(&PROPOSER1_ACCOUNT_ID.to_string(), 1).is_ok(),
        "proposals_by_proposer incorrect for proposer1"
    );
    assert!(
        fpo.find_proposal_of(&PROPOSER2_ACCOUNT_ID.to_string(), 2).is_err()
            && fpo.find_proposal_of(&PROPOSER2_ACCOUNT_ID.to_string(), 3).is_ok(),
        "proposals_by_proposer incorrect for proposer2"
    );
    assert!(fpo.supply_left == 2, "Wrong supply_left");

    marketplace
        .fpo_accept_proposals(&ctx, NFT_CONTRACT_ID.to_string(), 0, 2)
        .expect("accepting is refused");
    let fpo = marketplace.fpos.get(&fpo_key()).expect("Could not get updated FPO");
    assert!(fpo.proposals.is_empty(), "Wrong number of acceptable_proposals");
    assert!(
        fpo.find_proposal(1).is_none() && fpo.find_proposal(2).is_none() && fpo.find_proposal(3).is_none(),
        "proposals content incorrect"
    );
    assert!(
        matches!(
            fpo.find_proposal_of(&PROPOSER1_ACCOUNT_ID.to_string(), 1),
            Err(MarketError::NoProposalFromAccount)
        ),
        "proposals_by_proposer exist for proposer1"
    );
    assert!(
        matches!(
            fpo.find_proposal_of(&PROPOSER2_ACCOUNT_ID.to_string(), 3),
            Err(MarketError::NoProposalFromAccount)
        ),
        "proposals_by_proposer exist for proposer2"
    );
    assert!(fpo.supply_left == 0, "Wrong supply_left");
}

#[test]
fn test_buy_now_too_early_is_refused() {
    let ctx = fpo_ctx(BIDDER_ACCOUNT_ID, fpo_nanos(1975, 5, 24, 0), 1000);
    let mut marketplace = fpo_marketplace(trading_fpo(true));
    let r = marketplace.fpo_buy(&ctx, NFT_CONTRACT_ID.to_string(), 0, 0);
    assert!(matches!(r, Err(MarketError::NotRunning(ListingStatus::Unstarted))));
}

#[test]
fn test_buy_now_too_late_is_refused() {
    let ctx = fpo_ctx(BIDDER_ACCOUNT_ID, fpo_nanos(1975, 7, 24, 0), 1000);
    let mut marketplace = fpo_marketplace(trading_fpo(true));
    let r = marketplace.fpo_buy(&ctx, NFT_CONTRACT_ID.to_string(), 0, 0);
    assert!(matches!(r, Err(MarketError::NotRunning(ListingStatus::Ended))));
}

#[test]
fn test_place_proposal_for_buy_now_only_is_refused() {
    let ctx = fpo_ctx(BIDDER_ACCOUNT_ID, fpo_nanos(1975, 6, 1, 0), 1000);
    let mut marketplace = fpo_marketplace(trading_fpo(false));
    let r = marketplace.fpo_place_proposal(&ctx, NFT_CONTRACT_ID.to_string(), 0, 800, 0);
    assert!(matches!(r, Err(MarketError::BidsNotAccepted)));
}

#[test]
fn test_buy_from_yourself_is_refused() {
    let ctx = fpo_ctx(OFFEROR_ACCOUNT_ID, fpo_nanos(1975, 6, 1, 0), 1000);
    let mut marketplace = fpo_marketplace(trading_fpo(true));
    let r = marketplace.fpo_buy(&ctx, NFT_CONTRACT_ID.to_string(), 0, 0);
    assert!(matches!(r, Err(MarketError::CannotBuyFromYourself)));
}

#[test]
fn test_fpo_conclude_refunds_every_proposal() {
    let ctx = fpo_ctx(OFFEROR_ACCOUNT_ID, fpo_nanos(1975, 7, 1, 0), 0);
    let mut marketplace = fpo_marketplace(trading_fpo(true));
    let (seller_refund, refunds) = marketplace
        .fpo_conclude(&ctx, NFT_CONTRACT_ID.to_string(), 0, 100)
        .expect("concluding is refused");
    assert!(seller_refund.is_none());
    let amounts: Vec<u128> = refunds.iter().map(|t| t.amount_yocto).collect();
    assert_eq!(amounts, vec![500, 700, 900]);
    assert!(marketplace.fpos.get(&fpo_key()).is_none());
    assert!(marketplace.fpos.by_seller_id.get(&OFFEROR_ACCOUNT_ID.to_string()).is_none());
}

#[test]
fn test_fpo_conclude_while_running_is_refused() {
    let ctx = fpo_ctx(OFFEROR_ACCOUNT_ID, fpo_nanos(1975, 6, 1, 0), 0);
    let mut marketplace = fpo_marketplace(trading_fpo(true));
    let r = marketplace.fpo_conclude(&ctx, NFT_CONTRACT_ID.to_string(), 0, 100);
    assert!(matches!(r, Err(MarketError::CannotConcludeRunning)));
    assert!(stored_ids(&marketplace) == vec![1, 3, 2]);
}

#[test]
fn test_fpo_acceptable_price_never_drops() {
    let mut marketplace = fpo_marketplace(trading_fpo(true));
    let now = fpo_nanos(1975, 6, 1, 0);
    let acceptable = |m: &MarketplaceContract| m.fpos.get(&fpo_key()).unwrap().acceptable_price_yocto().unwrap();
    let mut before = acceptable(&marketplace);
    assert_eq!(before, 510);
    for price in [510u128, 600, 990, 710, 990] {
        marketplace
            .fpo_place_proposal(&fpo_ctx(BIDDER_ACCOUNT_ID, now, price), NFT_CONTRACT_ID.to_string(), 0, price, 0)
            .expect("the proposal is refused");
        let after = acceptable(&marketplace);
        assert!(after >= before);
        before = after;
    }
    assert_eq!(before, 900 + PRICE_STEP_YOCTO);
}

fn fpo_add(ctx: &CallContext, media: &str, supply: u64, price: u128, min: Option<u128>, end: Option<&str>) -> Result<(), MarketError> {
    let marketplace = MarketplaceContract::new(MARKETPLACE_ACCOUNT_ID.to_string());
    let r = match min {
        None => marketplace.fpo_add_buy_now_only(
            ctx,
            "Bored Grapes".to_string(),
            media.to_string(),
            supply,
            price,
            None,
            end.map(|s| s.to_string()),
        ),
        Some(m) => marketplace.fpo_add_accepting_proposals(
            ctx,
            "Bored Grapes".to_string(),
            media.to_string(),
            supply,
            price,
            m,
            None,
            end.unwrap_or("").to_string(),
        ),
    };
    r.map(|_| ())
}

#[test]
fn test_fpo_add_checks() {
    let ipfs = "https://ipfs.io/ipfs/QmcRD4wkPPi6dig81r5sLj9Zm1gDCL4zgpEj9CfuRrGbzF";
    let now = fpo_nanos(1975, 5, 24, 13);
    let ctx = fpo_ctx(OFFEROR_ACCOUNT_ID, now, 0);
    let end = Some("1975-06-01T00:00:00+00:00");
    assert_eq!(fpo_add(&ctx, ipfs, 10, 1000, None, None), Ok(()));
    assert_eq!(fpo_add(&ctx, ipfs, 10, 1000, Some(500), end), Ok(()));
    assert_eq!(fpo_add(&ctx, "https://ipfs.io/ipfs/Qmc", 10, 1000, None, None), Err(MarketError::NotIpfsUrl));
    assert_eq!(fpo_add(&ctx, ipfs, 0, 1000, None, None), Err(MarketError::SupplyOutOfRange));
    assert_eq!(fpo_add(&ctx, ipfs, 101, 1000, None, None), Err(MarketError::SupplyOutOfRange));
    assert_eq!(fpo_add(&ctx, ipfs, 10, 990, None, None), Err(MarketError::PriceTooLow));
    assert_eq!(fpo_add(&ctx, ipfs, 10, 1005, None, None), Err(MarketError::PriceNotMultipleOfStep));
    assert_eq!(fpo_add(&ctx, ipfs, 10, 1000, Some(1000), end), Err(MarketError::MinProposalNotBelowPrice));
    assert_eq!(
        fpo_add(&ctx, ipfs, 10, 1000, Some(500), Some("1975-07-01T00:00:00+00:00")),
        Err(MarketError::DurationTooLong)
    );
    assert_eq!(
        fpo_add(&ctx, ipfs, 10, 1000, None, Some("1975-05-20T00:00:00+00:00")),
        Err(MarketError::EndDateInThePast)
    );
    assert_eq!(fpo_add(&ctx, ipfs, 10, 1000, Some(500), Some("soon")), Err(MarketError::WrongDateFormat));
    // a buy-now-only offering must attach the worst-case storage
    let priced = CallContext { storage_byte_cost: 10_000_000_000_000_000_000, ..fpo_ctx(OFFEROR_ACCOUNT_ID, now, 0) };
    assert_eq!(fpo_add(&priced, ipfs, 10, 1000, None, None), Err(MarketError::AttachedDepositTooLow));
}

#[test]
fn test_offering_accepting_proposals_keeps_its_minimum() {
    let ipfs = "https://ipfs.io/ipfs/QmcRD4wkPPi6dig81r5sLj9Zm1gDCL4zgpEj9CfuRrGbzF";
    let now = fpo_nanos(1975, 5, 24, 13);
    let ctx = fpo_ctx(OFFEROR_ACCOUNT_ID, now, 0);
    let mut marketplace = MarketplaceContract::new(MARKETPLACE_ACCOUNT_ID.to_string());
    let request = marketplace
        .fpo_add_accepting_proposals(
            &ctx,
            "Bored Grapes".to_string(),
            ipfs.to_string(),
            3,
            1000,
            500,
            None,
            "1975-06-01T00:00:00+00:00".to_string(),
        )
        .expect("the offering is refused");
    assert_eq!(request.completion.min_proposal_price_yocto, Some(500));
    let nft_account_id = request.completion.nft_account_id.clone();
    let callback_ctx = CallContext {
        predecessor_account_id: MARKETPLACE_ACCOUNT_ID.to_string(),
        ..fpo_ctx(OFFEROR_ACCOUNT_ID, now, 0)
    };
    let (collection_id, _) = marketplace
        .fpo_add_make_collection_completion(&callback_ctx, request.completion, CallResult::Successful(Some((0, 100))), 0)
        .expect("the offering is not recorded");
    assert_eq!(collection_id, 0);
    let key = OfferingId { nft_contract_id: nft_account_id.clone(), collection_id: 0 };
    let fpo = marketplace.fpos.get(&key).expect("the offering is missing");
    assert_eq!(fpo.min_proposal_price_yocto, Some(500));
    // the offering takes proposals from its minimum on
    let running = fpo_ctx(BIDDER_ACCOUNT_ID, fpo_nanos(1975, 5, 25, 0), 500);
    let outcome = marketplace
        .fpo_place_proposal(&running, nft_account_id, 0, 500, 0)
        .expect("the proposal is refused");
    assert_eq!(outcome.proposal_id, 0);
}

#[test]
fn test_modify_proposal_to_a_lower_price_is_refused() {
    let ctx = fpo_ctx(PROPOSER2_ACCOUNT_ID, fpo_nanos(1975, 6, 1, 0), 0);
    let mut marketplace = fpo_marketplace(trading_fpo(true));
    let r = marketplace.fpo_modify_proposal(&ctx, NFT_CONTRACT_ID.to_string(), 0, 2, 800);
    assert!(matches!(r, Err(MarketError::ProposalPriceLowered)));
    assert!(stored_ids(&marketplace) == vec![1, 3, 2]);
}
