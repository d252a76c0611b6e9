use vstd::prelude::*;
use crate::table::TableKey;
use crate::offer::sorted_best_first;
use crate::marketplace::bid::Bid;
use crate::marketplace::book::{Listing, ListingBook};
use crate::marketplace::constants::{
    MIN_PRICE_YOCTO, PRICE_STEP_YOCTO, TOTAL_SUPPLY_MAX, PRIMARY_LISTING_ADD_STORAGE_MAX,
    NFT_MAKE_COLLECTION_STORAGE_MAX, NFT_MAKE_COLLECTION_GAS, PRIMARY_LISTING_MAX_DURATION_NANO,
};
use crate::context::{CallContext, CallResult, MakeCollectionCall, Transfer};
use crate::marketplace::contract::{credit_bidders, MarketplaceContract, deposit_of};
use crate::marketplace::errors::MarketError;
use crate::marketplace::external::NftMetadata;
use crate::marketplace::primary::{PrimaryListing, PrimaryListingId};
use crate::marketplace::refunds::{refunds_for, refund_bids};
use crate::marketplace::schedule::{
    listing_schedule, compute_schedule, opt_view, title_and_media_check, check_title_and_media,
    sub_account, byte_len, text_bytes,
};
use crate::marketplace::status::{ListingStatus, status_at, advance_status};

verus! {

/// What the completion of a new primary listing needs to create it.
pub struct PrimaryListingAddCompletion {
    pub nft_account_id: String,
    pub nft_metadata: NftMetadata,
    pub supply_total: u64,
    pub buy_now_price_yocto: u128,
    pub min_proposal_price_yocto: Option<u128>,
    pub start_timestamp: i64,
    pub end_timestamp: Option<i64>,
}

/// A new primary listing is created in two steps: the NFT contract makes the
/// collection, then the completion records the listing.
pub struct PrimaryListingAddRequest {
    pub make_collection: MakeCollectionCall,
    pub completion: PrimaryListingAddCompletion,
}

/// Whether a listing may be added: title, URL, supply and prices must be
/// valid, and so must the schedule; then the seller's deposit must cover the
/// worst case storage of the listing and of the collection. Gives the start
/// and end of the listing.
pub open spec fn primary_add_outcome(
    deposit: u128,
    byte_cost: u128,
    title: Seq<char>,
    media: Seq<char>,
    supply_total: u64,
    price: u128,
    min_proposal: Option<u128>,
    start: Option<Seq<char>>,
    end: Option<Seq<char>>,
    now: i64,
) -> Result<(i64, Option<i64>), MarketError> {
    let worst = PRIMARY_LISTING_ADD_STORAGE_MAX * byte_cost + NFT_MAKE_COLLECTION_STORAGE_MAX * byte_cost;
    if title_and_media_check(title, media) is Some {
        Err(title_and_media_check(title, media).unwrap())
    } else if !(0 < supply_total <= TOTAL_SUPPLY_MAX) {
        Err(MarketError::SupplyOutOfRange)
    } else if price < MIN_PRICE_YOCTO {
        Err(MarketError::PriceTooLow)
    } else if price % PRICE_STEP_YOCTO != 0 || (min_proposal matches Some(m) && m % PRICE_STEP_YOCTO != 0) {
        Err(MarketError::PriceNotMultipleOfStep)
    } else if min_proposal matches Some(m) && price <= m {
        Err(MarketError::MinProposalNotBelowPrice)
    } else {
        let schedule = if min_proposal is Some {
            listing_schedule(start, end, now, true, Some(PRIMARY_LISTING_MAX_DURATION_NANO), true)
        } else {
            listing_schedule(start, end, now, true, None, false)
        };
        if schedule is Err {
            schedule
        } else if worst > u128::MAX {
            Err(MarketError::ArithmeticOverflow)
        } else if deposit < worst {
            Err(MarketError::StorageDepositTooLow)
        } else {
            schedule
        }
    }
}

/// The request made when the checks pass.
pub open spec fn is_add_request(
    req: PrimaryListingAddRequest,
    ctx: CallContext,
    title: Seq<char>,
    media: Seq<char>,
    supply_total: u64,
    price: u128,
    min_proposal: Option<u128>,
    schedule: (i64, Option<i64>),
) -> bool {
    let nft = "nft."@ + ctx.current_account_id@;
    &&& req.make_collection.nft_contract_id@ == nft
    &&& req.make_collection.nft_metadata.is_title_and_media(title, media)
    &&& req.make_collection.max_supply == supply_total
    &&& req.make_collection.attached_deposit == NFT_MAKE_COLLECTION_STORAGE_MAX * ctx.storage_byte_cost
    &&& req.make_collection.gas == NFT_MAKE_COLLECTION_GAS
    &&& req.completion.nft_account_id@ == nft
    &&& req.completion.nft_metadata.is_title_and_media(title, media)
    &&& req.completion.supply_total == supply_total
    &&& req.completion.buy_now_price_yocto == price
    &&& req.completion.min_proposal_price_yocto == min_proposal
    &&& req.completion.start_timestamp == schedule.0
    &&& req.completion.end_timestamp == schedule.1
}

/// The listing the completion records for collection `collection_id`.
pub open spec fn is_new_primary_listing(
    l: PrimaryListing,
    args: PrimaryListingAddCompletion,
    collection_id: u64,
    seller: Seq<char>,
) -> bool {
    &&& l.id.nft_contract_id@ == args.nft_account_id@
    &&& l.id.collection_id == collection_id
    &&& l.seller_id@ == seller
    &&& l.nft_metadata == args.nft_metadata
    &&& l.supply_total == args.supply_total
    &&& l.price_yocto == Some(args.buy_now_price_yocto)
    &&& l.min_bid_yocto == args.min_proposal_price_yocto
    &&& l.start_timestamp == args.start_timestamp
    &&& l.end_timestamp == args.end_timestamp
    &&& l.status == ListingStatus::Unstarted
    &&& l.supply_left == args.supply_total
    &&& l.bids@.len() == 0
    &&& l.next_bid_id == 0
}

impl MarketplaceContract {
    fn prepare_primary_add(
        &self,
        ctx: &CallContext,
        title: String,
        media_url: String,
        supply_total: u64,
        buy_now_price_yocto: u128,
        min_proposal_price_yocto: Option<u128>,
        start_date: Option<String>,
        end_date: Option<String>,
    ) -> (r: Result<PrimaryListingAddRequest, MarketError>)
        requires
            self.wf(),
            ctx.wf(),
        ensures
            ({
                let outcome = primary_add_outcome(
                    deposit_of(self.deposits(), ctx.predecessor_account_id@),
                    ctx.storage_byte_cost,
                    title@,
                    media_url@,
                    supply_total,
                    buy_now_price_yocto,
                    min_proposal_price_yocto,
                    opt_view(start_date),
                    opt_view(end_date),
                    ctx.now(),
                );
                match r {
                    Err(e) => outcome == Err::<(i64, Option<i64>), MarketError>(e),
                    Ok(req) => outcome matches Ok(s) && is_add_request(
                        req,
                        *ctx,
                        title@,
                        media_url@,
                        supply_total,
                        buy_now_price_yocto,
                        min_proposal_price_yocto,
                        s,
                    ),
                }
            }),
    {
        if let Some(e) = check_title_and_media(&title, &media_url) {
            return Err(e);
        }
        if !(0 < supply_total && supply_total <= TOTAL_SUPPLY_MAX) {
            return Err(MarketError::SupplyOutOfRange);
        }
        if buy_now_price_yocto < MIN_PRICE_YOCTO {
            return Err(MarketError::PriceTooLow);
        }
        let min_off_step = match min_proposal_price_yocto {
            Some(m) => m % PRICE_STEP_YOCTO != 0,
            None => false,
        };
        if buy_now_price_yocto % PRICE_STEP_YOCTO != 0 || min_off_step {
            return Err(MarketError::PriceNotMultipleOfStep);
        }
        if let Some(m) = min_proposal_price_yocto {
            if buy_now_price_yocto <= m {
                return Err(MarketError::MinProposalNotBelowPrice);
            }
        }
        let now = ctx.now_nanos();
        let schedule = if min_proposal_price_yocto.is_some() {
            compute_schedule(&start_date, &end_date, now, true, Some(PRIMARY_LISTING_MAX_DURATION_NANO), true)
        } else {
            compute_schedule(&start_date, &end_date, now, true, None, false)
        };
        let (start_timestamp, end_timestamp) = match schedule {
            Ok(s) => s,
            Err(e) => {
                return Err(e);
            },
        };
        let current = self.deposit_or_zero(&ctx.predecessor_account_id);
        let listing_cost = match (PRIMARY_LISTING_ADD_STORAGE_MAX as u128).checked_mul(ctx.storage_byte_cost) {
            Some(c) => c,
            None => {
                return Err(MarketError::ArithmeticOverflow);
            },
        };
        let nft_cost = match (NFT_MAKE_COLLECTION_STORAGE_MAX as u128).checked_mul(ctx.storage_byte_cost) {
            Some(c) => c,
            None => {
                return Err(MarketError::ArithmeticOverflow);
            },
        };
        let worst = match listing_cost.checked_add(nft_cost) {
            Some(c) => c,
            None => {
                return Err(MarketError::ArithmeticOverflow);
            },
        };
        if current < worst {
            return Err(MarketError::StorageDepositTooLow);
        }
        let nft_contract_id = sub_account("nft.", &ctx.current_account_id);
        let nft_metadata = NftMetadata::new(title.as_str(), media_url.as_str());
        proof {
            reveal_strlit("nft.");
        }
        Ok(PrimaryListingAddRequest {
            make_collection: MakeCollectionCall {
                nft_contract_id: nft_contract_id.clone(),
                nft_metadata: nft_metadata.clone_metadata(),
                max_supply: supply_total,
                attached_deposit: nft_cost,
                gas: NFT_MAKE_COLLECTION_GAS,
            },
            completion: PrimaryListingAddCompletion {
                nft_account_id: nft_contract_id,
                nft_metadata,
                supply_total,
                buy_now_price_yocto,
                min_proposal_price_yocto,
                start_timestamp,
                end_timestamp,
            },
        })
    }

    /// Lists a new collection for sale at a fixed price only. Nothing is
    /// stored yet: the request asks the NFT contract to make the collection.
    pub fn primary_listing_add_buy_now_only(
        &self,
        ctx: &CallContext,
        title: String,
        media_url: String,
        supply_total: u64,
        buy_now_price_yocto: u128,
        start_date: Option<String>,
        end_date: Option<String>,
    ) -> (r: Result<PrimaryListingAddRequest, MarketError>)
        requires
            self.wf(),
            ctx.wf(),
        ensures
            ({
                let outcome = primary_add_outcome(
                    deposit_of(self.deposits(), ctx.predecessor_account_id@),
                    ctx.storage_byte_cost,
                    title@,
                    media_url@,
                    supply_total,
                    buy_now_price_yocto,
                    None,
                    opt_view(start_date),
                    opt_view(end_date),
                    ctx.now(),
                );
                match r {
                    Err(e) => outcome == Err::<(i64, Option<i64>), MarketError>(e),
                    Ok(req) => outcome matches Ok(s) && is_add_request(
                        req,
                        *ctx,
                        title@,
                        media_url@,
                        supply_total,
                        buy_now_price_yocto,
                        None,
                        s,
                    ),
                }
            }),
    {
        self.prepare_primary_add(ctx, title, media_url, supply_total, buy_now_price_yocto, None, start_date, end_date)
    }

    /// Lists a new collection for sale at a fixed price and by proposals,
    /// which must end within two weeks.
    pub fn primary_listing_add_accepting_proposals(
        &self,
        ctx: &CallContext,
        title: String,
        media_url: String,
        supply_total: u64,
        buy_now_price_yocto: u128,
        min_proposal_price_yocto: u128,
        start_date: Option<String>,
        end_date: String,
    ) -> (r: Result<PrimaryListingAddRequest, MarketError>)
        requires
            self.wf(),
            ctx.wf(),
        ensures
            ({
                let outcome = primary_add_outcome(
                    deposit_of(self.deposits(), ctx.predecessor_account_id@),
                    ctx.storage_byte_cost,
                    title@,
                    media_url@,
                    supply_total,
                    buy_now_price_yocto,
                    Some(min_proposal_price_yocto),
                    opt_view(start_date),
                    Some(end_date@),
                    ctx.now(),
                );
                match r {
                    Err(e) => outcome == Err::<(i64, Option<i64>), MarketError>(e),
                    Ok(req) => outcome matches Ok(s) && is_add_request(
                        req,
                        *ctx,
                        title@,
                        media_url@,
                        supply_total,
                        buy_now_price_yocto,
                        Some(min_proposal_price_yocto),
                        s,
                    ),
                }
            }),
    {
        self.prepare_primary_add(
            ctx,
            title,
            media_url,
            supply_total,
            buy_now_price_yocto,
            Some(min_proposal_price_yocto),
            start_date,
            Some(end_date),
        )
    }

    /// Records the listing once the NFT contract made its collection: the
    /// signer becomes the seller and its deposit pays the storage of the
    /// listing (`listing_storage_bytes`, measured by the runtime) and of the
    /// collection (as the NFT contract reported it); a deposit too small is
    /// emptied. Gives the collection id and the seller's remaining deposit.
    pub fn primary_listing_add_make_collection_completion(
        &mut self,
        ctx: &CallContext,
        args: PrimaryListingAddCompletion,
        result: CallResult<(u64, u64)>,
        listing_storage_bytes: u64,
    ) -> (r: Result<(u64, u128), MarketError>)
        requires
            old(self).wf(),
        ensures
            final(self).wf(),
            r is Err ==> *final(self) == *old(self),
            match result {
                CallResult::NotReady => r == Err::<(u64, u128), MarketError>(MarketError::NftCallNotReady),
                CallResult::Failed => r == Err::<(u64, u128), MarketError>(MarketError::NftCallFailed),
                CallResult::Successful(None) => r == Err::<(u64, u128), MarketError>(
                    MarketError::UnexpectedNftResult,
                ),
                CallResult::Successful(Some(v)) => {
                    let total = listing_storage_bytes * ctx.storage_byte_cost + v.1 * ctx.storage_byte_cost;
                    let seller = ctx.signer_account_id@;
                    let k = (args.nft_account_id@, v.0);
                    if total > u128::MAX {
                        r == Err::<(u64, u128), MarketError>(MarketError::ArithmeticOverflow)
                    } else if !old(self).deposits().contains_key(seller) {
                        r == Err::<(u64, u128), MarketError>(MarketError::SellerDepositMissing)
                    } else {
                        let cur = old(self).deposits()[seller];
                        let updated: u128 = if cur >= total {
                            (cur - total) as u128
                        } else {
                            0
                        };
                        &&& r == Ok::<(u64, u128), MarketError>((v.0, updated))
                        &&& final(self).deposits() == old(self).deposits().insert(seller, updated)
                        &&& final(self).primary_listings.by_id@ == old(self).primary_listings.by_id@.insert(
                            k,
                            final(self).primary_listings.by_id@[k],
                        )
                        &&& is_new_primary_listing(final(self).primary_listings.by_id@[k], args, v.0, seller)
                        &&& final(self).secondary_listings == old(self).secondary_listings
                        &&& final(self).owner_id == old(self).owner_id
                    }
                },
            },
    {
        let (collection_id, nft_storage) = match result {
            CallResult::NotReady => {
                return Err(MarketError::NftCallNotReady);
            },
            CallResult::Failed => {
                return Err(MarketError::NftCallFailed);
            },
            CallResult::Successful(None) => {
                return Err(MarketError::UnexpectedNftResult);
            },
            CallResult::Successful(Some(v)) => v,
        };
        let listing_cost = match (listing_storage_bytes as u128).checked_mul(ctx.storage_byte_cost) {
            Some(c) => c,
            None => {
                return Err(MarketError::ArithmeticOverflow);
            },
        };
        let nft_cost = match (nft_storage as u128).checked_mul(ctx.storage_byte_cost) {
            Some(c) => c,
            None => {
                return Err(MarketError::ArithmeticOverflow);
            },
        };
        let total = match listing_cost.checked_add(nft_cost) {
            Some(c) => c,
            None => {
                return Err(MarketError::ArithmeticOverflow);
            },
        };
        let seller = ctx.signer_account_id.clone();
        let current = match self.storage_deposits.get(&seller) {
            Some(d) => *d,
            None => {
                return Err(MarketError::SellerDepositMissing);
            },
        };
        let updated = if current >= total {
            current - total
        } else {
            0
        };
        let ghost old_self = *self;
        let listing = PrimaryListing {
            id: PrimaryListingId { nft_contract_id: args.nft_account_id, collection_id },
            seller_id: seller.clone(),
            nft_metadata: args.nft_metadata,
            supply_total: args.supply_total,
            price_yocto: Some(args.buy_now_price_yocto),
            min_bid_yocto: args.min_proposal_price_yocto,
            start_timestamp: args.start_timestamp,
            end_timestamp: args.end_timestamp,
            status: ListingStatus::Unstarted,
            supply_left: args.supply_total,
            bids: Vec::new(),
            next_bid_id: 0,
        };
        let ghost k = listing.listing_key();
        let ghost new_l = listing;
        self.primary_listings.add(listing);
        self.storage_deposits.insert(seller, updated);
        proof {
            assert forall|k2: (Seq<char>, u64)| #[trigger]
                self.primary_listings.by_id@.contains_key(k2) implies self.primary_listings.by_id@[k2].wf() by {
                if k2 != k {
                    assert(old_self.primary_listings.by_id@.contains_key(k2));
                }
            }
        }
        Ok((collection_id, updated))
    }

    /// The seller accepts its best `accepted_proposals_count` proposals: they
    /// leave the listing and as many tokens are taken off the supply left.
    /// Gives the accepted proposals, best first.
    pub fn primary_listing_accept_proposals(
        &mut self,
        ctx: &CallContext,
        nft_contract_id: String,
        collection_id: u64,
        accepted_proposals_count: u64,
    ) -> (r: Result<Vec<Bid>, MarketError>)
        requires
            old(self).wf(),
        ensures
            final(self).wf(),
            r is Err ==> *final(self) == *old(self),
            ({
                let k = (nft_contract_id@, collection_id);
                let book = old(self).primary_listings.by_id@;
                if !book.contains_key(k) {
                    r == Err::<Vec<Bid>, MarketError>(MarketError::ListingNotFound)
                } else if ctx.predecessor_account_id@ != book[k].seller_id@ {
                    r == Err::<Vec<Bid>, MarketError>(MarketError::NotSeller)
                } else if book[k].bids@.len() < accepted_proposals_count {
                    r == Err::<Vec<Bid>, MarketError>(MarketError::NotEnoughProposals)
                } else if book[k].supply_left < accepted_proposals_count {
                    r == Err::<Vec<Bid>, MarketError>(MarketError::ArithmeticOverflow)
                } else {
                    let l = book[k];
                    &&& r matches Ok(accepted) && accepted@ == l.bids@.take(accepted_proposals_count as int)
                    &&& final(self).primary_listings.by_id@ == book.insert(
                        k,
                        PrimaryListing {
                            supply_left: (l.supply_left - accepted_proposals_count) as u64,
                            bids: final(self).primary_listings.by_id@[k].bids,
                            ..l
                        },
                    )
                    &&& final(self).primary_listings.by_id@[k].bids@ == l.bids@.skip(accepted_proposals_count as int)
                    &&& final(self).primary_listings.by_id.keys() == old(self).primary_listings.by_id.keys()
                    &&& final(self).primary_listings.by_seller_id == old(self).primary_listings.by_seller_id
                    &&& final(self).secondary_listings == old(self).secondary_listings
                    &&& final(self).storage_deposits == old(self).storage_deposits
                    &&& final(self).owner_id == old(self).owner_id
                }
            }),
    {
        let key = PrimaryListingId { nft_contract_id, collection_id };
        let (seller_ok, count_ok, supply_ok) = match self.primary_listings.get(&key) {
            None => {
                return Err(MarketError::ListingNotFound);
            },
            Some(l) => (
                ctx.predecessor_account_id == l.seller_id,
                l.bids.len() as u64 >= accepted_proposals_count,
                l.supply_left >= accepted_proposals_count,
            ),
        };
        if !seller_ok {
            return Err(MarketError::NotSeller);
        }
        if !count_ok {
            return Err(MarketError::NotEnoughProposals);
        }
        if !supply_ok {
            return Err(MarketError::ArithmeticOverflow);
        }
        let ghost old_self = *self;
        let ghost kv = key.key_view();
        let (i, k, mut l) = match self.primary_listings.take(&key) {
            Ok(t) => t,
            Err(e) => {
                return Err(e);
            },
        };
        let ghost l0 = l;
        let n = accepted_proposals_count as usize;
        let mut accepted = l.bids.split_off(n);
        std::mem::swap(&mut accepted, &mut l.bids);
        l.supply_left = l.supply_left - accepted_proposals_count;
        proof {
            assert(accepted@ =~= l0.bids@.take(n as int));
            assert(l.bids@ =~= l0.bids@.skip(n as int));
            assert forall|a: int, b: int| 0 <= a < b < l.bids@.len() implies
                crate::offer::best_first(#[trigger] l.bids@[a], #[trigger] l.bids@[b]) by {
                assert(l.bids@[a] == l0.bids@[a + n] && l.bids@[b] == l0.bids@[b + n]);
            }
            assert forall|a: int| 0 <= a < l.bids@.len() implies #[trigger] l.bids@[a].id < l.next_bid_id by {
                assert(l.bids@[a] == l0.bids@[a + n]);
            }
        }
        self.primary_listings.put_back(i, k, l);
        proof {
            let ob = old_self.primary_listings.by_id;
            assert(self.primary_listings.by_id@ =~= ob@.insert(kv, self.primary_listings.by_id@[kv]));
            assert(self.primary_listings.by_id.keys() =~= ob.keys());
            assert forall|k2: (Seq<char>, u64)| #[trigger]
                self.primary_listings.by_id@.contains_key(k2) implies self.primary_listings.by_id@[k2].wf() by {
                if k2 != kv {
                    assert(old_self.primary_listings.by_id@.contains_key(k2));
                }
            }
        }
        Ok(accepted)
    }

    /// The seller ends the listing, which must not be running when it has an
    /// end date: every standing bid is released and its deposit returned,
    /// and each of its bidders with a deposit record is credited the storage
    /// its bid freed (`bid_storage_bytes`); the listing is removed and the
    /// storage it freed (`freed_storage_bytes`; both measured by the runtime)
    /// is credited to the seller's deposit, which starts from zero when the
    /// seller has none. Gives the seller's deposit, the refunds and the
    /// released bids.
    pub fn primary_listing_conclude(
        &mut self,
        ctx: &CallContext,
        nft_contract_id: String,
        collection_id: u64,
        freed_storage_bytes: u64,
        bid_storage_bytes: u64,
    ) -> (r: Result<(u128, Vec<Transfer>, Vec<Bid>), MarketError>)
        requires
            old(self).wf(),
            ctx.wf(),
        ensures
            final(self).wf(),
            r is Err ==> *final(self) == *old(self),
            ({
                let k = (nft_contract_id@, collection_id);
                let book = old(self).primary_listings.by_id@;
                let refund = freed_storage_bytes * ctx.storage_byte_cost;
                if !book.contains_key(k) {
                    r == Err::<(u128, Vec<Transfer>, Vec<Bid>), MarketError>(MarketError::ListingNotFound)
                } else if ctx.predecessor_account_id@ != book[k].seller_id@ {
                    r == Err::<(u128, Vec<Transfer>, Vec<Bid>), MarketError>(MarketError::NotSeller)
                } else if book[k].end_timestamp is Some && status_at(
                    book[k].status,
                    book[k].supply_left == 0,
                    Some(book[k].start_timestamp),
                    book[k].end_timestamp,
                    ctx.now(),
                ) == ListingStatus::Running {
                    r == Err::<(u128, Vec<Transfer>, Vec<Bid>), MarketError>(MarketError::CannotConcludeRunning)
                } else if refund > u128::MAX || bid_storage_bytes * ctx.storage_byte_cost > u128::MAX {
                    r == Err::<(u128, Vec<Transfer>, Vec<Bid>), MarketError>(MarketError::ArithmeticOverflow)
                } else {
                    let credited = credit_bidders(
                        old(self).deposits(),
                        book[k].bids@.reverse(),
                        (bid_storage_bytes * ctx.storage_byte_cost) as u128,
                    );
                    if deposit_of(credited, book[k].seller_id@) + refund > u128::MAX {
                        r == Err::<(u128, Vec<Transfer>, Vec<Bid>), MarketError>(MarketError::ArithmeticOverflow)
                    } else {
                        let updated = (deposit_of(credited, book[k].seller_id@) + refund) as u128;
                        &&& r matches Ok((d, refunds, released)) && {
                            &&& d == updated
                            &&& released@ == book[k].bids@.reverse()
                            &&& refunds_for(refunds@, released@)
                        }
                        &&& ListingBook::key_removed(old(self).primary_listings, final(self).primary_listings, k)
                        &&& final(self).deposits() == credited.insert(book[k].seller_id@, updated)
                        &&& final(self).secondary_listings == old(self).secondary_listings
                        &&& final(self).owner_id == old(self).owner_id
                    }
                }
            }),
    {
        let key = PrimaryListingId { nft_contract_id, collection_id };
        let now = ctx.now_nanos();
        let (seller, running_with_end) = match self.primary_listings.get(&key) {
            None => {
                return Err(MarketError::ListingNotFound);
            },
            Some(l) => {
                let st = advance_status(l.status, l.supply_left == 0, Some(l.start_timestamp), l.end_timestamp, now);
                (l.seller_id.clone(), l.end_timestamp.is_some() && st == ListingStatus::Running)
            },
        };
        if ctx.predecessor_account_id != seller {
            return Err(MarketError::NotSeller);
        }
        if running_with_end {
            return Err(MarketError::CannotConcludeRunning);
        }
        let refund = match (freed_storage_bytes as u128).checked_mul(ctx.storage_byte_cost) {
            Some(c) => c,
            None => {
                return Err(MarketError::ArithmeticOverflow);
            },
        };
        let bid_cost = match (bid_storage_bytes as u128).checked_mul(ctx.storage_byte_cost) {
            Some(c) => c,
            None => {
                return Err(MarketError::ArithmeticOverflow);
            },
        };
        let current = match self.primary_listings.get(&key) {
            None => {
                return Err(MarketError::ListingNotFound);
            },
            Some(l) => self.deposit_after_crediting(&l.bids, bid_cost, &seller),
        };
        let updated = match current.checked_add(refund) {
            Some(u) => u,
            None => {
                return Err(MarketError::ArithmeticOverflow);
            },
        };
        let ghost old_self = *self;
        let mut listing = match self.primary_listings.remove(&key) {
            Ok(l) => l,
            Err(e) => {
                return Err(e);
            },
        };
        listing.supply_left = 0;
        let released = listing.remove_supply_exceeding_bids();
        proof {
            let ob = old_self.primary_listings.by_id@[key.key_view()].bids@;
            if ob.len() > 0 {
                assert(ob.skip(0) =~= ob);
            } else {
                assert(ob.reverse() =~= released@);
            }
        }
        let refunds = refund_bids(&released);
        proof {
            assert forall|k2: (Seq<char>, u64)| #[trigger]
                self.primary_listings.by_id@.contains_key(k2) implies self.primary_listings.by_id@[k2].wf() by {
                assert(old_self.primary_listings.by_id@.contains_key(k2));
            }
        }
        let ghost mid_self = *self;
        self.credit_released_bidders(&released, bid_cost);
        self.storage_deposits.insert(seller, updated);
        proof {
            assert forall|k2: (Seq<char>, u64)| #[trigger]
                self.primary_listings.by_id@.contains_key(k2) implies self.primary_listings.by_id@[k2].wf() by {
                assert(mid_self.primary_listings.by_id@.contains_key(k2));
            }
        }
        Ok((updated, refunds, released))
    }
}

/// The bytes that a new primary listing may take: a measured base, the
/// seller's name twice, the title and the media URL, and eight bytes for each
/// date that is given.
pub open spec fn primary_listing_add_storage_estimate(
    seller_id: Seq<char>,
    title: Seq<char>,
    media: Seq<char>,
    has_start: bool,
    has_end: bool,
) -> int {
    701 + 2 * byte_len(seller_id) + byte_len(title) + byte_len(media)
        + (if has_start { 8int } else { 0int }) + (if has_end { 8int } else { 0int })
}

/// Estimates the storage of a buy-now-only primary listing.
pub fn primary_listing_add_buy_now_only_storage(
    seller_id: &str,
    title: &str,
    media: &str,
    start_timestamp: &Option<String>,
    end_timestamp: &Option<String>,
) -> (n: u64)
    requires
        primary_listing_add_storage_estimate(seller_id@, title@, media@, start_timestamp is Some, end_timestamp is Some)
            <= u64::MAX,
    ensures
        n == primary_listing_add_storage_estimate(seller_id@, title@, media@, start_timestamp is Some, end_timestamp is Some),
{
    let start: u64 = if start_timestamp.is_some() { 8 } else { 0 };
    let end: u64 = if end_timestamp.is_some() { 8 } else { 0 };
    701 + 2 * text_bytes(seller_id) + text_bytes(title) + text_bytes(media) + start + end
}

/// The bytes that a new primary listing accepting proposals may take: the
/// measured base, the seller's name twice, the title and the media URL,
/// eight bytes for a start date and eight for its end date, which such a
/// listing always has.
pub open spec fn accepting_proposals_storage_estimate(
    seller_id: Seq<char>,
    title: Seq<char>,
    media: Seq<char>,
    has_start: bool,
) -> int {
    701 + 2 * byte_len(seller_id) + byte_len(title) + byte_len(media) + (if has_start { 8int } else { 0int }) + 8
}

/// The storage estimate of a listing accepting proposals is that of a
/// buy-now-only listing with an end date, whatever that end date.
pub proof fn lemma_accepting_estimate_is_buy_now_with_end(
    seller_id: Seq<char>,
    title: Seq<char>,
    media: Seq<char>,
    has_start: bool,
)
    ensures
        accepting_proposals_storage_estimate(seller_id, title, media, has_start)
            == primary_listing_add_storage_estimate(seller_id, title, media, has_start, true),
{
}

/// Estimates the storage of a primary listing that accepts proposals.
pub fn primary_listing_add_accepting_proposals_storage(
    seller_id: &str,
    title: &str,
    media: &str,
    start_timestamp: &Option<String>,
) -> (n: u64)
    requires
        accepting_proposals_storage_estimate(seller_id@, title@, media@, start_timestamp is Some) <= u64::MAX,
    ensures
        n == accepting_proposals_storage_estimate(seller_id@, title@, media@, start_timestamp is Some),
{
    let start: u64 = if start_timestamp.is_some() { 8 } else { 0 };
    701 + 2 * text_bytes(seller_id) + text_bytes(title) + text_bytes(media) + start + 8
}

/// The bytes that making a collection takes on the NFT contract.
pub open spec fn make_collection_storage_estimate(title: Seq<char>, media: Seq<char>) -> int {
    152 + byte_len(title) + 2 * byte_len(media)
}

/// Estimates the storage of making a collection on the NFT contract.
pub fn nft_make_collection_storage(title: &str, media: &str) -> (n: u64)
    requires
        make_collection_storage_estimate(title@, media@) <= u64::MAX,
    ensures
        n == make_collection_storage_estimate(title@, media@),
{
    152 + text_bytes(title) + 2 * text_bytes(media)
}

/// The bytes that minting a token takes on the NFT contract, from a measured
/// base: the title, the media URL and the receiver's name twice.
pub open spec fn nft_mint_storage_estimate(base: int, title: Seq<char>, media_url: Seq<char>, receiver_id: Seq<char>) -> int {
    base + byte_len(title) + byte_len(media_url) + 2 * byte_len(receiver_id)
}

/// Estimates the storage of minting a token, from the smaller base measured
/// for a listing's first mint.
pub fn nft_mint_storage(title: &str, media_url: &str, receiver_id: &str) -> (n: u64)
    requires
        nft_mint_storage_estimate(635, title@, media_url@, receiver_id@) <= u64::MAX,
    ensures
        n == nft_mint_storage_estimate(635, title@, media_url@, receiver_id@),
{
    635 + text_bytes(title) + text_bytes(media_url) + 2 * text_bytes(receiver_id)
}

} // verus!
