use vstd::prelude::*;
use crate::table::TableKey;
use crate::marketplace::book::{Listing, ListingBook};
use crate::marketplace::constants::{
    MIN_PRICE_YOCTO, PRICE_STEP_YOCTO, MIN_BID_YOCTO, BID_STEP_YOCTO, SECONDARY_LISTING_ADD_STORAGE_MAX,
    SECONDARY_LISTING_MAX_DURATION_NANO, NFT_TRANSFER_GAS,
};
use crate::context::{CallContext, CallResult, NftTransferCall, Transfer};
use crate::marketplace::contract::{MarketplaceContract, deposit_of};
use crate::marketplace::errors::MarketError;
use crate::marketplace::external::NftMetadata;
use crate::marketplace::schedule::{listing_schedule, compute_schedule, opt_view, title_and_media_check, check_title_and_media, text_bytes};
use crate::marketplace::primary_seller::nft_mint_storage_estimate;
use crate::marketplace::secondary::{SecondaryListing, SecondaryListingId};
use crate::marketplace::status::{ListingStatus, status_at, advance_status};

verus! {

broadcast use vstd::string::to_string_from_display_ensures_for_str;

/// What listing a token for resale does: the checks of
/// [`secondary_add_outcome`], then the charge of the listing's storage
/// (`storage_bytes`) to the owner's deposit, and the new listing.
pub open spec fn secondary_add_effect(
    old_c: MarketplaceContract,
    new_c: MarketplaceContract,
    r: Result<(), MarketError>,
    ctx: CallContext,
    owner: Seq<char>,
    nft_contract: Seq<char>,
    approval_id: u64,
    token: Seq<char>,
    nft_metadata: NftMetadata,
    price: Option<u128>,
    min_bid: Option<u128>,
    start: Option<Seq<char>>,
    end: Option<Seq<char>>,
    storage_bytes: u64,
) -> bool {
    let outcome = secondary_add_outcome(
        deposit_of(old_c.deposits(), owner),
        ctx.storage_byte_cost,
        nft_metadata,
        price,
        min_bid,
        start,
        end,
        ctx.now(),
    );
    let cost = storage_bytes * ctx.storage_byte_cost;
    let k = (nft_contract, token);
    if outcome is Err {
        r == Err::<(), MarketError>(outcome->Err_0)
    } else if cost > u128::MAX {
        r == Err::<(), MarketError>(MarketError::ArithmeticOverflow)
    } else if !old_c.deposits().contains_key(owner) {
        r == Err::<(), MarketError>(MarketError::SellerDepositMissing)
    } else {
        let cur = old_c.deposits()[owner];
        let updated: u128 = if cur >= cost {
            (cur - cost) as u128
        } else {
            0
        };
        let l = new_c.secondary_listings.by_id@[k];
        &&& r is Ok
        &&& new_c.secondary_listings.by_id@ == old_c.secondary_listings.by_id@.insert(k, l)
        &&& l.id.key_view() == k
        &&& l.seller_id@ == owner
        &&& l.approval_id == approval_id
        &&& l.nft_metadata == nft_metadata
        &&& l.price_yocto == price
        &&& l.min_bid_yocto == min_bid
        &&& l.start_timestamp == outcome->Ok_0.0
        &&& l.end_timestamp == outcome->Ok_0.1
        &&& l.status == ListingStatus::Unstarted
        &&& l.bids@.len() == 0
        &&& l.next_bid_id == 0
        &&& new_c.deposits() == old_c.deposits().insert(owner, updated)
        &&& new_c.primary_listings == old_c.primary_listings
        &&& new_c.owner_id == old_c.owner_id
    }
}

/// Why a token cannot be listed for resale, if it cannot; otherwise the
/// schedule of the listing.
pub open spec fn secondary_add_outcome(
    deposit: u128,
    byte_cost: u128,
    metadata: NftMetadata,
    price: Option<u128>,
    min_bid: Option<u128>,
    start: Option<Seq<char>>,
    end: Option<Seq<char>>,
    now: i64,
) -> Result<(i64, Option<i64>), MarketError> {
    let worst = SECONDARY_LISTING_ADD_STORAGE_MAX * byte_cost;
    let accepting = min_bid is Some;
    if metadata.title is None {
        Err(MarketError::MissingTitle)
    } else if title_and_media_check(metadata.title.unwrap()@, Seq::empty()) == Some(MarketError::TitleTooLong) {
        Err(MarketError::TitleTooLong)
    } else if metadata.media is None {
        Err(MarketError::MissingMedia)
    } else if title_and_media_check(Seq::empty(), metadata.media.unwrap()@) is Some {
        Err(MarketError::InvalidMediaUrl)
    } else if price matches Some(p) && p < MIN_PRICE_YOCTO {
        Err(MarketError::PriceTooLow)
    } else if price matches Some(p) && p % PRICE_STEP_YOCTO != 0 {
        Err(MarketError::PriceNotMultipleOfStep)
    } else if min_bid matches Some(m) && m < MIN_BID_YOCTO {
        Err(MarketError::MinBidTooLow)
    } else if min_bid matches Some(m) && m % BID_STEP_YOCTO != 0 {
        Err(MarketError::MinBidNotMultipleOfStep)
    } else {
        let schedule = listing_schedule(
            start,
            end,
            now,
            true,
            if accepting { Some(SECONDARY_LISTING_MAX_DURATION_NANO) } else { None },
            accepting,
        );
        if schedule is Err {
            schedule
        } else if worst > u128::MAX {
            Err(MarketError::ArithmeticOverflow)
        } else if deposit < worst {
            Err(MarketError::StorageDepositTooLow)
        } else {
            schedule
        }
    }
}

/// A message that an NFT contract passes to the marketplace when an owner
/// approves it to sell a token.
pub struct SecondaryListingNftApprovalMsg {
    pub action: String,
    pub token_metadata: NftMetadata,
    pub buy_now_price_yocto: u128,
    pub min_proposal_price_yocto: Option<u128>,
    pub start_date: Option<String>,
    pub end_date: Option<String>,
}

/// What the completion of a resale needs.
pub struct SecondaryListingBuyCompletion {
    pub nft_contract_id: String,
    pub token_id: String,
    pub seller_id: String,
    pub attached_deposit: u128,
    pub price_yocto: u128,
}

/// A resale transfers the token to the buyer, then the completion pays the
/// seller.
pub struct SecondaryListingBuyRequest {
    pub nft_transfer: NftTransferCall,
    pub completion: SecondaryListingBuyCompletion,
}

/// The listing's status brought up to date at time `now`.
pub open spec fn secondary_status_now(l: SecondaryListing, now: i64) -> ListingStatus {
    status_at(l.status, false, Some(l.start_timestamp), l.end_timestamp, now)
}

/// A resale listing ends at its end date: from then on its status is
/// Ended, whatever it was, so it can no longer be bought.
pub proof fn lemma_resale_ended_after_end(l: SecondaryListing, now: i64)
    requires
        l.end_timestamp matches Some(e) && now >= e,
    ensures
        secondary_status_now(l, now) == ListingStatus::Ended,
{
}

/// A resale listing that has not started yet is not running either, unless
/// it was already found running.
pub proof fn lemma_resale_not_running_before_start(l: SecondaryListing, now: i64)
    requires
        now < l.start_timestamp,
        l.status != ListingStatus::Running,
    ensures
        secondary_status_now(l, now) != ListingStatus::Running,
{
}

impl MarketplaceContract {
    /// Lists a token for resale by `owner_id`: the owner's deposit pays for
    /// the storage of the listing (`listing_storage_bytes`, as the runtime
    /// measured it; a deposit too small is emptied). A listing already
    /// stored for the token is replaced.
    pub fn secondary_listing_add(
        &mut self,
        ctx: &CallContext,
        owner_id: String,
        nft_contract_id: String,
        approval_id: u64,
        token_id: String,
        nft_metadata: NftMetadata,
        price_yocto: Option<u128>,
        min_bid_yocto: Option<u128>,
        start_date: Option<String>,
        end_date: Option<String>,
        listing_storage_bytes: u64,
    ) -> (r: Result<(), MarketError>)
        requires
            old(self).wf(),
            ctx.wf(),
        ensures
            final(self).wf(),
            r is Err ==> *final(self) == *old(self),
            secondary_add_effect(
                *old(self),
                *final(self),
                r,
                *ctx,
                owner_id@,
                nft_contract_id@,
                approval_id,
                token_id@,
                nft_metadata,
                price_yocto,
                min_bid_yocto,
                opt_view(start_date),
                opt_view(end_date),
                listing_storage_bytes,
            ),
    {
        let empty = String::new();
        match &nft_metadata.title {
            None => {
                return Err(MarketError::MissingTitle);
            },
            Some(t) => {
                if check_title_and_media(t, &empty) == Some(MarketError::TitleTooLong) {
                    return Err(MarketError::TitleTooLong);
                }
            },
        }
        match &nft_metadata.media {
            None => {
                return Err(MarketError::MissingMedia);
            },
            Some(m) => {
                if check_title_and_media(&empty, m).is_some() {
                    return Err(MarketError::InvalidMediaUrl);
                }
            },
        }
        if let Some(p) = price_yocto {
            if p < MIN_PRICE_YOCTO {
                return Err(MarketError::PriceTooLow);
            }
            if p % PRICE_STEP_YOCTO != 0 {
                return Err(MarketError::PriceNotMultipleOfStep);
            }
        }
        if let Some(m) = min_bid_yocto {
            if m < MIN_BID_YOCTO {
                return Err(MarketError::MinBidTooLow);
            }
            if m % BID_STEP_YOCTO != 0 {
                return Err(MarketError::MinBidNotMultipleOfStep);
            }
        }
        let accepting = min_bid_yocto.is_some();
        let max_duration = if accepting {
            Some(SECONDARY_LISTING_MAX_DURATION_NANO)
        } else {
            None
        };
        let (start_timestamp, end_timestamp) = match compute_schedule(
            &start_date,
            &end_date,
            ctx.now_nanos(),
            true,
            max_duration,
            accepting,
        ) {
            Ok(s) => s,
            Err(e) => {
                return Err(e);
            },
        };
        let current = self.deposit_or_zero(&owner_id);
        let worst = match (SECONDARY_LISTING_ADD_STORAGE_MAX as u128).checked_mul(ctx.storage_byte_cost) {
            Some(c) => c,
            None => {
                return Err(MarketError::ArithmeticOverflow);
            },
        };
        if current < worst {
            return Err(MarketError::StorageDepositTooLow);
        }
        let cost = match (listing_storage_bytes as u128).checked_mul(ctx.storage_byte_cost) {
            Some(c) => c,
            None => {
                return Err(MarketError::ArithmeticOverflow);
            },
        };
        let cur = match self.storage_deposits.get(&owner_id) {
            Some(d) => *d,
            None => {
                return Err(MarketError::SellerDepositMissing);
            },
        };
        let updated = if cur >= cost {
            cur - cost
        } else {
            0
        };
        let ghost old_self = *self;
        let listing = SecondaryListing {
            id: SecondaryListingId { nft_contract_id, token_id },
            seller_id: owner_id.clone(),
            approval_id,
            nft_metadata,
            price_yocto,
            min_bid_yocto,
            start_timestamp,
            end_timestamp,
            status: ListingStatus::Unstarted,
            bids: Vec::new(),
            next_bid_id: 0,
        };
        let ghost k = listing.listing_key();
        self.secondary_listings.add(listing);
        self.storage_deposits.insert(owner_id, updated);
        proof {
            assert forall|k2: (Seq<char>, Seq<char>)| #[trigger]
                self.secondary_listings.by_id@.contains_key(k2) implies self.secondary_listings.by_id@[k2].wf() by {
                if k2 != k {
                    assert(old_self.secondary_listings.by_id@.contains_key(k2));
                }
            }
        }
        Ok(())
    }

    /// Called by an NFT contract (the predecessor) when the owner (the
    /// signer) approves the marketplace: an `add_listing` message lists the
    /// token at its buy-now price; other actions are ignored. `msg` is
    /// `None` when the message could not be decoded.
    pub fn nft_on_approve(
        &mut self,
        ctx: &CallContext,
        token_id: String,
        owner_id: String,
        approval_id: u64,
        msg: Option<SecondaryListingNftApprovalMsg>,
        listing_storage_bytes: u64,
    ) -> (r: Result<(), MarketError>)
        requires
            old(self).wf(),
            ctx.wf(),
        ensures
            final(self).wf(),
            r is Err ==> *final(self) == *old(self),
            ctx.predecessor_account_id@ == ctx.signer_account_id@ ==> r == Err::<(), MarketError>(
                MarketError::NotCrossContractCall,
            ),
            ctx.predecessor_account_id@ != ctx.signer_account_id@ && owner_id@ != ctx.signer_account_id@
                ==> r == Err::<(), MarketError>(MarketError::OwnerNotSigner),
            ctx.predecessor_account_id@ != ctx.signer_account_id@ && owner_id@ == ctx.signer_account_id@
                ==> match msg {
                None => r == Err::<(), MarketError>(MarketError::MalformedMessage),
                Some(m) => if m.action@ == "add_listing"@ {
                    secondary_add_effect(
                        *old(self),
                        *final(self),
                        r,
                        *ctx,
                        owner_id@,
                        ctx.predecessor_account_id@,
                        approval_id,
                        token_id@,
                        m.token_metadata,
                        Some(m.buy_now_price_yocto),
                        m.min_proposal_price_yocto,
                        opt_view(m.start_date),
                        opt_view(m.end_date),
                        listing_storage_bytes,
                    )
                } else {
                    r is Ok && *final(self) == *old(self)
                },
            },
    {
        if ctx.predecessor_account_id == ctx.signer_account_id {
            return Err(MarketError::NotCrossContractCall);
        }
        if owner_id != ctx.signer_account_id {
            return Err(MarketError::OwnerNotSigner);
        }
        let m = match msg {
            None => {
                return Err(MarketError::MalformedMessage);
            },
            Some(m) => m,
        };
        let add_listing = "add_listing".to_string();
        proof {
            reveal_strlit("add_listing");
        }
        if m.action == add_listing {
            self.secondary_listing_add(
                ctx,
                owner_id,
                ctx.predecessor_account_id.clone(),
                approval_id,
                token_id,
                m.token_metadata,
                Some(m.buy_now_price_yocto),
                m.min_proposal_price_yocto,
                m.start_date,
                m.end_date,
                listing_storage_bytes,
            )
        } else {
            Ok(())
        }
    }

    /// Buys a listed token at its price; the status of the listing is
    /// brought up to date. The attached deposit must also cover the 1 yocto
    /// that `nft_transfer` requires. The request transfers the token.
    pub fn secondary_listing_buy(
        &mut self,
        ctx: &CallContext,
        nft_contract_id: String,
        token_id: String,
    ) -> (r: Result<SecondaryListingBuyRequest, MarketError>)
        requires
            old(self).wf(),
            ctx.wf(),
        ensures
            final(self).wf(),
            r is Err ==> *final(self) == *old(self),
            r is Ok ==> ({
                let l = old(self).secondary_listings.by_id@[(nft_contract_id@, token_id@)];
                &&& old(self).secondary_listings.by_id@.contains_key((nft_contract_id@, token_id@))
                &&& l.end_timestamp matches Some(e) ==> ctx.now() < e
                &&& l.status == ListingStatus::Running || ctx.now() >= l.start_timestamp
                &&& l.price_yocto matches Some(p) && ctx.attached_deposit > p
                &&& ctx.predecessor_account_id@ != l.seller_id@
            }),
            ({
                let k = (nft_contract_id@, token_id@);
                let book = old(self).secondary_listings.by_id@;
                if !book.contains_key(k) {
                    r == Err::<SecondaryListingBuyRequest, MarketError>(MarketError::ListingNotFound)
                } else {
                    let l = book[k];
                    let st = secondary_status_now(l, ctx.now());
                    if l.price_yocto is None {
                        r == Err::<SecondaryListingBuyRequest, MarketError>(MarketError::BuyNowNotPossible)
                    } else if st != ListingStatus::Running {
                        r == Err::<SecondaryListingBuyRequest, MarketError>(MarketError::NotRunning(st))
                    } else if ctx.predecessor_account_id@ == l.seller_id@ {
                        r == Err::<SecondaryListingBuyRequest, MarketError>(MarketError::CannotBuyFromYourself)
                    } else if l.price_yocto.unwrap() == u128::MAX {
                        r == Err::<SecondaryListingBuyRequest, MarketError>(MarketError::ArithmeticOverflow)
                    } else if ctx.attached_deposit < l.price_yocto.unwrap() + 1 {
                        r == Err::<SecondaryListingBuyRequest, MarketError>(MarketError::AttachedDepositTooLow)
                    } else {
                        &&& r matches Ok(req) && {
                            &&& req.nft_transfer.nft_contract_id@ == nft_contract_id@
                            &&& req.nft_transfer.receiver_id@ == ctx.predecessor_account_id@
                            &&& req.nft_transfer.token_id@ == token_id@
                            &&& req.nft_transfer.approval_id == Some(l.approval_id)
                            &&& req.nft_transfer.attached_deposit == 1
                            &&& req.nft_transfer.gas == NFT_TRANSFER_GAS
                            &&& req.completion.nft_contract_id@ == nft_contract_id@
                            &&& req.completion.token_id@ == token_id@
                            &&& req.completion.seller_id@ == l.seller_id@
                            &&& req.completion.attached_deposit == ctx.attached_deposit
                            &&& req.completion.price_yocto == l.price_yocto.unwrap()
                        }
                        &&& final(self).secondary_listings.by_id@ == book.insert(
                            k,
                            SecondaryListing { status: st, ..l },
                        )
                        &&& final(self).secondary_listings.by_id.keys() == old(self).secondary_listings.by_id.keys()
                        &&& final(self).secondary_listings.by_seller_id == old(self).secondary_listings.by_seller_id
                        &&& final(self).primary_listings == old(self).primary_listings
                        &&& final(self).storage_deposits == old(self).storage_deposits
                        &&& final(self).owner_id == old(self).owner_id
                    }
                }
            }),
    {
        let key = SecondaryListingId { nft_contract_id, token_id };
        let now = ctx.now_nanos();
        let err: Option<MarketError> = match self.secondary_listings.get(&key) {
            None => Some(MarketError::ListingNotFound),
            Some(l) => {
                let st = advance_status(l.status, false, Some(l.start_timestamp), l.end_timestamp, now);
                match l.price_yocto {
                    None => Some(MarketError::BuyNowNotPossible),
                    Some(p) => if st != ListingStatus::Running {
                        Some(MarketError::NotRunning(st))
                    } else if ctx.predecessor_account_id == l.seller_id {
                        Some(MarketError::CannotBuyFromYourself)
                    } else if p == u128::MAX {
                        Some(MarketError::ArithmeticOverflow)
                    } else if ctx.attached_deposit < p + 1 {
                        Some(MarketError::AttachedDepositTooLow)
                    } else {
                        None
                    },
                }
            },
        };
        if let Some(e) = err {
            return Err(e);
        }
        let ghost old_self = *self;
        let ghost kv = key.key_view();
        let (i, k, mut l) = match self.secondary_listings.take(&key) {
            Ok(t) => t,
            Err(e) => {
                return Err(e);
            },
        };
        l.update_status(now);
        let price = l.price_yocto.unwrap();
        let request = SecondaryListingBuyRequest {
            nft_transfer: NftTransferCall {
                nft_contract_id: k.nft_contract_id.clone(),
                receiver_id: ctx.predecessor_account_id.clone(),
                token_id: k.token_id.clone(),
                approval_id: Some(l.approval_id),
                attached_deposit: 1,
                gas: NFT_TRANSFER_GAS,
            },
            completion: SecondaryListingBuyCompletion {
                nft_contract_id: k.nft_contract_id.clone(),
                token_id: k.token_id.clone(),
                seller_id: l.seller_id.clone(),
                attached_deposit: ctx.attached_deposit,
                price_yocto: price,
            },
        };
        self.secondary_listings.put_back(i, k, l);
        proof {
            let ob = old_self.secondary_listings.by_id;
            assert(self.secondary_listings.by_id@ =~= ob@.insert(kv, self.secondary_listings.by_id@[kv]));
            assert(self.secondary_listings.by_id.keys() =~= ob.keys());
            assert forall|k2: (Seq<char>, Seq<char>)| #[trigger]
                self.secondary_listings.by_id@.contains_key(k2) implies self.secondary_listings.by_id@[k2].wf() by {
                assert(old_self.secondary_listings.by_id@.contains_key(k2));
            }
        }
        Ok(request)
    }

    /// Completes a resale once the token was transferred: the seller is paid,
    /// the listing leaves the book and its seller's index, and the
    /// storage it freed (`freed_storage_bytes`, measured by the runtime) is
    /// credited to the seller's deposit; the buyer (the signer) gets back
    /// what it attached beyond the price and the 1 yocto of the transfer.
    pub fn nft_transfer_completion(
        &mut self,
        ctx: &CallContext,
        args: SecondaryListingBuyCompletion,
        result: CallResult<()>,
        freed_storage_bytes: u64,
    ) -> (r: Result<Vec<Transfer>, MarketError>)
        requires
            old(self).wf(),
        ensures
            final(self).wf(),
            r is Err ==> *final(self) == *old(self),
            match result {
                CallResult::Successful(_) => {
                    let k = (args.nft_contract_id@, args.token_id@);
                    let book = old(self).secondary_listings.by_id@;
                    let refund = freed_storage_bytes * ctx.storage_byte_cost;
                    let s = args.seller_id@;
                    if !book.contains_key(k) {
                        r == Err::<Vec<Transfer>, MarketError>(MarketError::ListingNotFound)
                    } else if refund > u128::MAX {
                        r == Err::<Vec<Transfer>, MarketError>(MarketError::ArithmeticOverflow)
                    } else if refund > 0 && !old(self).deposits().contains_key(s) {
                        r == Err::<Vec<Transfer>, MarketError>(MarketError::SellerDepositMissing)
                    } else if refund > 0 && old(self).deposits()[s] + refund > u128::MAX {
                        r == Err::<Vec<Transfer>, MarketError>(MarketError::ArithmeticOverflow)
                    } else if args.price_yocto == u128::MAX {
                        r == Err::<Vec<Transfer>, MarketError>(MarketError::ArithmeticOverflow)
                    } else {
                        &&& r matches Ok(ts) && {
                            &&& ts@.len() >= 1
                            &&& ts@[0].receiver_id@ == s
                            &&& ts@[0].amount_yocto == args.price_yocto
                            &&& args.attached_deposit > args.price_yocto + 1 ==> ts@.len() == 2
                                && ts@[1].receiver_id@ == ctx.signer_account_id@ && ts@[1].amount_yocto
                                == args.attached_deposit - (args.price_yocto + 1)
                            &&& args.attached_deposit <= args.price_yocto + 1 ==> ts@.len() == 1
                        }
                        &&& ListingBook::key_removed(old(self).secondary_listings, final(self).secondary_listings, k)
                        &&& refund > 0 ==> final(self).deposits() == old(self).deposits().insert(
                            s,
                            (old(self).deposits()[s] + refund) as u128,
                        )
                        &&& refund == 0 ==> final(self).deposits() == old(self).deposits()
                        &&& final(self).primary_listings == old(self).primary_listings
                        &&& final(self).owner_id == old(self).owner_id
                    }
                },
                _ => r == Err::<Vec<Transfer>, MarketError>(MarketError::NftCallFailed),
            },
    {
        match result {
            CallResult::Successful(_) => {},
            _ => {
                return Err(MarketError::NftCallFailed);
            },
        }
        let key = SecondaryListingId { nft_contract_id: args.nft_contract_id, token_id: args.token_id };
        if self.secondary_listings.get(&key).is_none() {
            return Err(MarketError::ListingNotFound);
        }
        let refund = match (freed_storage_bytes as u128).checked_mul(ctx.storage_byte_cost) {
            Some(c) => c,
            None => {
                return Err(MarketError::ArithmeticOverflow);
            },
        };
        let mut updated: Option<u128> = None;
        if refund > 0 {
            let cur = match self.storage_deposits.get(&args.seller_id) {
                Some(d) => *d,
                None => {
                    return Err(MarketError::SellerDepositMissing);
                },
            };
            updated = match cur.checked_add(refund) {
                Some(u) => Some(u),
                None => {
                    return Err(MarketError::ArithmeticOverflow);
                },
            };
        }
        if args.price_yocto == u128::MAX {
            return Err(MarketError::ArithmeticOverflow);
        }
        let required = args.price_yocto + 1;
        let ghost old_self = *self;
        let removed = self.secondary_listings.remove(&key);
        if let Some(u) = updated {
            self.storage_deposits.insert(args.seller_id.clone(), u);
        }
        let mut ts: Vec<Transfer> = Vec::new();
        ts.push(Transfer { receiver_id: args.seller_id, amount_yocto: args.price_yocto });
        if args.attached_deposit > required {
            ts.push(Transfer { receiver_id: ctx.signer_account_id.clone(), amount_yocto: args.attached_deposit - required });
        }
        proof {
            assert forall|k2: (Seq<char>, Seq<char>)| #[trigger]
                self.secondary_listings.by_id@.contains_key(k2) implies self.secondary_listings.by_id@[k2].wf() by {
                assert(old_self.secondary_listings.by_id@.contains_key(k2));
            }
        }
        Ok(ts)
    }

    /// Ends the listing of a token. The caller must be `owner_id`; the
    /// storage the listing freed (`freed_storage_bytes`, measured by the
    /// runtime) is credited to the deposit of the listing's seller.
    pub fn secondary_listing_conclude(
        &mut self,
        ctx: &CallContext,
        owner_id: String,
        nft_contract_id: String,
        token_id: String,
        freed_storage_bytes: u64,
    ) -> (r: Result<(), MarketError>)
        requires
            old(self).wf(),
        ensures
            final(self).wf(),
            r is Err ==> *final(self) == *old(self),
            ({
                let k = (nft_contract_id@, token_id@);
                let book = old(self).secondary_listings.by_id@;
                let refund = freed_storage_bytes * ctx.storage_byte_cost;
                if ctx.predecessor_account_id@ != owner_id@ {
                    r == Err::<(), MarketError>(MarketError::NotSeller)
                } else if !book.contains_key(k) {
                    r == Err::<(), MarketError>(MarketError::ListingNotFound)
                } else if !old(self).deposits().contains_key(book[k].seller_id@) {
                    r == Err::<(), MarketError>(MarketError::SellerDepositMissing)
                } else if refund > u128::MAX || old(self).deposits()[book[k].seller_id@] + refund > u128::MAX {
                    r == Err::<(), MarketError>(MarketError::ArithmeticOverflow)
                } else {
                    &&& r is Ok
                    &&& ListingBook::key_removed(old(self).secondary_listings, final(self).secondary_listings, k)
                    &&& final(self).deposits() == old(self).deposits().insert(
                        book[k].seller_id@,
                        (old(self).deposits()[book[k].seller_id@] + refund) as u128,
                    )
                    &&& final(self).primary_listings == old(self).primary_listings
                    &&& final(self).owner_id == old(self).owner_id
                }
            }),
    {
        if ctx.predecessor_account_id != owner_id {
            return Err(MarketError::NotSeller);
        }
        let key = SecondaryListingId { nft_contract_id, token_id };
        let seller = match self.secondary_listings.get(&key) {
            None => {
                return Err(MarketError::ListingNotFound);
            },
            Some(l) => l.seller_id.clone(),
        };
        let cur = match self.storage_deposits.get(&seller) {
            Some(d) => *d,
            None => {
                return Err(MarketError::SellerDepositMissing);
            },
        };
        let refund = match (freed_storage_bytes as u128).checked_mul(ctx.storage_byte_cost) {
            Some(c) => c,
            None => {
                return Err(MarketError::ArithmeticOverflow);
            },
        };
        let updated = match cur.checked_add(refund) {
            Some(u) => u,
            None => {
                return Err(MarketError::ArithmeticOverflow);
            },
        };
        let ghost old_self = *self;
        let _removed = self.secondary_listings.remove(&key);
        self.storage_deposits.insert(seller, updated);
        proof {
            assert forall|k2: (Seq<char>, Seq<char>)| #[trigger]
                self.secondary_listings.by_id@.contains_key(k2) implies self.secondary_listings.by_id@[k2].wf() by {
                assert(old_self.secondary_listings.by_id@.contains_key(k2));
            }
        }
        Ok(())
    }
}

/// Estimates the storage of minting a token for a buyer.
pub fn nft_mint_storage(title: &str, media_url: &str, receiver_id: &str) -> (n: u64)
    requires
        nft_mint_storage_estimate(1013, title@, media_url@, receiver_id@) <= u64::MAX,
    ensures
        n == nft_mint_storage_estimate(1013, title@, media_url@, receiver_id@),
{
    1013 + text_bytes(title) + text_bytes(media_url) + 2 * text_bytes(receiver_id)
}

} // verus!
