use vstd::prelude::*;
use crate::table::TableKey;
use crate::offer::{sorted_best_first, sort_best_first};
use crate::marketplace::bid::Bid;
use crate::marketplace::constants::{
    NFT_MINT_STORAGE_MAX, NFT_MINT_GAS, BID_STEP_YOCTO, PROPOSAL_REVOKE_FEE_RATE,
};
use crate::context::{CallContext, CallResult, MintCall, Transfer};
use crate::marketplace::contract::{credit_bidders, lemma_credit_bidders_keeps_accounts, MarketplaceContract, deposit_of};
use crate::marketplace::errors::MarketError;
use crate::marketplace::primary::{PrimaryListing, PrimaryListingId, acceptable_bid, lemma_acceptable_bid_reaches_minimum};
use crate::marketplace::refunds::{refunds_for, refund_bids};
use crate::marketplace::schedule::{sub_account, text_bytes};
use crate::marketplace::primary_seller::nft_mint_storage_estimate;
use crate::marketplace::status::{ListingStatus, status_at, advance_status};

verus! {

broadcast use vstd::seq_lib::group_to_multiset_ensures;

/// What the completion of a purchase needs: who is paid what, and for which
/// listing.
pub struct PrimaryListingBuyCompletion {
    pub seller_id: String,
    pub attached_deposit: u128,
    pub price_yocto: u128,
    pub listing_id: PrimaryListingId,
}

/// A purchase mints a token for the buyer, then the completion pays the seller.
pub struct PrimaryListingBuyRequest {
    pub mint: MintCall,
    pub completion: PrimaryListingBuyCompletion,
}

/// The position of the first standing bid with id `id`.
pub open spec fn first_bid_index(bids: Seq<Bid>, id: u64) -> int {
    choose|i: int| 0 <= i < bids.len() && bids[i].id == id && forall|j: int| 0 <= j < i ==> #[trigger] bids[j].id != id
}

pub open spec fn has_bid(bids: Seq<Bid>, id: u64) -> bool {
    exists|i: int| 0 <= i < bids.len() && #[trigger] bids[i].id == id
}

/// The outcome of a purchase completed by the NFT contract: the token
/// minted, the buyer's remaining deposit, the transfers it initiates (the
/// payment of the seller, then the refunds of the bids the smaller supply
/// pushed out) and those bids.
pub struct PrimaryPurchaseOutcome {
    pub token_id: String,
    pub buyer_deposit: u128,
    pub transfers: Vec<Transfer>,
    pub released: Vec<Bid>,
}

/// The bids a listing keeps, and those it releases worst first, once no more
/// than `supply` of them may stand.
pub open spec fn bids_within_supply(bids: Seq<Bid>, supply: u64, kept: Seq<Bid>, released: Seq<Bid>) -> bool {
    if bids.len() <= supply {
        kept == bids && released.len() == 0
    } else {
        kept == bids.take(supply as int) && released == bids.skip(supply as int).reverse()
    }
}

/// The listing's status brought up to date at time `now`.
pub open spec fn primary_status_now(l: PrimaryListing, now: i64) -> ListingStatus {
    status_at(l.status, l.supply_left == 0, Some(l.start_timestamp), l.end_timestamp, now)
}

/// Why a purchase at the buy-now price is refused, if it is.
pub open spec fn buy_error(l: PrimaryListing, ctx: CallContext, deposit: u128) -> Option<MarketError> {
    let st = primary_status_now(l, ctx.now());
    let worst = NFT_MINT_STORAGE_MAX * ctx.storage_byte_cost;
    if l.price_yocto is None {
        Some(MarketError::BuyNowNotPossible)
    } else if st != ListingStatus::Running {
        Some(MarketError::NotRunning(st))
    } else if ctx.predecessor_account_id@ == l.seller_id@ {
        Some(MarketError::CannotBuyFromYourself)
    } else if l.supply_left == 0 {
        Some(MarketError::NoSupplyLeft)
    } else if ctx.attached_deposit < l.price_yocto.unwrap() {
        Some(MarketError::AttachedDepositTooLow)
    } else if worst > u128::MAX {
        Some(MarketError::ArithmeticOverflow)
    } else if deposit < worst {
        Some(MarketError::StorageDepositTooLow)
    } else {
        None
    }
}

/// A primary listing ends at its end date or when its last token is sold:
/// from then on its status is Ended.
pub proof fn lemma_primary_ended_after_end_or_sold_out(l: PrimaryListing, now: i64)
    requires
        l.supply_left == 0 || (l.end_timestamp matches Some(e) && now >= e),
    ensures
        primary_status_now(l, now) == ListingStatus::Ended,
{
}

/// A purchase at the buy-now price is taken only from a buyer other than
/// the seller who attaches at least the price, while a token is left and
/// before the end date, and when the buyer's deposit covers the worst-case
/// storage of the token.
pub proof fn lemma_accepted_purchase_pays_price(l: PrimaryListing, ctx: CallContext, deposit: u128)
    requires
        buy_error(l, ctx, deposit) is None,
    ensures
        l.price_yocto matches Some(p) && ctx.attached_deposit >= p,
        ctx.predecessor_account_id@ != l.seller_id@,
        l.supply_left > 0,
        l.end_timestamp matches Some(e) ==> ctx.now() < e,
        l.status == ListingStatus::Running || ctx.now() >= l.start_timestamp,
        deposit >= NFT_MINT_STORAGE_MAX * ctx.storage_byte_cost,
{
}

/// A bid is taken only from a bidder other than the seller who attaches at
/// least the bid, below the buy-now price, from the minimum bid on, and,
/// once every token left has a bid, above the worst standing bid by at
/// least a step; a token must be left and the end date not reached.
pub proof fn lemma_accepted_bid_outbids_worst(l: PrimaryListing, ctx: CallContext, amount: u128)
    requires
        l.wf(),
        bid_error(l, ctx, amount) is None,
    ensures
        ctx.attached_deposit >= amount,
        ctx.predecessor_account_id@ != l.seller_id@,
        l.price_yocto matches Some(p) ==> amount < p,
        l.min_bid_yocto matches Some(m) && amount >= m,
        l.bids@.len() >= l.supply_left ==> l.bids@.len() > 0 && amount >= l.bids@.last().amount_yocto + BID_STEP_YOCTO,
        l.supply_left > 0,
        l.end_timestamp matches Some(e) ==> ctx.now() < e,
{
    lemma_acceptable_bid_reaches_minimum(l.min_bid_yocto, l.bids@, l.supply_left);
}

/// Why a bid is refused, if it is.
pub open spec fn bid_error(l: PrimaryListing, ctx: CallContext, amount: u128) -> Option<MarketError> {
    let st = primary_status_now(l, ctx.now());
    if st != ListingStatus::Running {
        Some(MarketError::NotRunning(st))
    } else if ctx.predecessor_account_id@ == l.seller_id@ {
        Some(MarketError::CannotBidOnOwnListing)
    } else if l.min_bid_yocto is None {
        Some(MarketError::BidsNotAccepted)
    } else if l.supply_left == 0 {
        Some(MarketError::NoSupplyLeft)
    } else if l.price_yocto matches Some(p) && amount >= p {
        Some(MarketError::BidNotBelowPrice)
    } else if amount % BID_STEP_YOCTO != 0 {
        Some(MarketError::BidNotMultipleOfStep)
    } else if acceptable_bid(l.min_bid_yocto, l.bids@, l.supply_left) is Err {
        Some(acceptable_bid(l.min_bid_yocto, l.bids@, l.supply_left)->Err_0)
    } else if amount < acceptable_bid(l.min_bid_yocto, l.bids@, l.supply_left)->Ok_0 {
        Some(MarketError::BidTooLow)
    } else if ctx.attached_deposit < amount {
        Some(MarketError::AttachedDepositTooLow)
    } else if l.next_bid_id == u64::MAX {
        Some(MarketError::ArithmeticOverflow)
    } else {
        None
    }
}

/// The outcome of a bid: its id, the transfers it initiates (the surplus of
/// the attached deposit, if any, then the refunds of the bids it pushed out)
/// and the bids it pushed out.
pub struct PlaceBidOutcome {
    pub bid_id: u64,
    pub transfers: Vec<Transfer>,
    pub released: Vec<Bid>,
}

/// The listing after a bid: the bids are sorted best first and only as many
/// stay as tokens are left; `released` are the others, worst first.
pub open spec fn bids_after_insert(old_bids: Seq<Bid>, new_bid: Bid, supply_left: u64, kept: Seq<Bid>, released: Seq<Bid>) -> bool {
    let all = kept + released.reverse();
    &&& sorted_best_first(all)
    &&& all.to_multiset() == old_bids.push(new_bid).to_multiset()
    &&& kept.len() == if old_bids.len() + 1 <= supply_left { old_bids.len() + 1 } else { supply_left as nat }
}

/// A bid that a listing accepts never lowers the bid that the next one must
/// reach: once the bids are sorted and cut to the supply left, the
/// acceptable bid is at least what it was before.
pub proof fn lemma_acceptable_bid_never_drops(l: PrimaryListing, nb: Bid, kept: Seq<Bid>, released: Seq<Bid>)
    requires
        l.wf(),
        acceptable_bid(l.min_bid_yocto, l.bids@, l.supply_left) is Ok,
        nb.amount_yocto >= acceptable_bid(l.min_bid_yocto, l.bids@, l.supply_left)->Ok_0,
        bids_after_insert(l.bids@, nb, l.supply_left, kept, released),
    ensures
        acceptable_bid(l.min_bid_yocto, kept, l.supply_left) matches Ok(b) ==> b >= acceptable_bid(
            l.min_bid_yocto,
            l.bids@,
            l.supply_left,
        )->Ok_0,
{
    let old_bids = l.bids@;
    let s = l.supply_left;
    let n = old_bids.len();
    let m = l.min_bid_yocto->Some_0;
    let a = acceptable_bid(l.min_bid_yocto, old_bids, s)->Ok_0;
    let all = kept + released.reverse();
    let pushed = old_bids.push(nb);
    let lower: int = if n < s { m as int } else { old_bids[n - 1].amount_yocto as int };
    if kept.len() >= s && kept.len() > 0 {
        let x = all[kept.len() - 1];
        assert(x == kept[kept.len() - 1]);
        assert(all.contains(x));
        assert(pushed.to_multiset().count(x) > 0);
        assert(pushed.contains(x));
        let j = choose|j: int| 0 <= j < pushed.len() && pushed[j] == x;
        if j < n {
            assert(old_bids[j] == x);
            if n < s {
                assert(x.amount_yocto >= m);
            } else if j < n - 1 {
                assert(crate::offer::best_first(old_bids[j], old_bids[n - 1]));
            }
        }
        assert(x.amount_yocto >= lower);
    }
}

impl MarketplaceContract {
    /// Buys one token at the buy-now price; the status of the listing is
    /// brought up to date. The request mints the token for the buyer.
    pub fn primary_listing_buy(
        &mut self,
        ctx: &CallContext,
        nft_contract_id: String,
        collection_id: u64,
    ) -> (r: Result<PrimaryListingBuyRequest, MarketError>)
        requires
            old(self).wf(),
            ctx.wf(),
        ensures
            final(self).wf(),
            r is Err ==> *final(self) == *old(self),
            r is Ok ==> ({
                let l = old(self).primary_listings.by_id@[(nft_contract_id@, collection_id)];
                &&& old(self).primary_listings.by_id@.contains_key((nft_contract_id@, collection_id))
                &&& l.price_yocto matches Some(p) && ctx.attached_deposit >= p
                &&& ctx.predecessor_account_id@ != l.seller_id@
                &&& l.supply_left > 0
                &&& l.end_timestamp matches Some(e) ==> ctx.now() < e
            }),
            ({
                let k = (nft_contract_id@, collection_id);
                let book = old(self).primary_listings.by_id@;
                if !book.contains_key(k) {
                    r == Err::<PrimaryListingBuyRequest, MarketError>(MarketError::ListingNotFound)
                } else {
                    let l = book[k];
                    let e = buy_error(l, *ctx, deposit_of(old(self).deposits(), ctx.predecessor_account_id@));
                    if e is Some {
                        r == Err::<PrimaryListingBuyRequest, MarketError>(e.unwrap())
                    } else {
                        &&& r matches Ok(req) && {
                            &&& req.mint.nft_contract_id@ == nft_contract_id@
                            &&& req.mint.collection_id == collection_id
                            &&& req.mint.receiver_id@ == ctx.predecessor_account_id@
                            &&& req.mint.attached_deposit == NFT_MINT_STORAGE_MAX * ctx.storage_byte_cost
                            &&& req.mint.gas == NFT_MINT_GAS
                            &&& req.completion.seller_id@ == l.seller_id@
                            &&& req.completion.attached_deposit == ctx.attached_deposit
                            &&& req.completion.price_yocto == l.price_yocto.unwrap()
                            &&& req.completion.listing_id.key_view() == k
                        }
                        &&& final(self).primary_listings.by_id@ == book.insert(
                            k,
                            PrimaryListing { status: primary_status_now(l, ctx.now()), ..l },
                        )
                        &&& final(self).primary_listings.by_id.keys() == old(self).primary_listings.by_id.keys()
                        &&& final(self).primary_listings.by_seller_id == old(self).primary_listings.by_seller_id
                        &&& final(self).secondary_listings == old(self).secondary_listings
                        &&& final(self).storage_deposits == old(self).storage_deposits
                        &&& final(self).owner_id == old(self).owner_id
                    }
                }
            }),
    {
        let key = PrimaryListingId { nft_contract_id, collection_id };
        let now = ctx.now_nanos();
        let deposit = self.deposit_or_zero(&ctx.predecessor_account_id);
        let err: Option<MarketError> = match self.primary_listings.get(&key) {
            None => Some(MarketError::ListingNotFound),
            Some(l) => {
                let st = advance_status(l.status, l.supply_left == 0, Some(l.start_timestamp), l.end_timestamp, now);
                if l.price_yocto.is_none() {
                    Some(MarketError::BuyNowNotPossible)
                } else if st != ListingStatus::Running {
                    Some(MarketError::NotRunning(st))
                } else if ctx.predecessor_account_id == l.seller_id {
                    Some(MarketError::CannotBuyFromYourself)
                } else if l.supply_left == 0 {
                    Some(MarketError::NoSupplyLeft)
                } else if ctx.attached_deposit < l.price_yocto.unwrap() {
                    Some(MarketError::AttachedDepositTooLow)
                } else {
                    match (NFT_MINT_STORAGE_MAX as u128).checked_mul(ctx.storage_byte_cost) {
                        None => Some(MarketError::ArithmeticOverflow),
                        Some(worst) => if deposit < worst {
                            Some(MarketError::StorageDepositTooLow)
                        } else {
                            None
                        },
                    }
                }
            },
        };
        if let Some(e) = err {
            return Err(e);
        }
        let ghost old_self = *self;
        let ghost kv = key.key_view();
        let (i, k, mut l) = match self.primary_listings.take(&key) {
            Ok(t) => t,
            Err(e) => {
                return Err(e);
            },
        };
        l.update_status(now);
        let price = l.price_yocto.unwrap();
        let seller = l.seller_id.clone();
        let listing_id = k.key_clone();
        let nft = k.nft_contract_id.clone();
        let worst = (NFT_MINT_STORAGE_MAX as u128) * ctx.storage_byte_cost;
        self.primary_listings.put_back(i, k, l);
        proof {
            let ob = old_self.primary_listings.by_id;
            assert(self.primary_listings.by_id@ =~= ob@.insert(kv, self.primary_listings.by_id@[kv]));
            assert(self.primary_listings.by_id.keys() =~= ob.keys());
            assert forall|k2: (Seq<char>, u64)| #[trigger]
                self.primary_listings.by_id@.contains_key(k2) implies self.primary_listings.by_id@[k2].wf() by {
                assert(old_self.primary_listings.by_id@.contains_key(k2));
            }
        }
        Ok(PrimaryListingBuyRequest {
            mint: MintCall {
                nft_contract_id: nft,
                collection_id,
                receiver_id: ctx.predecessor_account_id.clone(),
                attached_deposit: worst,
                gas: NFT_MINT_GAS,
            },
            completion: PrimaryListingBuyCompletion {
                seller_id: seller,
                attached_deposit: ctx.attached_deposit,
                price_yocto: price,
                listing_id,
            },
        })
    }

    /// Completes a purchase once the NFT contract minted the token: pays the
    /// seller, takes one token off the supply left (releasing the bids that
    /// no longer fit, each of whose bidders with a deposit record is credited
    /// the storage its bid freed, `bid_storage_bytes` as measured by the
    /// runtime) and then charges the buyer's (the signer's) deposit with the
    /// storage of the token; a deposit too small is emptied.
    pub fn primary_listing_buy_now_mint_completion(
        &mut self,
        ctx: &CallContext,
        args: PrimaryListingBuyCompletion,
        result: CallResult<(String, u64)>,
        bid_storage_bytes: u64,
    ) -> (r: Result<PrimaryPurchaseOutcome, MarketError>)
        requires
            old(self).wf(),
        ensures
            final(self).wf(),
            r is Err ==> *final(self) == *old(self),
            match result {
                CallResult::NotReady => r == Err::<PrimaryPurchaseOutcome, MarketError>(MarketError::NftCallFailed),
                CallResult::Failed => r == Err::<PrimaryPurchaseOutcome, MarketError>(MarketError::NftCallFailed),
                CallResult::Successful(v) => {
                    let k = args.listing_id.key_view();
                    let book = old(self).primary_listings.by_id@;
                    let buyer = ctx.signer_account_id@;
                    if !book.contains_key(k) {
                        r == Err::<PrimaryPurchaseOutcome, MarketError>(MarketError::ListingNotFound)
                    } else if book[k].supply_left == 0 {
                        r == Err::<PrimaryPurchaseOutcome, MarketError>(MarketError::ArithmeticOverflow)
                    } else if v is None {
                        r == Err::<PrimaryPurchaseOutcome, MarketError>(MarketError::UnexpectedNftResult)
                    } else if v.unwrap().1 * ctx.storage_byte_cost > u128::MAX
                        || bid_storage_bytes * ctx.storage_byte_cost > u128::MAX {
                        r == Err::<PrimaryPurchaseOutcome, MarketError>(MarketError::ArithmeticOverflow)
                    } else if !old(self).deposits().contains_key(buyer) {
                        r == Err::<PrimaryPurchaseOutcome, MarketError>(MarketError::BuyerDepositMissing)
                    } else {
                        let l = book[k];
                        let cost = v.unwrap().1 * ctx.storage_byte_cost;
                        let bid_cost = (bid_storage_bytes * ctx.storage_byte_cost) as u128;
                        let new_l = final(self).primary_listings.by_id@[k];
                        &&& r matches Ok(out) && {
                            let credited = credit_bidders(old(self).deposits(), out.released@, bid_cost);
                            let cur = credited[buyer];
                            let updated: u128 = if cur >= cost {
                                (cur - cost) as u128
                            } else {
                                0
                            };
                            &&& out.token_id@ == v.unwrap().0@
                            &&& out.buyer_deposit == updated
                            &&& out.transfers@.len() >= 1
                            &&& out.transfers@[0].receiver_id@ == args.seller_id@
                            &&& out.transfers@[0].amount_yocto == args.price_yocto
                            &&& refunds_for(out.transfers@.skip(1), out.released@)
                            &&& bids_within_supply(l.bids@, (l.supply_left - 1) as u64, new_l.bids@, out.released@)
                            &&& final(self).deposits() == credited.insert(buyer, updated)
                        }
                        &&& new_l == (PrimaryListing { supply_left: (l.supply_left - 1) as u64, bids: new_l.bids, ..l })
                        &&& final(self).primary_listings.by_id@ == book.insert(k, new_l)
                        &&& final(self).primary_listings.by_id.keys() == old(self).primary_listings.by_id.keys()
                        &&& final(self).secondary_listings == old(self).secondary_listings
                        &&& final(self).owner_id == old(self).owner_id
                    }
                },
            },
    {
        let v = match result {
            CallResult::NotReady => {
                return Err(MarketError::NftCallFailed);
            },
            CallResult::Failed => {
                return Err(MarketError::NftCallFailed);
            },
            CallResult::Successful(v) => v,
        };
        let key = args.listing_id;
        match self.primary_listings.get(&key) {
            None => {
                return Err(MarketError::ListingNotFound);
            },
            Some(l) => {
                if l.supply_left == 0 {
                    return Err(MarketError::ArithmeticOverflow);
                }
            },
        }
        let (token_id, mint_storage) = match v {
            None => {
                return Err(MarketError::UnexpectedNftResult);
            },
            Some(v) => v,
        };
        let cost = match (mint_storage as u128).checked_mul(ctx.storage_byte_cost) {
            Some(c) => c,
            None => {
                return Err(MarketError::ArithmeticOverflow);
            },
        };
        let bid_cost = match (bid_storage_bytes as u128).checked_mul(ctx.storage_byte_cost) {
            Some(c) => c,
            None => {
                return Err(MarketError::ArithmeticOverflow);
            },
        };
        let buyer = ctx.signer_account_id.clone();
        if self.storage_deposits.get(&buyer).is_none() {
            return Err(MarketError::BuyerDepositMissing);
        }
        let ghost old_self = *self;
        let ghost kv = key.key_view();
        let (i, k, mut l) = match self.primary_listings.take(&key) {
            Ok(t) => t,
            Err(e) => {
                return Err(e);
            },
        };
        let ghost orig = l;
        let mut transfers: Vec<Transfer> = Vec::new();
        transfers.push(Transfer { receiver_id: args.seller_id, amount_yocto: args.price_yocto });
        l.supply_left = l.supply_left - 1;
        let released = l.remove_supply_exceeding_bids();
        let refunds = refund_bids(&released);
        let ghost rf = refunds@;
        let mut refunds = refunds;
        transfers.append(&mut refunds);
        proof {
            assert(transfers@.skip(1) =~= rf);
        }
        self.primary_listings.put_back(i, k, l);
        proof {
            let ob = old_self.primary_listings.by_id;
            assert(self.primary_listings.by_id@ =~= ob@.insert(kv, self.primary_listings.by_id@[kv]));
            assert(self.primary_listings.by_id.keys() =~= ob.keys());
            assert forall|k2: (Seq<char>, u64)| #[trigger]
                self.primary_listings.by_id@.contains_key(k2) implies self.primary_listings.by_id@[k2].wf() by {
                assert(old_self.primary_listings.by_id@.contains_key(k2));
            }
        }
        let ghost mid_self = *self;
        self.credit_released_bidders(&released, bid_cost);
        proof {
            lemma_credit_bidders_keeps_accounts(old_self.deposits(), released@, bid_cost);
            assert forall|k2: (Seq<char>, u64)| #[trigger]
                self.primary_listings.by_id@.contains_key(k2) implies self.primary_listings.by_id@[k2].wf() by {
                assert(mid_self.primary_listings.by_id@.contains_key(k2));
            }
        }
        let current = self.deposit_or_zero(&buyer);
        let updated = if current >= cost {
            current - cost
        } else {
            0
        };
        self.storage_deposits.insert(buyer, updated);
        proof {
            assert forall|k2: (Seq<char>, u64)| #[trigger]
                self.primary_listings.by_id@.contains_key(k2) implies self.primary_listings.by_id@[k2].wf() by {
                assert(mid_self.primary_listings.by_id@.contains_key(k2));
            }
        }
        Ok(PrimaryPurchaseOutcome { token_id, buyer_deposit: updated, transfers, released })
    }

    /// Places a bid of `amount_yocto`; the attached deposit must cover the
    /// bid and the storage it takes (`bid_storage_bytes`, measured by the
    /// runtime), and its surplus is returned. The worst bids that no longer
    /// fit in the supply left are released and refunded, and each of their
    /// bidders that has a deposit record is credited the cost of the storage
    /// its bid freed (a bid's storage being `bid_storage_bytes` too).
    pub fn primary_listing_place_bid(
        &mut self,
        ctx: &CallContext,
        nft_contract_id: String,
        collection_id: u64,
        amount_yocto: u128,
        bid_storage_bytes: u64,
    ) -> (r: Result<PlaceBidOutcome, MarketError>)
        requires
            old(self).wf(),
            ctx.wf(),
        ensures
            final(self).wf(),
            r is Err ==> *final(self) == *old(self),
            r is Ok ==> ({
                let l = old(self).primary_listings.by_id@[(nft_contract_id@, collection_id)];
                &&& old(self).primary_listings.by_id@.contains_key((nft_contract_id@, collection_id))
                &&& ctx.attached_deposit >= amount_yocto + bid_storage_bytes * ctx.storage_byte_cost
                &&& ctx.predecessor_account_id@ != l.seller_id@
                &&& l.price_yocto matches Some(p) ==> amount_yocto < p
                &&& l.end_timestamp matches Some(e) ==> ctx.now() < e
                &&& l.bids@.len() >= l.supply_left ==> l.bids@.len() > 0 && amount_yocto >= l.bids@.last().amount_yocto
                    + BID_STEP_YOCTO
            }),
            ({
                let k = (nft_contract_id@, collection_id);
                let book = old(self).primary_listings.by_id@;
                if !book.contains_key(k) {
                    r == Err::<PlaceBidOutcome, MarketError>(MarketError::ListingNotFound)
                } else {
                    let l = book[k];
                    let e = bid_error(l, *ctx, amount_yocto);
                    let cost = bid_storage_bytes * ctx.storage_byte_cost;
                    if e is Some {
                        r == Err::<PlaceBidOutcome, MarketError>(e.unwrap())
                    } else if cost > u128::MAX || amount_yocto + cost > u128::MAX {
                        r == Err::<PlaceBidOutcome, MarketError>(MarketError::ArithmeticOverflow)
                    } else if ctx.attached_deposit < amount_yocto + cost {
                        r == Err::<PlaceBidOutcome, MarketError>(MarketError::StorageNotCovered)
                    } else {
                        let nb = Bid { id: l.next_bid_id, bidder_id: ctx.predecessor_account_id, amount_yocto };
                        let surplus = ctx.attached_deposit - (amount_yocto + cost);
                        let new_l = final(self).primary_listings.by_id@[k];
                        &&& r matches Ok(out) && {
                            &&& out.bid_id == l.next_bid_id
                            &&& bids_after_insert(l.bids@, nb, l.supply_left, new_l.bids@, out.released@)
                            &&& surplus > 0 ==> {
                                &&& out.transfers@.len() >= 1
                                &&& out.transfers@[0].receiver_id@ == ctx.predecessor_account_id@
                                &&& out.transfers@[0].amount_yocto == surplus
                                &&& refunds_for(out.transfers@.skip(1), out.released@)
                            }
                            &&& surplus == 0 ==> refunds_for(out.transfers@, out.released@)
                        }
                        &&& new_l == (PrimaryListing {
                            status: primary_status_now(l, ctx.now()),
                            next_bid_id: (l.next_bid_id + 1) as u64,
                            bids: new_l.bids,
                            ..l
                        })
                        &&& final(self).primary_listings.by_id@ == book.insert(k, new_l)
                        &&& final(self).primary_listings.by_id.keys() == old(self).primary_listings.by_id.keys()
                        &&& final(self).primary_listings.by_seller_id == old(self).primary_listings.by_seller_id
                        &&& final(self).secondary_listings == old(self).secondary_listings
                        &&& r matches Ok(out) && final(self).deposits() == credit_bidders(old(self).deposits(), out.released@, cost as u128)
                        &&& final(self).owner_id == old(self).owner_id
                    }
                }
            }),
    {
        let key = PrimaryListingId { nft_contract_id, collection_id };
        let now = ctx.now_nanos();
        let err: Option<MarketError> = match self.primary_listings.get(&key) {
            None => Some(MarketError::ListingNotFound),
            Some(l) => {
                let st = advance_status(l.status, l.supply_left == 0, Some(l.start_timestamp), l.end_timestamp, now);
                if st != ListingStatus::Running {
                    Some(MarketError::NotRunning(st))
                } else if ctx.predecessor_account_id == l.seller_id {
                    Some(MarketError::CannotBidOnOwnListing)
                } else if l.min_bid_yocto.is_none() {
                    Some(MarketError::BidsNotAccepted)
                } else if l.supply_left == 0 {
                    Some(MarketError::NoSupplyLeft)
                } else if l.price_yocto.is_some() && amount_yocto >= l.price_yocto.unwrap() {
                    Some(MarketError::BidNotBelowPrice)
                } else if amount_yocto % BID_STEP_YOCTO != 0 {
                    Some(MarketError::BidNotMultipleOfStep)
                } else {
                    match l.acceptable_bid_yocto() {
                        Err(e) => Some(e),
                        Ok(a) => if amount_yocto < a {
                            Some(MarketError::BidTooLow)
                        } else if ctx.attached_deposit < amount_yocto {
                            Some(MarketError::AttachedDepositTooLow)
                        } else if l.next_bid_id == u64::MAX {
                            Some(MarketError::ArithmeticOverflow)
                        } else {
                            None
                        },
                    }
                }
            },
        };
        if let Some(e) = err {
            return Err(e);
        }
        let cost = match (bid_storage_bytes as u128).checked_mul(ctx.storage_byte_cost) {
            Some(c) => c,
            None => {
                return Err(MarketError::ArithmeticOverflow);
            },
        };
        let required = match amount_yocto.checked_add(cost) {
            Some(c) => c,
            None => {
                return Err(MarketError::ArithmeticOverflow);
            },
        };
        if ctx.attached_deposit < required {
            return Err(MarketError::StorageNotCovered);
        }
        let surplus = ctx.attached_deposit - required;
        let ghost old_self = *self;
        let ghost kv = key.key_view();
        let (i, k, mut l) = match self.primary_listings.take(&key) {
            Ok(t) => t,
            Err(e) => {
                return Err(e);
            },
        };
        let ghost orig = l;
        l.update_status(now);
        let bid_id = l.next_bid_id;
        l.next_bid_id = l.next_bid_id + 1;
        let new_bid = Bid { id: bid_id, bidder_id: ctx.predecessor_account_id.clone(), amount_yocto };
        let ghost nb = new_bid;
        l.bids.push(new_bid);
        let ghost pushed = l.bids@;
        l.sort_bids();
        let ghost sorted = l.bids@;
        let released = l.remove_supply_exceeding_bids();
        let mut transfers: Vec<Transfer> = Vec::new();
        if surplus > 0 {
            transfers.push(Transfer { receiver_id: ctx.predecessor_account_id.clone(), amount_yocto: surplus });
        }
        let ghost t0 = transfers@;
        let mut refunds = refund_bids(&released);
        let ghost rf = refunds@;
        transfers.append(&mut refunds);
        proof {
            assert(pushed == orig.bids@.push(nb));
            assert(sorted.len() == sorted.to_multiset().len());
            assert(pushed.len() == pushed.to_multiset().len());
            assert(sorted.len() == orig.bids@.len() + 1);
            if surplus > 0 {
                assert(transfers@.skip(1) =~= rf);
            } else {
                assert(transfers@ =~= rf);
            }
            let kept = l.bids@;
            if sorted.len() <= orig.supply_left {
                assert(kept + released@.reverse() =~= sorted);
            } else {
                assert(kept + released@.reverse() =~= sorted) by {
                    assert(released@.reverse() =~= sorted.skip(orig.supply_left as int).reverse().reverse());
                }
            }
            assert forall|j: int| 0 <= j < l.bids@.len() implies #[trigger] l.bids@[j].id < l.next_bid_id by {
                let x = l.bids@[j];
                assert(sorted[j] == x);
                assert(sorted.contains(x));
                assert(pushed.to_multiset().count(x) > 0);
                assert(pushed.contains(x));
                let m = choose|m: int| 0 <= m < pushed.len() && pushed[m] == x;
                if m < orig.bids@.len() {
                    assert(orig.bids@[m] == x);
                }
            }
            if let Some(mb) = l.min_bid_yocto {
                lemma_acceptable_bid_reaches_minimum(orig.min_bid_yocto, orig.bids@, orig.supply_left);
                assert forall|j: int| 0 <= j < l.bids@.len() implies #[trigger] l.bids@[j].amount_yocto >= mb by {
                    let x = l.bids@[j];
                    assert(sorted[j] == x);
                    assert(sorted.contains(x));
                    assert(pushed.to_multiset().count(x) > 0);
                    assert(pushed.contains(x));
                    let m = choose|m: int| 0 <= m < pushed.len() && pushed[m] == x;
                    if m < orig.bids@.len() {
                        assert(orig.bids@[m] == x);
                    }
                }
            }
        }
        self.primary_listings.put_back(i, k, l);
        proof {
            let ob = old_self.primary_listings.by_id;
            assert(self.primary_listings.by_id@ =~= ob@.insert(kv, self.primary_listings.by_id@[kv]));
            assert(self.primary_listings.by_id.keys() =~= ob.keys());
            assert forall|k2: (Seq<char>, u64)| #[trigger]
                self.primary_listings.by_id@.contains_key(k2) implies self.primary_listings.by_id@[k2].wf() by {
                if k2 != kv {
                    assert(old_self.primary_listings.by_id@.contains_key(k2));
                }
            }
        }
        let ghost mid_self = *self;
        self.credit_released_bidders(&released, cost);
        proof {
            assert forall|k2: (Seq<char>, u64)| #[trigger]
                self.primary_listings.by_id@.contains_key(k2) implies self.primary_listings.by_id@[k2].wf() by {
                assert(mid_self.primary_listings.by_id@.contains_key(k2));
            }
        }
        Ok(PlaceBidOutcome { bid_id, transfers, released })
    }

    /// Revokes the caller's bid `bid_id` while the listing runs: the deposit
    /// comes back, plus the storage the bid freed (`freed_storage_bytes`,
    /// measured by the runtime), minus a fee of [`PROPOSAL_REVOKE_FEE_RATE`]
    /// percent, which goes to the fee account `fees.<marketplace>`.
    pub fn primary_listing_revoke_bid(
        &mut self,
        ctx: &CallContext,
        nft_contract_id: String,
        collection_id: u64,
        bid_id: u64,
        freed_storage_bytes: u64,
    ) -> (r: Result<(Transfer, Transfer), MarketError>)
        requires
            old(self).wf(),
            ctx.wf(),
        ensures
            final(self).wf(),
            r is Err ==> *final(self) == *old(self),
            ({
                let k = (nft_contract_id@, collection_id);
                let book = old(self).primary_listings.by_id@;
                if !book.contains_key(k) {
                    r == Err::<(Transfer, Transfer), MarketError>(MarketError::ListingNotFound)
                } else {
                    let l = book[k];
                    let st = primary_status_now(l, ctx.now());
                    let i = first_bid_index(l.bids@, bid_id);
                    let b = l.bids@[i];
                    let storage_refund = freed_storage_bytes * ctx.storage_byte_cost;
                    let fee = b.amount_yocto * PROPOSAL_REVOKE_FEE_RATE / 100;
                    if st != ListingStatus::Running {
                        r == Err::<(Transfer, Transfer), MarketError>(MarketError::NotRunning(st))
                    } else if l.min_bid_yocto is None {
                        r == Err::<(Transfer, Transfer), MarketError>(MarketError::BidsNotAccepted)
                    } else if !has_bid(l.bids@, bid_id) {
                        r == Err::<(Transfer, Transfer), MarketError>(MarketError::BidNotFound)
                    } else if b.bidder_id@ != ctx.predecessor_account_id@ {
                        r == Err::<(Transfer, Transfer), MarketError>(MarketError::NotBidder)
                    } else if storage_refund > u128::MAX || b.amount_yocto * PROPOSAL_REVOKE_FEE_RATE > u128::MAX
                        || b.amount_yocto + storage_refund > u128::MAX {
                        r == Err::<(Transfer, Transfer), MarketError>(MarketError::ArithmeticOverflow)
                    } else {
                        let new_l = final(self).primary_listings.by_id@[k];
                        &&& r matches Ok((back, kept)) && {
                            &&& back.receiver_id@ == ctx.predecessor_account_id@
                            &&& back.amount_yocto == b.amount_yocto + storage_refund - fee
                            &&& kept.receiver_id@ == "fees."@ + ctx.current_account_id@
                            &&& kept.amount_yocto == fee
                        }
                        &&& sorted_best_first(new_l.bids@)
                        &&& new_l.bids@.to_multiset() == l.bids@.remove(i).to_multiset()
                        &&& new_l == (PrimaryListing { status: st, bids: new_l.bids, ..l })
                        &&& final(self).primary_listings.by_id@ == book.insert(k, new_l)
                        &&& final(self).primary_listings.by_id.keys() == old(self).primary_listings.by_id.keys()
                        &&& final(self).primary_listings.by_seller_id == old(self).primary_listings.by_seller_id
                        &&& final(self).secondary_listings == old(self).secondary_listings
                        &&& final(self).storage_deposits == old(self).storage_deposits
                        &&& final(self).owner_id == old(self).owner_id
                    }
                }
            }),
    {
        let key = PrimaryListingId { nft_contract_id, collection_id };
        let now = ctx.now_nanos();
        let (index, amount) = match self.primary_listings.get(&key) {
            None => {
                return Err(MarketError::ListingNotFound);
            },
            Some(l) => {
                let st = advance_status(l.status, l.supply_left == 0, Some(l.start_timestamp), l.end_timestamp, now);
                if st != ListingStatus::Running {
                    return Err(MarketError::NotRunning(st));
                }
                if l.min_bid_yocto.is_none() {
                    return Err(MarketError::BidsNotAccepted);
                }
                let index = match l.find_bid(bid_id) {
                    None => {
                        return Err(MarketError::BidNotFound);
                    },
                    Some(i) => i,
                };
                proof {
                    let c = first_bid_index(l.bids@, bid_id);
                    assert(l.bids@[index as int].id == bid_id);
                    assert(0 <= c < l.bids@.len() && l.bids@[c].id == bid_id && forall|j: int| 0 <= j < c ==> #[trigger] l.bids@[j].id != bid_id);
                    if c < index {
                        assert(l.bids@[c].id != bid_id);
                    }
                    if c > index {
                        assert(l.bids@[index as int].id != bid_id);
                    }
                }
                if l.bids[index].bidder_id != ctx.predecessor_account_id {
                    return Err(MarketError::NotBidder);
                }
                (index, l.bids[index].amount_yocto)
            },
        };
        let storage_refund = match (freed_storage_bytes as u128).checked_mul(ctx.storage_byte_cost) {
            Some(c) => c,
            None => {
                return Err(MarketError::ArithmeticOverflow);
            },
        };
        let scaled = match amount.checked_mul(PROPOSAL_REVOKE_FEE_RATE) {
            Some(c) => c,
            None => {
                return Err(MarketError::ArithmeticOverflow);
            },
        };
        let gross = match amount.checked_add(storage_refund) {
            Some(c) => c,
            None => {
                return Err(MarketError::ArithmeticOverflow);
            },
        };
        let fee = scaled / 100;
        let ghost old_self = *self;
        let ghost kv = key.key_view();
        let (i, k, mut l) = match self.primary_listings.take(&key) {
            Ok(t) => t,
            Err(e) => {
                return Err(e);
            },
        };
        let ghost orig = l;
        l.update_status(now);
        let removed = l.bids.remove(index);
        let ghost after_remove = l.bids@;
        l.sort_bids();
        proof {
            assert(after_remove == orig.bids@.remove(index as int));
            assert forall|j: int| 0 <= j < l.bids@.len() implies #[trigger] l.bids@[j].id < l.next_bid_id by {
                let x = l.bids@[j];
                assert(l.bids@.contains(x));
                assert(after_remove.to_multiset().count(x) > 0);
                assert(after_remove.contains(x));
                let m = choose|m: int| 0 <= m < after_remove.len() && after_remove[m] == x;
                if m < index {
                    assert(orig.bids@[m] == x);
                } else {
                    assert(orig.bids@[m + 1] == x);
                }
            }
            if let Some(mb) = l.min_bid_yocto {
                assert forall|j: int| 0 <= j < l.bids@.len() implies #[trigger] l.bids@[j].amount_yocto >= mb by {
                    let x = l.bids@[j];
                    assert(l.bids@.contains(x));
                    assert(after_remove.to_multiset().count(x) > 0);
                    assert(after_remove.contains(x));
                    let m = choose|m: int| 0 <= m < after_remove.len() && after_remove[m] == x;
                    if m < index {
                        assert(orig.bids@[m] == x);
                    } else {
                        assert(orig.bids@[m + 1] == x);
                    }
                }
            }
        }
        let fee_account = sub_account("fees.", &ctx.current_account_id);
        proof {
            reveal_strlit("fees.");
        }
        self.primary_listings.put_back(i, k, l);
        proof {
            let ob = old_self.primary_listings.by_id;
            assert(self.primary_listings.by_id@ =~= ob@.insert(kv, self.primary_listings.by_id@[kv]));
            assert(self.primary_listings.by_id.keys() =~= ob.keys());
            assert forall|k2: (Seq<char>, u64)| #[trigger]
                self.primary_listings.by_id@.contains_key(k2) implies self.primary_listings.by_id@[k2].wf() by {
                if k2 != kv {
                    assert(old_self.primary_listings.by_id@.contains_key(k2));
                }
            }
        }
        Ok((
            Transfer { receiver_id: ctx.predecessor_account_id.clone(), amount_yocto: gross - fee },
            Transfer { receiver_id: fee_account, amount_yocto: fee },
        ))
    }
}

/// Estimates the storage of minting a token for a buyer.
pub fn nft_mint_storage(title: &str, media_url: &str, receiver_id: &str) -> (n: u64)
    requires
        nft_mint_storage_estimate(1013, title@, media_url@, receiver_id@) <= u64::MAX,
    ensures
        n == nft_mint_storage_estimate(1013, title@, media_url@, receiver_id@),
{
    1013 + text_bytes(title) + text_bytes(media_url) + 2 * text_bytes(receiver_id)
}

/// Revoking a bid right after it was placed, when it pushed no other bid
/// out, leaves standing exactly the bids that stood before it.
pub proof fn lemma_revoke_undoes_bid(
    old_bids: Seq<Bid>,
    nb: Bid,
    supply_left: u64,
    kept: Seq<Bid>,
    released: Seq<Bid>,
    after: Seq<Bid>,
)
    requires
        bids_after_insert(old_bids, nb, supply_left, kept, released),
        released.len() == 0,
        forall|j: int| 0 <= j < old_bids.len() ==> #[trigger] old_bids[j].id != nb.id,
        after.to_multiset() == kept.remove(first_bid_index(kept, nb.id)).to_multiset(),
    ensures
        after.to_multiset() == old_bids.to_multiset(),
{
    let all = kept + released.reverse();
    assert(all =~= kept);
    assert(kept.to_multiset() == old_bids.to_multiset().insert(nb));
    assert(kept.to_multiset().count(nb) > 0);
    assert(kept.contains(nb));
    let i0 = choose|i: int| 0 <= i < kept.len() && kept[i] == nb;
    // only the new bid carries its id
    assert forall|j: int| 0 <= j < kept.len() && #[trigger] kept[j].id == nb.id implies kept[j] == nb by {
        let x = kept[j];
        assert(kept.contains(x));
        assert(kept.to_multiset().count(x) > 0);
        assert(old_bids.push(nb).to_multiset().count(x) > 0);
        assert(old_bids.push(nb).contains(x));
        let k = choose|k: int| 0 <= k < old_bids.push(nb).len() && old_bids.push(nb)[k] == x;
        if k < old_bids.len() {
            assert(old_bids[k] == x);
        }
    }
    assert(0 <= i0 < kept.len() && kept[i0].id == nb.id && forall|j: int| 0 <= j < i0 ==> #[trigger] kept[j].id != nb.id) by {
        assert forall|j: int| 0 <= j < i0 implies #[trigger] kept[j].id != nb.id by {
            if kept[j].id == nb.id {
                assert(kept[j] == nb);
                let rest = kept.remove(i0);
                assert(rest[j] == nb);
                assert(rest.contains(nb));
                assert(rest.to_multiset().count(nb) > 0);
                assert(rest.to_multiset() == kept.to_multiset().remove(nb));
                assert(kept.to_multiset().remove(nb) =~= old_bids.to_multiset());
                assert(old_bids.to_multiset().count(nb) > 0);
                assert(old_bids.contains(nb));
                let k = choose|k: int| 0 <= k < old_bids.len() && old_bids[k] == nb;
                assert(old_bids[k].id != nb.id);
            }
        }
    }
    let i = first_bid_index(kept, nb.id);
    assert(kept[i] == nb);
    assert(kept.remove(i).to_multiset() == kept.to_multiset().remove(nb));
    assert(old_bids.to_multiset().insert(nb).remove(nb) =~= old_bids.to_multiset());
}

/// Revoking a bid splits its escrow: the fee is a tenth of the amount,
/// rounded down, and what goes back to the bidder plus the fee is exactly
/// the amount with the freed storage.
pub proof fn lemma_revoke_split(amount: u128, storage_refund: int)
    requires
        amount * PROPOSAL_REVOKE_FEE_RATE <= u128::MAX,
        0 <= storage_refund,
    ensures
        ({
            let fee = amount * PROPOSAL_REVOKE_FEE_RATE / 100;
            &&& 0 <= fee <= amount
            &&& fee * 10 <= amount < (fee + 1) * 10
            &&& (amount + storage_refund - fee) + fee == amount + storage_refund
        }),
{
    let fee = amount * PROPOSAL_REVOKE_FEE_RATE / 100;
    assert(fee * 10 <= amount < (fee + 1) * 10) by (nonlinear_arith)
        requires
            fee == amount * 10 / 100,
    ;
}

} // verus!
