use vstd::prelude::*;
use crate::table::TableKey;
use crate::offer::sorted_worst_first;
use crate::context::{CallContext, CallResult, MintCall, Transfer};
use crate::marketplace::contract::MarketplaceContract;
use crate::marketplace::errors::MarketError;
use crate::marketplace::schedule::{byte_len, text_bytes};
use crate::fpo::config::{
    NFT_MINT_WORST_CASE_STORAGE, NFT_MINT_GAS, NFT_MINT_COMPLETION_GAS, PRICE_STEP_YOCTO,
    PROPOSAL_REVOKE_PENALTY_RATE, eneftigo_profit_account_id,
};
use crate::fpo::offering::{
    FixedPriceOffering, FixedPriceOfferingProposal, FixedPriceOfferingStatus, OfferingId, fpo_status_at,
    advance_fpo_status, fpo_acceptable_price, has_proposal_from, has_proposal_by, release_refunds,
    release_refunds_fit, release_refunds_fit_first,
};

verus! {

broadcast use vstd::seq_lib::group_to_multiset_ensures;

/// The storage a token minted for `receiver_id` may take: a measured base
/// and the receiver's name twice.
pub open spec fn nft_mint_worst_case_storage_estimate(receiver_id: Seq<char>) -> int {
    830 + byte_len(receiver_id) * 2
}

/// Estimates the storage of a token minted for `receiver_id`.
pub fn nft_mint_worst_case_storage(receiver_id: &String) -> (n: u64)
    requires
        nft_mint_worst_case_storage_estimate(receiver_id@) <= u64::MAX,
    ensures
        n == nft_mint_worst_case_storage_estimate(receiver_id@),
{
    830 + text_bytes(receiver_id.as_str()) * 2
}

/// The status of an offering brought up to date at time `now`.
pub open spec fn fpo_now_status(f: FixedPriceOffering, now: i64) -> FixedPriceOfferingStatus {
    fpo_status_at(f.status, f.supply_left, f.start_timestamp, f.end_timestamp, now)
}

/// An offering ends at its end date or when its last token is sold: from
/// then on its status is Ended.
pub proof fn lemma_offering_ended_after_end_or_sold_out(f: FixedPriceOffering, now: i64)
    requires
        f.supply_left == 0 || (f.end_timestamp matches Some(e) && now >= e),
    ensures
        fpo_now_status(f, now) == FixedPriceOfferingStatus::Ended,
{
}

/// A purchase at the buy-now price is taken only from a buyer other than
/// the offeror who attaches at least the price, while a token is left and
/// before the end date.
pub proof fn lemma_accepted_offering_purchase_pays_price(f: FixedPriceOffering, ctx: CallContext)
    requires
        fpo_buy_error(f, ctx) is None,
    ensures
        ctx.attached_deposit >= f.buy_now_price_yocto,
        ctx.predecessor_account_id@ != f.offeror_id@,
        f.supply_left > 0,
        f.end_timestamp matches Some(e) ==> ctx.now() < e,
{
}

/// A proposal is taken only from a proposer other than the offeror who
/// attaches its whole price, below the buy-now price, from the minimum on,
/// and, once every token left has a proposal, above the worst standing
/// proposal by at least a step; a token must be left and the end date not
/// reached.
pub proof fn lemma_accepted_offering_proposal_outbids_worst(f: FixedPriceOffering, ctx: CallContext, price: u128)
    requires
        f.wf(),
        fpo_place_error(f, ctx, price) is None,
    ensures
        ctx.attached_deposit >= price,
        ctx.predecessor_account_id@ != f.offeror_id@,
        price < f.buy_now_price_yocto,
        f.min_proposal_price_yocto matches Some(m) && price >= m,
        f.proposals@.len() >= f.supply_left ==> f.proposals@.len() > 0 && price >= f.proposals@[0].price_yocto
            + PRICE_STEP_YOCTO,
        f.supply_left > 0,
        f.end_timestamp matches Some(e) ==> ctx.now() < e,
{
    if f.proposals@.len() >= f.supply_left && f.proposals@.len() > 0 {
        assert(f.proposals@[0].price_yocto >= f.min_proposal_price_yocto.unwrap());
    }
}

/// What the completion of a purchase needs.
pub struct FpoBuyCompletion {
    pub seller_id: String,
    pub attached_deposit: u128,
    pub price: u128,
    pub offering_id: OfferingId,
}

/// A purchase: the token has been taken off the supply and the proposals
/// beyond it released; the mint call and its completion remain, and the
/// released proposals are refunded.
pub struct FpoBuyRequest {
    pub mint: MintCall,
    pub completion: FpoBuyCompletion,
    pub completion_gas: u64,
    pub proposal_refunds: Vec<Transfer>,
}

/// Why a purchase at the buy-now price is refused.
pub open spec fn fpo_buy_error(f: FixedPriceOffering, ctx: CallContext) -> Option<MarketError> {
    let st = fpo_now_status(f, ctx.now());
    let nft_cost = NFT_MINT_WORST_CASE_STORAGE * ctx.storage_byte_cost;
    if st != FixedPriceOfferingStatus::Running {
        Some(MarketError::NotRunning(st.as_listing_status()))
    } else if ctx.predecessor_account_id@ == f.offeror_id@ {
        Some(MarketError::CannotBuyFromYourself)
    } else if f.supply_left == 0 {
        Some(MarketError::NoSupplyLeft)
    } else if ctx.attached_deposit < f.buy_now_price_yocto {
        Some(MarketError::AttachedDepositTooLow)
    } else if nft_cost > u128::MAX {
        Some(MarketError::ArithmeticOverflow)
    } else {
        None
    }
}

/// What a completed purchase pays: the seller is paid the price, and the
/// buyer gets back what it attached beyond the price and the token's storage.
pub struct FpoPurchaseOutcome {
    pub token_id: String,
    pub seller_payment: Transfer,
    pub buyer_refund: Option<Transfer>,
}

/// The proposals left once the supply dropped to `supply_left`: the worst
/// ones beyond it go.
pub open spec fn pruned(ps: Seq<FixedPriceOfferingProposal>, supply_left: u64) -> Seq<FixedPriceOfferingProposal> {
    ps.skip(if ps.len() > supply_left { ps.len() - supply_left } else { 0 })
}

/// The proposals released once the supply dropped to `supply_left`, worst
/// first.
pub open spec fn pruned_away(ps: Seq<FixedPriceOfferingProposal>, supply_left: u64) -> Seq<FixedPriceOfferingProposal> {
    ps.take(if ps.len() > supply_left { ps.len() - supply_left } else { 0 })
}

impl MarketplaceContract {
    /// Buys a token at the buy-now price: the offering (its status brought
    /// up to date) has one token less and releases the proposals beyond the
    /// supply left, each refunded its price and the cost of the storage a
    /// proposal frees (`proposal_storage_bytes`, as the runtime measured
    /// it). The request asks the NFT contract to mint the token for the
    /// caller.
    pub fn fpo_buy(
        &mut self,
        ctx: &CallContext,
        nft_contract_id: String,
        collection_id: u64,
        proposal_storage_bytes: u64,
    ) -> (r: Result<FpoBuyRequest, MarketError>)
        requires
            old(self).wf(),
            ctx.wf(),
        ensures
            final(self).wf(),
            r is Err ==> *final(self) == *old(self),
            r is Ok ==> ({
                let f = old(self).fpos.by_id@[(nft_contract_id@, collection_id)];
                &&& old(self).fpos.by_id@.contains_key((nft_contract_id@, collection_id))
                &&& ctx.attached_deposit >= f.buy_now_price_yocto
                &&& ctx.predecessor_account_id@ != f.offeror_id@
                &&& f.supply_left > 0
                &&& f.end_timestamp matches Some(e) ==> ctx.now() < e
            }),
            ({
                let k = (nft_contract_id@, collection_id);
                let book = old(self).fpos.by_id@;
                if !book.contains_key(k) {
                    r == Err::<FpoBuyRequest, MarketError>(MarketError::ListingNotFound)
                } else {
                    let f = book[k];
                    let nft_cost = NFT_MINT_WORST_CASE_STORAGE * ctx.storage_byte_cost;
                    let freed = proposal_storage_bytes * ctx.storage_byte_cost;
                    let left = (f.supply_left - 1) as u64;
                    match fpo_buy_error(f, *ctx) {
                        Some(e) => r == Err::<FpoBuyRequest, MarketError>(e),
                        None => if freed > u128::MAX || !release_refunds_fit(
                            pruned_away(f.proposals@, left),
                            freed as u128,
                        ) {
                            r == Err::<FpoBuyRequest, MarketError>(MarketError::ArithmeticOverflow)
                        } else {
                            let nf = final(self).fpos.by_id@[k];
                            &&& r matches Ok(req) && {
                                &&& req.mint.nft_contract_id@ == nft_contract_id@
                                &&& req.mint.collection_id == collection_id
                                &&& req.mint.receiver_id@ == ctx.predecessor_account_id@
                                &&& req.mint.attached_deposit == nft_cost
                                &&& req.mint.gas == NFT_MINT_GAS
                                &&& req.completion.seller_id@ == f.offeror_id@
                                &&& req.completion.attached_deposit == ctx.attached_deposit
                                &&& req.completion.price == f.buy_now_price_yocto
                                &&& req.completion.offering_id.key_view() == k
                                &&& req.completion_gas == NFT_MINT_COMPLETION_GAS
                                &&& release_refunds(req.proposal_refunds@, pruned_away(f.proposals@, left), freed as u128)
                            }
                            &&& final(self).fpos.by_id@ == book.insert(k, FixedPriceOffering {
                                status: fpo_now_status(f, ctx.now()),
                                supply_left: left,
                                proposals: nf.proposals,
                                ..f
                            })
                            &&& nf.proposals@ == pruned(f.proposals@, left)
                            &&& final(self).primary_listings == old(self).primary_listings
                            &&& final(self).secondary_listings == old(self).secondary_listings
                            &&& final(self).storage_deposits == old(self).storage_deposits
                        },
                    }
                }
            }),
    {
        let key = OfferingId { nft_contract_id, collection_id };
        let now = ctx.now_nanos();
        let (offeror, price, supply_left, status) = match self.fpos.get(&key) {
            None => {
                return Err(MarketError::ListingNotFound);
            },
            Some(f) => (
                f.offeror_id.clone(),
                f.buy_now_price_yocto,
                f.supply_left,
                advance_fpo_status(f.status, f.supply_left, f.start_timestamp, f.end_timestamp, now),
            ),
        };
        if status != FixedPriceOfferingStatus::Running {
            return Err(MarketError::NotRunning(status_name(status)));
        }
        if ctx.predecessor_account_id == offeror {
            return Err(MarketError::CannotBuyFromYourself);
        }
        if supply_left == 0 {
            return Err(MarketError::NoSupplyLeft);
        }
        if ctx.attached_deposit < price {
            return Err(MarketError::AttachedDepositTooLow);
        }
        let nft_cost = match (NFT_MINT_WORST_CASE_STORAGE as u128).checked_mul(ctx.storage_byte_cost) {
            Some(c) => c,
            None => {
                return Err(MarketError::ArithmeticOverflow);
            },
        };
        let freed = match (proposal_storage_bytes as u128).checked_mul(ctx.storage_byte_cost) {
            Some(c) => c,
            None => {
                return Err(MarketError::ArithmeticOverflow);
            },
        };
        let left = supply_left - 1;
        let fits = match self.fpos.get(&key) {
            None => {
                return Err(MarketError::ListingNotFound);
            },
            Some(f) => {
                let n = f.proposals.len();
                let excess: usize = if (n as u64) > left { n - left as usize } else { 0 };
                release_refunds_fit_first(&f.proposals, excess, freed)
            },
        };
        if !fits {
            return Err(MarketError::ArithmeticOverflow);
        }
        let ghost old_self = *self;
        let (i, k, mut fpo) = match self.fpos.take(&key) {
            Ok(t) => t,
            Err(e) => {
                return Err(e);
            },
        };
        fpo.update_status(now);
        fpo.supply_left = left;
        let refunds = fpo.remove_supply_exceeding_proposals_and_refund_proposers(freed);
        self.fpos.put_back(i, k, fpo);
        proof {
            assert forall|k2: (Seq<char>, u64)| #[trigger] self.fpos.by_id@.contains_key(k2) implies self.fpos.by_id@[k2].wf() by {
                if k2 != key.key_view() {
                    assert(old_self.fpos.by_id@.contains_key(k2));
                }
            }
        }
        Ok(FpoBuyRequest {
            mint: MintCall {
                nft_contract_id: key.nft_contract_id.clone(),
                collection_id,
                receiver_id: ctx.predecessor_account_id.clone(),
                attached_deposit: nft_cost,
                gas: NFT_MINT_GAS,
            },
            completion: FpoBuyCompletion { seller_id: offeror, attached_deposit: ctx.attached_deposit, price, offering_id: key },
            completion_gas: NFT_MINT_COMPLETION_GAS,
            proposal_refunds: refunds,
        })
    }
}

impl MarketplaceContract {
    /// Completes a purchase once the NFT contract answered; only the
    /// marketplace itself may call it. When the token was minted, the seller
    /// is paid the price; the buyer's deposit must cover the price and the
    /// storage the token took, and the rest is refunded to the signer. The
    /// offering already gave up the token when it was bought. Gives the
    /// token id.
    pub fn fpo_buy_now_mint_completion(
        &mut self,
        ctx: &CallContext,
        args: FpoBuyCompletion,
        result: CallResult<(String, u64)>,
    ) -> (r: Result<FpoPurchaseOutcome, MarketError>)
        ensures
            *final(self) == *old(self),
            ctx.predecessor_account_id@ != ctx.current_account_id@ ==> r == Err::<FpoPurchaseOutcome, MarketError>(
                MarketError::NotCrossContractCall,
            ),
            ctx.predecessor_account_id@ == ctx.current_account_id@ ==> match result {
                CallResult::NotReady => r == Err::<FpoPurchaseOutcome, MarketError>(MarketError::NftCallNotReady),
                CallResult::Failed => r == Err::<FpoPurchaseOutcome, MarketError>(MarketError::NftCallFailed),
                CallResult::Successful(v) => match v {
                    None => r == Err::<FpoPurchaseOutcome, MarketError>(MarketError::UnexpectedNftResult),
                    Some((token_id, bytes)) => {
                        let cost = bytes * ctx.storage_byte_cost;
                        if cost > u128::MAX || args.price + cost > u128::MAX {
                            r == Err::<FpoPurchaseOutcome, MarketError>(MarketError::ArithmeticOverflow)
                        } else if args.attached_deposit < args.price + cost {
                            r == Err::<FpoPurchaseOutcome, MarketError>(MarketError::AttachedDepositTooLow)
                        } else {
                            let refund = args.attached_deposit - (args.price + cost);
                            r matches Ok(o) && {
                                &&& o.token_id@ == token_id@
                                &&& o.seller_payment.receiver_id@ == args.seller_id@
                                &&& o.seller_payment.amount_yocto == args.price
                                &&& (refund > 0 ==> (o.buyer_refund matches Some(t) && t.receiver_id@
                                    == ctx.signer_account_id@ && t.amount_yocto == refund))
                                &&& (refund == 0 ==> o.buyer_refund is None)
                            }
                        }
                    },
                },
            },
    {
        if ctx.predecessor_account_id != ctx.current_account_id {
            return Err(MarketError::NotCrossContractCall);
        }
        let value = match result {
            CallResult::NotReady => {
                return Err(MarketError::NftCallNotReady);
            },
            CallResult::Failed => {
                return Err(MarketError::NftCallFailed);
            },
            CallResult::Successful(v) => v,
        };
        let (token_id, bytes) = match value {
            None => {
                return Err(MarketError::UnexpectedNftResult);
            },
            Some(v) => v,
        };
        let cost = match (bytes as u128).checked_mul(ctx.storage_byte_cost) {
            Some(c) => c,
            None => {
                return Err(MarketError::ArithmeticOverflow);
            },
        };
        let total = match args.price.checked_add(cost) {
            Some(t) => t,
            None => {
                return Err(MarketError::ArithmeticOverflow);
            },
        };
        if args.attached_deposit < total {
            return Err(MarketError::AttachedDepositTooLow);
        }
        let refund_amount = args.attached_deposit - total;
        let buyer_refund = if refund_amount > 0 {
            Some(Transfer { receiver_id: ctx.signer_account_id.clone(), amount_yocto: refund_amount })
        } else {
            None
        };
        Ok(FpoPurchaseOutcome {
            token_id,
            seller_payment: Transfer { receiver_id: args.seller_id, amount_yocto: args.price },
            buyer_refund,
        })
    }
}

/// The position of the standing proposal of `proposer` with id `id`.
pub open spec fn proposal_at(ps: Seq<FixedPriceOfferingProposal>, proposer: Seq<char>, id: u64) -> int {
    choose|j: int| 0 <= j < ps.len() && #[trigger] ps[j].id == id && ps[j].proposer_id@ == proposer
}

/// Why a new proposal of `price` is refused.
pub open spec fn fpo_place_error(f: FixedPriceOffering, ctx: CallContext, price: u128) -> Option<MarketError> {
    let st = fpo_now_status(f, ctx.now());
    if st != FixedPriceOfferingStatus::Running {
        Some(MarketError::NotRunning(st.as_listing_status()))
    } else if ctx.predecessor_account_id@ == f.offeror_id@ {
        Some(MarketError::CannotBidOnOwnListing)
    } else if f.min_proposal_price_yocto is None {
        Some(MarketError::BidsNotAccepted)
    } else if f.supply_left == 0 {
        Some(MarketError::NoSupplyLeft)
    } else if price >= f.buy_now_price_yocto {
        Some(MarketError::BidNotBelowPrice)
    } else if price % PRICE_STEP_YOCTO != 0 {
        Some(MarketError::BidNotMultipleOfStep)
    } else {
        match fpo_acceptable_price(f.min_proposal_price_yocto, f.proposals@, f.supply_left) {
            Err(e) => Some(e),
            Ok(a) => if price < a {
                Some(MarketError::BidTooLow)
            } else if ctx.attached_deposit < price {
                Some(MarketError::AttachedDepositTooLow)
            } else if f.next_proposal_id == u64::MAX {
                Some(MarketError::ArithmeticOverflow)
            } else {
                None
            },
        }
    }
}

/// The proposals an offering keeps when a new one comes: all of them while
/// fewer stand than tokens are left, otherwise all but the worst.
pub open spec fn kept_on_proposal(ps: Seq<FixedPriceOfferingProposal>, supply_left: u64) -> Seq<FixedPriceOfferingProposal> {
    if ps.len() >= supply_left {
        ps.drop_first()
    } else {
        ps
    }
}

/// A proposal that an offering with tokens left accepts never lowers the
/// price that the next one must offer: once it stands among the proposals
/// kept, worst first, the acceptable price is at least what it was before.
pub proof fn lemma_fpo_acceptable_price_never_drops(
    f: FixedPriceOffering,
    new_p: FixedPriceOfferingProposal,
    new_ps: Seq<FixedPriceOfferingProposal>,
)
    requires
        f.wf(),
        f.supply_left > 0,
        fpo_acceptable_price(f.min_proposal_price_yocto, f.proposals@, f.supply_left) is Ok,
        new_p.price_yocto >= fpo_acceptable_price(f.min_proposal_price_yocto, f.proposals@, f.supply_left)->Ok_0,
        sorted_worst_first(new_ps),
        new_ps.to_multiset() == kept_on_proposal(f.proposals@, f.supply_left).to_multiset().insert(new_p),
    ensures
        fpo_acceptable_price(f.min_proposal_price_yocto, new_ps, f.supply_left) matches Ok(b) ==> b
            >= fpo_acceptable_price(f.min_proposal_price_yocto, f.proposals@, f.supply_left)->Ok_0,
{
    let ps = f.proposals@;
    let s = f.supply_left;
    let n = ps.len();
    let m = f.min_proposal_price_yocto->Some_0;
    let kept = kept_on_proposal(ps, s);
    assert(new_ps.len() == kept.len() + 1) by {
        assert(new_ps.to_multiset().len() == new_ps.len());
        assert(kept.to_multiset().len() == kept.len());
    }
    if new_ps.len() >= s && new_ps.len() > 0 {
        let x = new_ps[0];
        let lower: int = if n < s { m as int } else { ps[0].price_yocto as int };
        assert(new_ps.contains(x));
        assert(new_ps.to_multiset().count(x) > 0);
        if x != new_p {
            assert(kept.to_multiset().count(x) > 0);
            assert(kept.contains(x));
            let j = choose|j: int| 0 <= j < kept.len() && kept[j] == x;
            if n < s {
                assert(ps[j] == x);
            } else {
                assert(kept[j] == ps[j + 1]);
                assert(crate::offer::worst_first(ps[0], ps[j + 1]));
            }
        }
        assert(x.price_yocto >= lower);
    }
}

/// What placing a proposal gives back: its id, the refund of the proposal
/// it outbid (if the supply was matched), and the rest of the deposit.
pub struct FpoPlaceProposalOutcome {
    pub proposal_id: u64,
    pub outbid_refund: Option<Transfer>,
    pub surplus_refund: Option<Transfer>,
}

/// A refund of `amount` to `account` when the amount is positive.
pub open spec fn refund_if_positive(t: Option<Transfer>, account: Seq<char>, amount: int) -> bool {
    &&& amount > 0 ==> (t matches Some(tr) && tr.receiver_id@ == account && tr.amount_yocto == amount)
    &&& amount <= 0 ==> t is None
}

/// A transfer of `amount` to `account`, unless the amount is zero.
pub fn transfer_if_positive(account: &String, amount: u128) -> (t: Option<Transfer>)
    ensures
        refund_if_positive(t, account@, amount as int),
{
    if amount > 0 {
        Some(Transfer { receiver_id: account.clone(), amount_yocto: amount })
    } else {
        None
    }
}

impl MarketplaceContract {
    /// Places a proposal of `price_yocto` below the buy-now price, with its
    /// full price deposited. When as many proposals stand as tokens are
    /// left, the worst one is outbid and refunded its price and the cost of
    /// the storage a proposal frees (`proposal_storage_bytes`, as the runtime
    /// measured it). The rest of the deposit is refunded to the caller.
    pub fn fpo_place_proposal(
        &mut self,
        ctx: &CallContext,
        nft_contract_id: String,
        collection_id: u64,
        price_yocto: u128,
        proposal_storage_bytes: u64,
    ) -> (r: Result<FpoPlaceProposalOutcome, MarketError>)
        requires
            old(self).wf(),
            ctx.wf(),
        ensures
            final(self).wf(),
            r is Err ==> *final(self) == *old(self),
            r is Ok ==> ({
                let f = old(self).fpos.by_id@[(nft_contract_id@, collection_id)];
                let ps = f.proposals@;
                &&& old(self).fpos.by_id@.contains_key((nft_contract_id@, collection_id))
                &&& ctx.attached_deposit >= price_yocto
                &&& price_yocto < f.buy_now_price_yocto
                &&& ctx.predecessor_account_id@ != f.offeror_id@
                &&& f.end_timestamp matches Some(e) ==> ctx.now() < e
                &&& ps.len() >= f.supply_left ==> ps.len() > 0 && price_yocto >= ps[0].price_yocto + PRICE_STEP_YOCTO
            }),
            ({
                let k = (nft_contract_id@, collection_id);
                let book = old(self).fpos.by_id@;
                if !book.contains_key(k) {
                    r == Err::<FpoPlaceProposalOutcome, MarketError>(MarketError::ListingNotFound)
                } else {
                    let f = book[k];
                    let ps = f.proposals@;
                    let outbid = ps.len() >= f.supply_left;
                    let freed = proposal_storage_bytes * ctx.storage_byte_cost;
                    match fpo_place_error(f, *ctx, price_yocto) {
                        Some(e) => r == Err::<FpoPlaceProposalOutcome, MarketError>(e),
                        None => if freed > u128::MAX || (outbid && ps[0].price_yocto + freed > u128::MAX) {
                            r == Err::<FpoPlaceProposalOutcome, MarketError>(MarketError::ArithmeticOverflow)
                        } else {
                            let kept = kept_on_proposal(ps, f.supply_left);
                            let new_p = FixedPriceOfferingProposal {
                                id: f.next_proposal_id,
                                proposer_id: ctx.predecessor_account_id,
                                price_yocto,
                                is_acceptable: true,
                            };
                            let nf = final(self).fpos.by_id@[k];
                            &&& r matches Ok(o) && {
                                &&& o.proposal_id == f.next_proposal_id
                                &&& outbid ==> (o.outbid_refund matches Some(t) && crate::fpo::offering::is_release_refund(
                                    t,
                                    ps[0],
                                    freed as u128,
                                ))
                                &&& !outbid ==> o.outbid_refund is None
                                &&& refund_if_positive(
                                    o.surplus_refund,
                                    ctx.predecessor_account_id@,
                                    ctx.attached_deposit - price_yocto,
                                )
                            }
                            &&& final(self).fpos.by_id@ == book.insert(k, FixedPriceOffering {
                                status: FixedPriceOfferingStatus::Running,
                                next_proposal_id: (f.next_proposal_id + 1) as u64,
                                proposals: nf.proposals,
                                ..f
                            })
                            &&& sorted_worst_first(nf.proposals@)
                            &&& nf.proposals@.to_multiset() == kept.to_multiset().insert(new_p)
                            &&& final(self).primary_listings == old(self).primary_listings
                            &&& final(self).secondary_listings == old(self).secondary_listings
                            &&& final(self).storage_deposits == old(self).storage_deposits
                        },
                    }
                }
            }),
    {
        let key = OfferingId { nft_contract_id, collection_id };
        let now = ctx.now_nanos();
        let ghost book = self.fpos.by_id@;
        let (offeror, min, supply_left, buy_now, next_id, status) = match self.fpos.get(&key) {
            None => {
                return Err(MarketError::ListingNotFound);
            },
            Some(f) => (
                f.offeror_id.clone(),
                f.min_proposal_price_yocto,
                f.supply_left,
                f.buy_now_price_yocto,
                f.next_proposal_id,
                advance_fpo_status(f.status, f.supply_left, f.start_timestamp, f.end_timestamp, now),
            ),
        };
        if status != FixedPriceOfferingStatus::Running {
            return Err(MarketError::NotRunning(status_name(status)));
        }
        if ctx.predecessor_account_id == offeror {
            return Err(MarketError::CannotBidOnOwnListing);
        }
        if min.is_none() {
            return Err(MarketError::BidsNotAccepted);
        }
        if supply_left == 0 {
            return Err(MarketError::NoSupplyLeft);
        }
        if price_yocto >= buy_now {
            return Err(MarketError::BidNotBelowPrice);
        }
        if price_yocto % PRICE_STEP_YOCTO != 0 {
            return Err(MarketError::BidNotMultipleOfStep);
        }
        let acceptable = match self.fpos.get(&key) {
            None => {
                return Err(MarketError::ListingNotFound);
            },
            Some(f) => f.acceptable_price_yocto(),
        };
        let acceptable = match acceptable {
            Ok(a) => a,
            Err(e) => {
                return Err(e);
            },
        };
        if price_yocto < acceptable {
            return Err(MarketError::BidTooLow);
        }
        if ctx.attached_deposit < price_yocto {
            return Err(MarketError::AttachedDepositTooLow);
        }
        if next_id == u64::MAX {
            return Err(MarketError::ArithmeticOverflow);
        }
        let freed = match (proposal_storage_bytes as u128).checked_mul(ctx.storage_byte_cost) {
            Some(c) => c,
            None => {
                return Err(MarketError::ArithmeticOverflow);
            },
        };
        let worst_fits = match self.fpos.get(&key) {
            None => {
                return Err(MarketError::ListingNotFound);
            },
            Some(f) => (f.proposals.len() as u64) < supply_left || f.proposals[0].price_yocto.checked_add(freed).is_some(),
        };
        if !worst_fits {
            return Err(MarketError::ArithmeticOverflow);
        }
        let ghost old_self = *self;
        let (i, k, mut fpo) = match self.fpos.take(&key) {
            Ok(t) => t,
            Err(e) => {
                return Err(e);
            },
        };
        let ghost f0 = fpo;
        fpo.status = status;
        let outbid_refund = if (fpo.proposals.len() as u64) < supply_left {
            None
        } else {
            let worst = fpo.remove_proposal_at(0);
            Some(Transfer { receiver_id: worst.proposer_id, amount_yocto: worst.price_yocto + freed })
        };
        let ghost kept = fpo.proposals@;
        fpo.next_proposal_id = next_id + 1;
        let new_proposal = FixedPriceOfferingProposal {
            id: next_id,
            proposer_id: ctx.predecessor_account_id.clone(),
            price_yocto,
            is_acceptable: true,
        };
        let ghost np = new_proposal;
        proof {
            assert forall|j: int| 0 <= j < fpo.proposals@.len() implies #[trigger] fpo.proposals@[j].id != next_id by {
                assert(fpo.proposals@[j].id < next_id);
            }
            if f0.proposals@.len() >= supply_left {
                assert(kept == f0.proposals@.remove(0));
                assert(kept =~= f0.proposals@.drop_first());
            }
        }
        fpo.insert_proposal(new_proposal);
        self.fpos.put_back(i, k, fpo);
        proof {
            assert forall|k2: (Seq<char>, u64)| #[trigger] self.fpos.by_id@.contains_key(k2) implies self.fpos.by_id@[k2].wf() by {
                if k2 != key.key_view() {
                    assert(old_self.fpos.by_id@.contains_key(k2));
                }
            }
            assert(kept.to_multiset().insert(np) == self.fpos.by_id@[key.key_view()].proposals@.to_multiset());
        }
        let surplus_refund = transfer_if_positive(&ctx.predecessor_account_id, ctx.attached_deposit - price_yocto);
        Ok(FpoPlaceProposalOutcome { proposal_id: next_id, outbid_refund, surplus_refund })
    }
}

/// The chosen position is the only one with that id.
pub proof fn lemma_proposal_at(f: FixedPriceOffering, proposer: Seq<char>, id: u64, i: int)
    requires
        f.wf(),
        0 <= i < f.proposals@.len(),
        f.proposals@[i].id == id,
        f.proposals@[i].proposer_id@ == proposer,
    ensures
        proposal_at(f.proposals@, proposer, id) == i,
        has_proposal_by(f.proposals@, proposer, id),
        has_proposal_from(f.proposals@, proposer),
{
    let ps = f.proposals@;
    assert(has_proposal_by(ps, proposer, id));
    let j = proposal_at(ps, proposer, id);
    if j != i {
        if j < i {
            assert(ps[j].id != ps[i].id);
        } else {
            assert(ps[i].id != ps[j].id);
        }
    }
}

/// Why changing the price of a proposal to `price` is refused.
pub open spec fn fpo_modify_error(f: FixedPriceOffering, ctx: CallContext, proposal_id: u64, price: u128) -> Option<
    MarketError,
> {
    let st = fpo_now_status(f, ctx.now());
    let ps = f.proposals@;
    let who = ctx.predecessor_account_id@;
    let p = ps[proposal_at(ps, who, proposal_id)];
    if st != FixedPriceOfferingStatus::Running {
        Some(MarketError::NotRunning(st.as_listing_status()))
    } else if f.min_proposal_price_yocto is None {
        Some(MarketError::BidsNotAccepted)
    } else if price % PRICE_STEP_YOCTO != 0 {
        Some(MarketError::BidNotMultipleOfStep)
    } else if !has_proposal_from(ps, who) {
        Some(MarketError::NoProposalFromAccount)
    } else if !has_proposal_by(ps, who, proposal_id) {
        Some(MarketError::ProposalNotFound)
    } else if price < p.price_yocto {
        Some(MarketError::ProposalPriceLowered)
    } else if ctx.attached_deposit < price - p.price_yocto {
        Some(MarketError::AttachedDepositTooLow)
    } else if price >= f.buy_now_price_yocto {
        if ctx.attached_deposit + p.price_yocto > u128::MAX {
            Some(MarketError::ArithmeticOverflow)
        } else {
            None
        }
    } else {
        match fpo_acceptable_price(f.min_proposal_price_yocto, ps, f.supply_left) {
            Err(e) => Some(e),
            Ok(a) => if price < a {
                Some(MarketError::BidTooLow)
            } else {
                None
            },
        }
    }
}

/// Why revoking a proposal is refused.
pub open spec fn fpo_revoke_error(f: FixedPriceOffering, ctx: CallContext, proposal_id: u64) -> Option<MarketError> {
    let st = fpo_now_status(f, ctx.now());
    let ps = f.proposals@;
    let who = ctx.predecessor_account_id@;
    let p = ps[proposal_at(ps, who, proposal_id)];
    if st != FixedPriceOfferingStatus::Running {
        Some(MarketError::NotRunning(st.as_listing_status()))
    } else if f.min_proposal_price_yocto is None {
        Some(MarketError::BidsNotAccepted)
    } else if !has_proposal_from(ps, who) {
        Some(MarketError::NoProposalFromAccount)
    } else if !has_proposal_by(ps, who, proposal_id) {
        Some(MarketError::ProposalNotFound)
    } else if p.price_yocto * PROPOSAL_REVOKE_PENALTY_RATE > u128::MAX {
        Some(MarketError::ArithmeticOverflow)
    } else {
        None
    }
}

impl MarketplaceContract {
    /// Changes the price of the caller's proposal; the deposit must cover the
    /// increase. A price at or above the buy-now price takes a token at once:
    /// the proposal leaves and the supply drops by one. Otherwise the price
    /// must stay acceptable and the proposal takes its new place. The rest of
    /// the deposit is refunded to the caller.
    pub fn fpo_modify_proposal(
        &mut self,
        ctx: &CallContext,
        nft_contract_id: String,
        collection_id: u64,
        proposal_id: u64,
        price_yocto: u128,
    ) -> (r: Result<Option<Transfer>, MarketError>)
        requires
            old(self).wf(),
            ctx.wf(),
        ensures
            final(self).wf(),
            r is Err ==> *final(self) == *old(self),
            ({
                let k = (nft_contract_id@, collection_id);
                let book = old(self).fpos.by_id@;
                if !book.contains_key(k) {
                    r == Err::<Option<Transfer>, MarketError>(MarketError::ListingNotFound)
                } else {
                    let f = book[k];
                    let ps = f.proposals@;
                    let who = ctx.predecessor_account_id@;
                    let j = proposal_at(ps, who, proposal_id);
                    let p = ps[j];
                    let nf = final(self).fpos.by_id@[k];
                    match fpo_modify_error(f, *ctx, proposal_id, price_yocto) {
                        Some(e) => r == Err::<Option<Transfer>, MarketError>(e),
                        None => {
                            &&& final(self).primary_listings == old(self).primary_listings
                            &&& final(self).secondary_listings == old(self).secondary_listings
                            &&& final(self).storage_deposits == old(self).storage_deposits
                            &&& if price_yocto >= f.buy_now_price_yocto {
                                &&& r matches Ok(t) && refund_if_positive(
                                    t,
                                    who,
                                    ctx.attached_deposit + p.price_yocto - f.buy_now_price_yocto,
                                )
                                &&& final(self).fpos.by_id@ == book.insert(k, FixedPriceOffering {
                                    status: FixedPriceOfferingStatus::Running,
                                    supply_left: (f.supply_left - 1) as u64,
                                    proposals: nf.proposals,
                                    ..f
                                })
                                &&& nf.proposals@ == ps.remove(j)
                            } else {
                                &&& r matches Ok(t) && refund_if_positive(
                                    t,
                                    who,
                                    ctx.attached_deposit - (price_yocto - p.price_yocto),
                                )
                                &&& final(self).fpos.by_id@ == book.insert(k, FixedPriceOffering {
                                    status: FixedPriceOfferingStatus::Running,
                                    proposals: nf.proposals,
                                    ..f
                                })
                                &&& sorted_worst_first(nf.proposals@)
                                &&& nf.proposals@.to_multiset() == ps.remove(j).to_multiset().insert(
                                    FixedPriceOfferingProposal { price_yocto, is_acceptable: true, ..p },
                                )
                            }
                        },
                    }
                }
            }),
    {
        let key = OfferingId { nft_contract_id, collection_id };
        let now = ctx.now_nanos();
        let who = &ctx.predecessor_account_id;
        let f = match self.fpos.get(&key) {
            None => {
                return Err(MarketError::ListingNotFound);
            },
            Some(f) => f,
        };
        let status = advance_fpo_status(f.status, f.supply_left, f.start_timestamp, f.end_timestamp, now);
        if status != FixedPriceOfferingStatus::Running {
            return Err(MarketError::NotRunning(status_name(status)));
        }
        if f.min_proposal_price_yocto.is_none() {
            return Err(MarketError::BidsNotAccepted);
        }
        if price_yocto % PRICE_STEP_YOCTO != 0 {
            return Err(MarketError::BidNotMultipleOfStep);
        }
        let j = match f.find_proposal_of(who, proposal_id) {
            Ok(j) => j,
            Err(e) => {
                return Err(e);
            },
        };
        proof {
            lemma_proposal_at(*f, who@, proposal_id, j as int);
        }
        let old_price = f.proposals[j].price_yocto;
        if price_yocto < old_price {
            return Err(MarketError::ProposalPriceLowered);
        }
        let supplement = price_yocto - old_price;
        if ctx.attached_deposit < supplement {
            return Err(MarketError::AttachedDepositTooLow);
        }
        let buy_now = f.buy_now_price_yocto;
        let supply_left = f.supply_left;
        if price_yocto >= buy_now {
            let funds = match ctx.attached_deposit.checked_add(old_price) {
                Some(a) => a,
                None => {
                    return Err(MarketError::ArithmeticOverflow);
                },
            };
            let ghost old_self = *self;
            let (i, k, mut fpo) = match self.fpos.take(&key) {
                Ok(t) => t,
                Err(e) => {
                    return Err(e);
                },
            };
            fpo.status = status;
            fpo.remove_proposal_at(j);
            fpo.supply_left = supply_left - 1;
            self.fpos.put_back(i, k, fpo);
            proof {
                assert forall|k2: (Seq<char>, u64)| #[trigger] self.fpos.by_id@.contains_key(k2) implies self.fpos.by_id@[k2].wf() by {
                    if k2 != key.key_view() {
                        assert(old_self.fpos.by_id@.contains_key(k2));
                    }
                }
            }
            return Ok(transfer_if_positive(who, funds - buy_now));
        }
        let acceptable = match f.acceptable_price_yocto() {
            Ok(a) => a,
            Err(e) => {
                return Err(e);
            },
        };
        if price_yocto < acceptable {
            return Err(MarketError::BidTooLow);
        }
        let ghost old_self = *self;
        let (i, k, mut fpo) = match self.fpos.take(&key) {
            Ok(t) => t,
            Err(e) => {
                return Err(e);
            },
        };
        fpo.status = status;
        let mut p = fpo.remove_proposal_at(j);
        let ghost old_p = p;
        p.price_yocto = price_yocto;
        p.is_acceptable = true;
        proof {
            assert forall|x: int| 0 <= x < fpo.proposals@.len() implies #[trigger] fpo.proposals@[x].id != p.id by {
                let ox = if x < j { x } else { x + 1 };
                assert(fpo.proposals@[x] == old_self.fpos.by_id@[key.key_view()].proposals@[ox]);
            }
        }
        fpo.insert_proposal(p);
        self.fpos.put_back(i, k, fpo);
        proof {
            assert forall|k2: (Seq<char>, u64)| #[trigger] self.fpos.by_id@.contains_key(k2) implies self.fpos.by_id@[k2].wf() by {
                if k2 != key.key_view() {
                    assert(old_self.fpos.by_id@.contains_key(k2));
                }
            }
            assert(p == (FixedPriceOfferingProposal { price_yocto, is_acceptable: true, ..old_p }));
        }
        Ok(transfer_if_positive(who, ctx.attached_deposit - supplement))
    }

    /// Revokes the caller's proposal: it leaves the offering, and its deposit
    /// is returned less a penalty, which goes to the profit account. Gives
    /// the refund and the penalty transfer.
    pub fn fpo_revoke_proposal(
        &mut self,
        ctx: &CallContext,
        nft_contract_id: String,
        collection_id: u64,
        proposal_id: u64,
    ) -> (r: Result<(Transfer, Transfer), MarketError>)
        requires
            old(self).wf(),
            ctx.wf(),
        ensures
            final(self).wf(),
            r is Err ==> *final(self) == *old(self),
            ({
                let k = (nft_contract_id@, collection_id);
                let book = old(self).fpos.by_id@;
                if !book.contains_key(k) {
                    r == Err::<(Transfer, Transfer), MarketError>(MarketError::ListingNotFound)
                } else {
                    let f = book[k];
                    let ps = f.proposals@;
                    let who = ctx.predecessor_account_id@;
                    let j = proposal_at(ps, who, proposal_id);
                    let p = ps[j];
                    let penalty = p.price_yocto * PROPOSAL_REVOKE_PENALTY_RATE / 100;
                    let nf = final(self).fpos.by_id@[k];
                    match fpo_revoke_error(f, *ctx, proposal_id) {
                        Some(e) => r == Err::<(Transfer, Transfer), MarketError>(e),
                        None => {
                            &&& r matches Ok((refund, fee)) && refund.receiver_id@ == who && refund.amount_yocto
                                == p.price_yocto - penalty && fee.receiver_id@ == "profit.eneftigo.near"@
                                && fee.amount_yocto == penalty
                            &&& final(self).fpos.by_id@ == book.insert(k, FixedPriceOffering {
                                status: FixedPriceOfferingStatus::Running,
                                proposals: nf.proposals,
                                ..f
                            })
                            &&& nf.proposals@ == ps.remove(j)
                            &&& final(self).primary_listings == old(self).primary_listings
                            &&& final(self).secondary_listings == old(self).secondary_listings
                            &&& final(self).storage_deposits == old(self).storage_deposits
                        },
                    }
                }
            }),
    {
        let key = OfferingId { nft_contract_id, collection_id };
        let now = ctx.now_nanos();
        let who = &ctx.predecessor_account_id;
        let f = match self.fpos.get(&key) {
            None => {
                return Err(MarketError::ListingNotFound);
            },
            Some(f) => f,
        };
        let status = advance_fpo_status(f.status, f.supply_left, f.start_timestamp, f.end_timestamp, now);
        if status != FixedPriceOfferingStatus::Running {
            return Err(MarketError::NotRunning(status_name(status)));
        }
        if f.min_proposal_price_yocto.is_none() {
            return Err(MarketError::BidsNotAccepted);
        }
        let j = match f.find_proposal_of(who, proposal_id) {
            Ok(j) => j,
            Err(e) => {
                return Err(e);
            },
        };
        proof {
            lemma_proposal_at(*f, who@, proposal_id, j as int);
        }
        let price = f.proposals[j].price_yocto;
        let scaled = match price.checked_mul(PROPOSAL_REVOKE_PENALTY_RATE) {
            Some(x) => x,
            None => {
                return Err(MarketError::ArithmeticOverflow);
            },
        };
        let penalty = scaled / 100;
        let ghost old_self = *self;
        let (i, k, mut fpo) = match self.fpos.take(&key) {
            Ok(t) => t,
            Err(e) => {
                return Err(e);
            },
        };
        fpo.status = status;
        fpo.remove_proposal_at(j);
        self.fpos.put_back(i, k, fpo);
        proof {
            assert forall|k2: (Seq<char>, u64)| #[trigger] self.fpos.by_id@.contains_key(k2) implies self.fpos.by_id@[k2].wf() by {
                if k2 != key.key_view() {
                    assert(old_self.fpos.by_id@.contains_key(k2));
                }
            }
            assert(penalty <= price) by (nonlinear_arith)
                requires
                    penalty == price * 10 / 100,
            ;
        }
        Ok((
            Transfer { receiver_id: who.clone(), amount_yocto: price - penalty },
            Transfer { receiver_id: eneftigo_profit_account_id(), amount_yocto: penalty },
        ))
    }
}

/// The listing status an offering status stands for.
pub fn status_name(s: FixedPriceOfferingStatus) -> (r: crate::marketplace::status::ListingStatus)
    ensures
        r == s.as_listing_status(),
{
    match s {
        FixedPriceOfferingStatus::Unstarted => crate::marketplace::status::ListingStatus::Unstarted,
        FixedPriceOfferingStatus::Running => crate::marketplace::status::ListingStatus::Running,
        FixedPriceOfferingStatus::Ended => crate::marketplace::status::ListingStatus::Ended,
    }
}

} // verus!
