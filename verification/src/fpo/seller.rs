use vstd::prelude::*;
use crate::table::TableKey;
use crate::offer::sorted_worst_first;
use crate::context::{CallContext, CallResult, MakeCollectionCall, Transfer};
use crate::marketplace::book::{Listing, ListingBook};
use crate::marketplace::contract::MarketplaceContract;
use crate::marketplace::errors::MarketError;
use crate::marketplace::external::NftMetadata;
use crate::marketplace::schedule::{
    listing_schedule, compute_schedule, opt_view, title_and_media_check, check_title_and_media, byte_len,
    text_bytes, sub_account,
};
use crate::fpo::config::{
    TOTAL_SUPPLY_MAX, MIN_BUY_NOW_PRICE_YOCTO, PRICE_STEP_YOCTO, MAX_DURATION_NANO, IPFS_URL_LEN,
    FPO_ADD_WORST_CASE_MARKETPLACE_STORAGE, NEW_COLLECTION_WORST_CASE_NFT_STORAGE, NFT_MAKE_COLLECTION_GAS,
    NFT_MAKE_COLLECTION_COMPLETION_GAS,
};
use crate::fpo::offering::{
    FixedPriceOffering, FixedPriceOfferingProposal, FixedPriceOfferingStatus, OfferingId, fpo_status_at, advance_fpo_status,
    proposal_refunds, refund_proposals,
};

verus! {

broadcast use vstd::string::to_string_from_display_ensures_for_str;

/// What the completion of a new offering needs to create it.
pub struct FpoAddCompletion {
    pub nft_account_id: String,
    pub attached_deposit: u128,
    pub nft_metadata: NftMetadata,
    pub supply_total: u64,
    pub buy_now_price_yocto: u128,
    /// The lowest proposal; `None` when the offering takes no proposals.
    pub min_proposal_price_yocto: Option<u128>,
    pub start_timestamp: i64,
    pub end_timestamp: Option<i64>,
}

/// A new offering: the call that makes its collection, and the completion
/// that records the offering once the collection exists.
pub struct FpoAddRequest {
    pub make_collection: MakeCollectionCall,
    pub completion: FpoAddCompletion,
    pub completion_gas: u64,
}

/// Whether an offering may be added, and when it runs. The media must be an
/// IPFS URL; an offering that accepts proposals needs an end date and lasts
/// at most two weeks; once the arguments pass, a buy-now-only offering
/// (`min_proposal` is `None`) needs a deposit that covers the worst-case
/// storage.
pub open spec fn fpo_add_outcome(
    attached: u128,
    byte_cost: u128,
    title: Seq<char>,
    media: Seq<char>,
    supply_total: u64,
    price: u128,
    min_proposal: Option<u128>,
    start: Option<Seq<char>>,
    end: Option<Seq<char>>,
    now: i64,
) -> Result<(i64, Option<i64>), MarketError> {
    let worst = (FPO_ADD_WORST_CASE_MARKETPLACE_STORAGE + NEW_COLLECTION_WORST_CASE_NFT_STORAGE) * byte_cost;
    if title_and_media_check(title, media) is Some {
        Err(title_and_media_check(title, media).unwrap())
    } else if byte_len(media) != IPFS_URL_LEN {
        Err(MarketError::NotIpfsUrl)
    } else if !(0 < supply_total <= TOTAL_SUPPLY_MAX) {
        Err(MarketError::SupplyOutOfRange)
    } else if price < MIN_BUY_NOW_PRICE_YOCTO {
        Err(MarketError::PriceTooLow)
    } else if price % PRICE_STEP_YOCTO != 0 || (min_proposal matches Some(m) && m % PRICE_STEP_YOCTO != 0) {
        Err(MarketError::PriceNotMultipleOfStep)
    } else if min_proposal matches Some(m) && price <= m {
        Err(MarketError::MinProposalNotBelowPrice)
    } else {
        let schedule = if min_proposal is Some {
            listing_schedule(start, end, now, true, Some(MAX_DURATION_NANO), true)
        } else {
            listing_schedule(start, end, now, true, None, false)
        };
        if schedule is Err {
            schedule
        } else if min_proposal is None && worst > u128::MAX {
            Err(MarketError::ArithmeticOverflow)
        } else if min_proposal is None && attached < worst {
            Err(MarketError::AttachedDepositTooLow)
        } else {
            schedule
        }
    }
}

/// The request made when the checks pass: the whole attached deposit goes
/// to the NFT contract with the collection call.
pub open spec fn is_fpo_add_request(
    req: FpoAddRequest,
    ctx: CallContext,
    title: Seq<char>,
    media: Seq<char>,
    supply_total: u64,
    price: u128,
    min_proposal: Option<u128>,
    schedule: (i64, Option<i64>),
) -> bool {
    let nft = "nft."@ + ctx.current_account_id@;
    &&& req.make_collection.nft_contract_id@ == nft
    &&& req.make_collection.nft_metadata.is_title_and_media(title, media)
    &&& req.make_collection.max_supply == supply_total
    &&& req.make_collection.attached_deposit == ctx.attached_deposit
    &&& req.make_collection.gas == NFT_MAKE_COLLECTION_GAS
    &&& req.completion.nft_account_id@ == nft
    &&& req.completion.attached_deposit == ctx.attached_deposit
    &&& req.completion.nft_metadata.is_title_and_media(title, media)
    &&& req.completion.supply_total == supply_total
    &&& req.completion.buy_now_price_yocto == price
    &&& req.completion.min_proposal_price_yocto == min_proposal
    &&& req.completion.start_timestamp == schedule.0
    &&& req.completion.end_timestamp == schedule.1
    &&& req.completion_gas == NFT_MAKE_COLLECTION_COMPLETION_GAS
}

/// The offering the completion records for collection `collection_id`.
pub open spec fn is_new_fpo(f: FixedPriceOffering, args: FpoAddCompletion, collection_id: u64, offeror: Seq<char>) -> bool {
    &&& f.offering_id.nft_contract_id@ == args.nft_account_id@
    &&& f.offering_id.collection_id == collection_id
    &&& f.offeror_id@ == offeror
    &&& f.nft_metadata == args.nft_metadata
    &&& f.supply_total == args.supply_total
    &&& f.buy_now_price_yocto == args.buy_now_price_yocto
    &&& f.min_proposal_price_yocto == args.min_proposal_price_yocto
    &&& f.start_timestamp == Some(args.start_timestamp)
    &&& f.end_timestamp == args.end_timestamp
    &&& f.status == FixedPriceOfferingStatus::Unstarted
    &&& f.supply_left == args.supply_total
    &&& f.proposals@.len() == 0
    &&& f.next_proposal_id == 0
}

impl MarketplaceContract {
    fn prepare_fpo_add(
        &self,
        ctx: &CallContext,
        title: String,
        media_url: String,
        supply_total: u64,
        buy_now_price_yocto: u128,
        min_proposal_price_yocto: Option<u128>,
        start_date: Option<String>,
        end_date: Option<String>,
    ) -> (r: Result<FpoAddRequest, MarketError>)
        requires
            ctx.wf(),
        ensures
            ({
                let outcome = fpo_add_outcome(
                    ctx.attached_deposit,
                    ctx.storage_byte_cost,
                    title@,
                    media_url@,
                    supply_total,
                    buy_now_price_yocto,
                    min_proposal_price_yocto,
                    opt_view(start_date),
                    opt_view(end_date),
                    ctx.now(),
                );
                match r {
                    Err(e) => outcome == Err::<(i64, Option<i64>), MarketError>(e),
                    Ok(req) => outcome matches Ok(s) && is_fpo_add_request(
                        req,
                        *ctx,
                        title@,
                        media_url@,
                        supply_total,
                        buy_now_price_yocto,
                        min_proposal_price_yocto,
                        s,
                    ),
                }
            }),
    {
        if let Some(e) = check_title_and_media(&title, &media_url) {
            return Err(e);
        }
        if text_bytes(media_url.as_str()) != IPFS_URL_LEN as u64 {
            return Err(MarketError::NotIpfsUrl);
        }
        if !(0 < supply_total && supply_total <= TOTAL_SUPPLY_MAX) {
            return Err(MarketError::SupplyOutOfRange);
        }
        if buy_now_price_yocto < MIN_BUY_NOW_PRICE_YOCTO {
            return Err(MarketError::PriceTooLow);
        }
        let min_off_step = match min_proposal_price_yocto {
            Some(m) => m % PRICE_STEP_YOCTO != 0,
            None => false,
        };
        if buy_now_price_yocto % PRICE_STEP_YOCTO != 0 || min_off_step {
            return Err(MarketError::PriceNotMultipleOfStep);
        }
        if let Some(m) = min_proposal_price_yocto {
            if buy_now_price_yocto <= m {
                return Err(MarketError::MinProposalNotBelowPrice);
            }
        }
        let now = ctx.now_nanos();
        let schedule = if min_proposal_price_yocto.is_some() {
            compute_schedule(&start_date, &end_date, now, true, Some(MAX_DURATION_NANO), true)
        } else {
            compute_schedule(&start_date, &end_date, now, true, None, false)
        };
        let (start_timestamp, end_timestamp) = match schedule {
            Ok(s) => s,
            Err(e) => {
                return Err(e);
            },
        };
        if min_proposal_price_yocto.is_none() {
            let worst = match ((FPO_ADD_WORST_CASE_MARKETPLACE_STORAGE + NEW_COLLECTION_WORST_CASE_NFT_STORAGE) as u128)
                .checked_mul(ctx.storage_byte_cost) {
                Some(c) => c,
                None => {
                    return Err(MarketError::ArithmeticOverflow);
                },
            };
            if ctx.attached_deposit < worst {
                return Err(MarketError::AttachedDepositTooLow);
            }
        }
        let nft_contract_id = sub_account("nft.", &ctx.current_account_id);
        let nft_metadata = NftMetadata::new(title.as_str(), media_url.as_str());
        proof {
            reveal_strlit("nft.");
        }
        Ok(FpoAddRequest {
            make_collection: MakeCollectionCall {
                nft_contract_id: nft_contract_id.clone(),
                nft_metadata: nft_metadata.clone_metadata(),
                max_supply: supply_total,
                attached_deposit: ctx.attached_deposit,
                gas: NFT_MAKE_COLLECTION_GAS,
            },
            completion: FpoAddCompletion {
                nft_account_id: nft_contract_id,
                attached_deposit: ctx.attached_deposit,
                nft_metadata,
                supply_total,
                buy_now_price_yocto,
                min_proposal_price_yocto,
                start_timestamp,
                end_timestamp,
            },
            completion_gas: NFT_MAKE_COLLECTION_COMPLETION_GAS,
        })
    }

    /// Offers a new collection at a fixed price only. Nothing is stored yet:
    /// the request asks the NFT contract to make the collection.
    pub fn fpo_add_buy_now_only(
        &self,
        ctx: &CallContext,
        title: String,
        media_url: String,
        supply_total: u64,
        buy_now_price_yocto: u128,
        start_date: Option<String>,
        end_date: Option<String>,
    ) -> (r: Result<FpoAddRequest, MarketError>)
        requires
            ctx.wf(),
        ensures
            ({
                let outcome = fpo_add_outcome(
                    ctx.attached_deposit,
                    ctx.storage_byte_cost,
                    title@,
                    media_url@,
                    supply_total,
                    buy_now_price_yocto,
                    None,
                    opt_view(start_date),
                    opt_view(end_date),
                    ctx.now(),
                );
                match outcome {
                    Err(e) => r == Err::<FpoAddRequest, MarketError>(e),
                    Ok(s) => r matches Ok(req) && is_fpo_add_request(
                        req,
                        *ctx,
                        title@,
                        media_url@,
                        supply_total,
                        buy_now_price_yocto,
                        None,
                        s,
                    ),
                }
            }),
    {
        self.prepare_fpo_add(ctx, title, media_url, supply_total, buy_now_price_yocto, None, start_date, end_date)
    }

    /// Offers a new collection at a fixed price and accepting proposals from
    /// `min_proposal_price_yocto` on, until `end_date`.
    pub fn fpo_add_accepting_proposals(
        &self,
        ctx: &CallContext,
        title: String,
        media_url: String,
        supply_total: u64,
        buy_now_price_yocto: u128,
        min_proposal_price_yocto: u128,
        start_date: Option<String>,
        end_date: String,
    ) -> (r: Result<FpoAddRequest, MarketError>)
        requires
            ctx.wf(),
        ensures
            ({
                let outcome = fpo_add_outcome(
                    ctx.attached_deposit,
                    ctx.storage_byte_cost,
                    title@,
                    media_url@,
                    supply_total,
                    buy_now_price_yocto,
                    Some(min_proposal_price_yocto),
                    opt_view(start_date),
                    Some(end_date@),
                    ctx.now(),
                );
                match outcome {
                    Err(e) => r == Err::<FpoAddRequest, MarketError>(e),
                    Ok(s) => r matches Ok(req) && is_fpo_add_request(
                        req,
                        *ctx,
                        title@,
                        media_url@,
                        supply_total,
                        buy_now_price_yocto,
                        Some(min_proposal_price_yocto),
                        s,
                    ),
                }
            }),
    {
        self.prepare_fpo_add(
            ctx,
            title,
            media_url,
            supply_total,
            buy_now_price_yocto,
            Some(min_proposal_price_yocto),
            start_date,
            Some(end_date),
        )
    }

    /// Records the offering once the NFT contract made its collection; only
    /// the marketplace itself may call it. The offeror is the signer; the
    /// deposit must cover the storage of the collection and of the offering
    /// (`marketplace_storage_bytes`, as the runtime measured it), and the
    /// rest is refunded to the signer. Gives the collection id.
    pub fn fpo_add_make_collection_completion(
        &mut self,
        ctx: &CallContext,
        args: FpoAddCompletion,
        result: CallResult<(u64, u64)>,
        marketplace_storage_bytes: u64,
    ) -> (r: Result<(u64, Option<Transfer>), MarketError>)
        requires
            old(self).wf(),
        ensures
            final(self).wf(),
            r is Err ==> *final(self) == *old(self),
            ctx.predecessor_account_id@ != ctx.current_account_id@ ==> r == Err::<(u64, Option<Transfer>), MarketError>(
                MarketError::NotCrossContractCall,
            ),
            ctx.predecessor_account_id@ == ctx.current_account_id@ ==> match result {
                CallResult::NotReady => r == Err::<(u64, Option<Transfer>), MarketError>(MarketError::NftCallNotReady),
                CallResult::Failed => r == Err::<(u64, Option<Transfer>), MarketError>(MarketError::NftCallFailed),
                CallResult::Successful(None) => r == Err::<(u64, Option<Transfer>), MarketError>(
                    MarketError::UnexpectedNftResult,
                ),
                CallResult::Successful(Some((collection_id, nft_storage))) => {
                    let cost = (nft_storage + marketplace_storage_bytes) * ctx.storage_byte_cost;
                    let key = (args.nft_account_id@, collection_id);
                    if nft_storage + marketplace_storage_bytes > u64::MAX || cost > u128::MAX {
                        r == Err::<(u64, Option<Transfer>), MarketError>(MarketError::ArithmeticOverflow)
                    } else if args.attached_deposit < cost {
                        r == Err::<(u64, Option<Transfer>), MarketError>(MarketError::StorageNotCovered)
                    } else {
                        let refund = args.attached_deposit - cost;
                        &&& r matches Ok((id, t)) && id == collection_id && (refund > 0 ==> (t matches Some(tr)
                            && tr.receiver_id@ == ctx.signer_account_id@ && tr.amount_yocto == refund))
                            && (refund == 0 ==> t is None)
                        &&& final(self).fpos.by_id@ == old(self).fpos.by_id@.insert(key, final(self).fpos.by_id@[key])
                        &&& is_new_fpo(final(self).fpos.by_id@[key], args, collection_id, ctx.signer_account_id@)
                        &&& final(self).primary_listings == old(self).primary_listings
                        &&& final(self).secondary_listings == old(self).secondary_listings
                        &&& final(self).storage_deposits == old(self).storage_deposits
                    }
                },
            },
    {
        if ctx.predecessor_account_id != ctx.current_account_id {
            return Err(MarketError::NotCrossContractCall);
        }
        let (collection_id, nft_storage) = match result {
            CallResult::NotReady => {
                return Err(MarketError::NftCallNotReady);
            },
            CallResult::Failed => {
                return Err(MarketError::NftCallFailed);
            },
            CallResult::Successful(None) => {
                return Err(MarketError::UnexpectedNftResult);
            },
            CallResult::Successful(Some(v)) => v,
        };
        let bytes = match nft_storage.checked_add(marketplace_storage_bytes) {
            Some(b) => b,
            None => {
                return Err(MarketError::ArithmeticOverflow);
            },
        };
        let cost = match (bytes as u128).checked_mul(ctx.storage_byte_cost) {
            Some(c) => c,
            None => {
                return Err(MarketError::ArithmeticOverflow);
            },
        };
        if args.attached_deposit < cost {
            return Err(MarketError::StorageNotCovered);
        }
        let ghost old_self = *self;
        let fpo = FixedPriceOffering {
            offering_id: OfferingId { nft_contract_id: args.nft_account_id, collection_id },
            offeror_id: ctx.signer_account_id.clone(),
            nft_metadata: args.nft_metadata,
            supply_total: args.supply_total,
            buy_now_price_yocto: args.buy_now_price_yocto,
            min_proposal_price_yocto: args.min_proposal_price_yocto,
            start_timestamp: Some(args.start_timestamp),
            end_timestamp: args.end_timestamp,
            status: FixedPriceOfferingStatus::Unstarted,
            supply_left: args.supply_total,
            proposals: Vec::new(),
            next_proposal_id: 0,
        };
        self.fpos.add(fpo);
        proof {
            assert forall|k: (Seq<char>, u64)| #[trigger] self.fpos.by_id@.contains_key(k) implies self.fpos.by_id@[k].wf() by {
                if k != (args.nft_account_id@, collection_id) {
                    assert(old_self.fpos.by_id@.contains_key(k));
                }
            }
        }
        let refund_amount = args.attached_deposit - cost;
        let refund = if refund_amount > 0 {
            Some(Transfer { receiver_id: ctx.signer_account_id.clone(), amount_yocto: refund_amount })
        } else {
            None
        };
        Ok((collection_id, refund))
    }

    /// The offeror accepts its `accepted_proposals_count` best proposals:
    /// they leave the offering and as many tokens leave its supply. Gives the
    /// accepted proposals, worst first.
    pub fn fpo_accept_proposals(
        &mut self,
        ctx: &CallContext,
        nft_contract_id: String,
        collection_id: u64,
        accepted_proposals_count: u64,
    ) -> (r: Result<Vec<FixedPriceOfferingProposal>, MarketError>)
        requires
            old(self).wf(),
        ensures
            final(self).wf(),
            r is Err ==> *final(self) == *old(self),
            ({
                let k = (nft_contract_id@, collection_id);
                let book = old(self).fpos.by_id@;
                if !book.contains_key(k) {
                    r == Err::<Vec<FixedPriceOfferingProposal>, MarketError>(MarketError::ListingNotFound)
                } else if ctx.predecessor_account_id@ != book[k].offeror_id@ {
                    r == Err::<Vec<FixedPriceOfferingProposal>, MarketError>(MarketError::NotSeller)
                } else if book[k].proposals@.len() < accepted_proposals_count {
                    r == Err::<Vec<FixedPriceOfferingProposal>, MarketError>(MarketError::NotEnoughProposals)
                } else if book[k].supply_left < accepted_proposals_count {
                    r == Err::<Vec<FixedPriceOfferingProposal>, MarketError>(MarketError::ArithmeticOverflow)
                } else {
                    let f = book[k];
                    let kept = f.proposals@.len() - accepted_proposals_count;
                    &&& r matches Ok(accepted) && accepted@ == f.proposals@.skip(kept)
                    &&& final(self).fpos.by_id@ == book.insert(k, FixedPriceOffering {
                        supply_left: (f.supply_left - accepted_proposals_count) as u64,
                        proposals: final(self).fpos.by_id@[k].proposals,
                        ..f
                    })
                    &&& final(self).fpos.by_id@[k].proposals@ == f.proposals@.take(kept)
                    &&& final(self).primary_listings == old(self).primary_listings
                    &&& final(self).secondary_listings == old(self).secondary_listings
                    &&& final(self).storage_deposits == old(self).storage_deposits
                }
            }),
    {
        let key = OfferingId { nft_contract_id, collection_id };
        let (offeror, len, supply_left) = match self.fpos.get(&key) {
            None => {
                return Err(MarketError::ListingNotFound);
            },
            Some(f) => (f.offeror_id.clone(), f.proposals.len() as u64, f.supply_left),
        };
        if ctx.predecessor_account_id != offeror {
            return Err(MarketError::NotSeller);
        }
        if len < accepted_proposals_count {
            return Err(MarketError::NotEnoughProposals);
        }
        if supply_left < accepted_proposals_count {
            return Err(MarketError::ArithmeticOverflow);
        }
        let ghost old_self = *self;
        let (i, k, mut fpo) = match self.fpos.take(&key) {
            Ok(t) => t,
            Err(e) => {
                return Err(e);
            },
        };
        let ghost f0 = fpo;
        let kept = (len - accepted_proposals_count) as usize;
        let accepted = fpo.proposals.split_off(kept);
        fpo.supply_left = supply_left - accepted_proposals_count;
        proof {
            assert(fpo.proposals@ =~= f0.proposals@.take(kept as int));
            assert(accepted@ =~= f0.proposals@.skip(kept as int));
            assert(fpo.wf()) by {
                assert forall|i: int, j: int| 0 <= i < j < fpo.proposals@.len() implies
                    crate::offer::worst_first(#[trigger] fpo.proposals@[i], #[trigger] fpo.proposals@[j]) by {
                    assert(fpo.proposals@[i] == f0.proposals@[i] && fpo.proposals@[j] == f0.proposals@[j]);
                }
                assert forall|i: int| 0 <= i < fpo.proposals@.len() implies #[trigger] fpo.proposals@[i].id
                    < fpo.next_proposal_id by {
                    assert(fpo.proposals@[i] == f0.proposals@[i]);
                }
                assert forall|i: int, j: int| 0 <= i < j < fpo.proposals@.len() implies #[trigger] fpo.proposals@[i].id
                    != #[trigger] fpo.proposals@[j].id by {
                    assert(fpo.proposals@[i] == f0.proposals@[i] && fpo.proposals@[j] == f0.proposals@[j]);
                }
            }
        }
        self.fpos.put_back(i, k, fpo);
        proof {
            assert forall|k: (Seq<char>, u64)| #[trigger] self.fpos.by_id@.contains_key(k) implies self.fpos.by_id@[k].wf() by {
                if k != key.key_view() {
                    assert(old_self.fpos.by_id@.contains_key(k));
                }
            }
        }
        Ok(accepted)
    }

    /// The offeror withdraws its offering; an offering with an end date
    /// cannot be withdrawn while it runs. The offeror is refunded the storage
    /// the offering released (`freed_storage_bytes`, as the runtime measured
    /// it) and every standing proposal its deposit.
    pub fn fpo_conclude(
        &mut self,
        ctx: &CallContext,
        nft_contract_id: String,
        collection_id: u64,
        freed_storage_bytes: u64,
    ) -> (r: Result<(Option<Transfer>, Vec<Transfer>), MarketError>)
        requires
            old(self).wf(),
            ctx.wf(),
        ensures
            final(self).wf(),
            r is Err ==> *final(self) == *old(self),
            ({
                let k = (nft_contract_id@, collection_id);
                let book = old(self).fpos.by_id@;
                let refund = freed_storage_bytes * ctx.storage_byte_cost;
                if !book.contains_key(k) {
                    r == Err::<(Option<Transfer>, Vec<Transfer>), MarketError>(MarketError::ListingNotFound)
                } else {
                    let f = book[k];
                    let status = fpo_status_at(f.status, f.supply_left, f.start_timestamp, f.end_timestamp, ctx.now());
                    if f.end_timestamp is Some && status == FixedPriceOfferingStatus::Running {
                        r == Err::<(Option<Transfer>, Vec<Transfer>), MarketError>(MarketError::CannotConcludeRunning)
                    } else if ctx.predecessor_account_id@ != f.offeror_id@ {
                        r == Err::<(Option<Transfer>, Vec<Transfer>), MarketError>(MarketError::NotSeller)
                    } else if refund > u128::MAX {
                        r == Err::<(Option<Transfer>, Vec<Transfer>), MarketError>(MarketError::ArithmeticOverflow)
                    } else {
                        &&& r matches Ok((seller_refund, refunds)) && (refund > 0 ==> (seller_refund matches Some(t)
                            && t.receiver_id@ == f.offeror_id@ && t.amount_yocto == refund)) && (refund == 0
                            ==> seller_refund is None) && proposal_refunds(refunds@, f.proposals@)
                        &&& ListingBook::key_removed(old(self).fpos, final(self).fpos, k)
                        &&& final(self).primary_listings == old(self).primary_listings
                        &&& final(self).secondary_listings == old(self).secondary_listings
                        &&& final(self).storage_deposits == old(self).storage_deposits
                    }
                }
            }),
    {
        let key = OfferingId { nft_contract_id, collection_id };
        let (running_with_end, offeror) = match self.fpos.get(&key) {
            None => {
                return Err(MarketError::ListingNotFound);
            },
            Some(f) => {
                let status = advance_fpo_status(f.status, f.supply_left, f.start_timestamp, f.end_timestamp, ctx.now_nanos());
                (f.end_timestamp.is_some() && status == FixedPriceOfferingStatus::Running, f.offeror_id.clone())
            },
        };
        if running_with_end {
            return Err(MarketError::CannotConcludeRunning);
        }
        if ctx.predecessor_account_id != offeror {
            return Err(MarketError::NotSeller);
        }
        let refund_amount = match (freed_storage_bytes as u128).checked_mul(ctx.storage_byte_cost) {
            Some(c) => c,
            None => {
                return Err(MarketError::ArithmeticOverflow);
            },
        };
        let ghost old_self = *self;
        let removed = match self.fpos.remove(&key) {
            Ok(f) => f,
            Err(e) => {
                return Err(e);
            },
        };
        proof {
            assert forall|k: (Seq<char>, u64)| #[trigger] self.fpos.by_id@.contains_key(k) implies self.fpos.by_id@[k].wf() by {
                assert(old_self.fpos.by_id@.contains_key(k));
            }
        }
        let seller_refund = if refund_amount > 0 {
            Some(Transfer { receiver_id: removed.offeror_id.clone(), amount_yocto: refund_amount })
        } else {
            None
        };
        let refunds = refund_proposals(&removed.proposals);
        Ok((seller_refund, refunds))
    }
}

} // verus!
