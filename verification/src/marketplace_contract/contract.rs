use vstd::prelude::*;
use crate::table::{LookupTable, TableKey};
use crate::offer::{sorted_worst_first, worst_first};
use crate::context::{CallContext, Transfer};
use crate::parsing::{parse_rfc3339_nanos, rfc3339_timestamp_nanos};
use crate::marketplace::errors::MarketError;
use crate::marketplace::schedule::opt_view;
use crate::nft::contract::{owns, index_wf};
use crate::nft::metadata::TokenMetadata;
use crate::nft::owners::{add_token_to_owner, remove_token_from_owner};
use crate::nft::text::{decimal, decimal_string};
use crate::marketplace_contract::fpo::{
    FixedPriceOffering, FixedPriceOfferingProposal, NFT_TOTAL_SUPPLY_MAX, FPO_MIN_PRICE_YOCTO,
    FPO_PRICE_STEP_YOCTO, FPO_PROPOSAL_DEPOSIT_RATE, deposit_refunds, proposal_deposit,
};

verus! {

broadcast use {
    vstd::string::to_string_from_display_ensures_for_str,
    vstd::seq_lib::group_to_multiset_ensures,
    vstd::multiset::group_multiset_axioms,
};

/// Gas attached to the mint of a purchased token.
pub const GAS_FOR_NFT_MINT: u64 = 15_000_000_000_000;

/// Nanoseconds in a day.
pub const NANOS_PER_DAY: i64 = 86_400_000_000_000;

/// The marketplace: one offering per NFT contract, and the NFT contracts
/// each offeror offers.
pub struct MarketplaceContract {
    pub owner_id: String,
    pub fpos_by_contract_id: LookupTable<String, FixedPriceOffering>,
    pub fpos_by_offeror_id: LookupTable<String, LookupTable<String, ()>>,
}

impl MarketplaceContract {
    /// Every offering is stored under its NFT contract and listed under its
    /// offeror.
    pub open spec fn wf(&self) -> bool {
        &&& self.fpos_by_contract_id.wf()
        &&& index_wf(self.fpos_by_offeror_id)
        &&& forall|c: Seq<char>| #[trigger] self.fpos_by_contract_id@.contains_key(c) ==> {
            &&& self.fpos_by_contract_id@[c].wf()
            &&& self.fpos_by_contract_id@[c].nft_contract_id@ == c
            &&& owns(self.fpos_by_offeror_id@, self.fpos_by_contract_id@[c].offeror_id@, c)
        }
    }

    /// A marketplace with no offerings.
    pub fn new(owner_id: String) -> (c: MarketplaceContract)
        ensures
            c.wf(),
            c.owner_id == owner_id,
            c.fpos_by_contract_id@.is_empty(),
            c.fpos_by_offeror_id@.is_empty(),
    {
        MarketplaceContract {
            owner_id,
            fpos_by_contract_id: LookupTable::new(),
            fpos_by_offeror_id: LookupTable::new(),
        }
    }

    /// Lists `nft_contract_id` among the offerings of `offeror_id`.
    pub fn internal_add_fpo_to_offeror(&mut self, offeror_id: &String, nft_contract_id: &String)
        requires
            index_wf(old(self).fpos_by_offeror_id),
        ensures
            index_wf(final(self).fpos_by_offeror_id),
            forall|o: Seq<char>, c: Seq<char>|
                #![trigger owns(final(self).fpos_by_offeror_id@, o, c)]
                owns(final(self).fpos_by_offeror_id@, o, c) <==> (owns(old(self).fpos_by_offeror_id@, o, c) || (o
                    == offeror_id@ && c == nft_contract_id@)),
            final(self).fpos_by_contract_id == old(self).fpos_by_contract_id,
            final(self).owner_id == old(self).owner_id,
    {
        add_token_to_owner(&mut self.fpos_by_offeror_id, offeror_id, nft_contract_id);
    }

    /// How many offerings there are.
    pub fn fpo_total_supply(&self) -> (n: u128)
        requires
            self.wf(),
        ensures
            n == self.fpos_by_contract_id@.len(),
    {
        proof {
            self.fpos_by_contract_id.lemma_map_len();
        }
        self.fpos_by_contract_id.len() as u128
    }
}

/// The days of a duration as the listing reads them: the number taken as a
/// signed 64-bit integer.
pub open spec fn signed_days(d: u64) -> int {
    if d <= i64::MAX {
        d as int
    } else {
        d - 0x1_0000_0000_0000_0000
    }
}

/// The end of an offering that lasts `days` from `now`, in nanoseconds,
/// when it can be told in nanoseconds since 1970-01-01 as an `i64`.
pub open spec fn end_after_days(now: i64, days: u64) -> Option<i64> {
    let e = now + signed_days(days) * NANOS_PER_DAY;
    if i64::MIN <= e <= i64::MAX {
        Some(e as i64)
    } else {
        None
    }
}

/// Computes [`end_after_days`].
pub fn compute_end_after_days(now: i64, days: u64) -> (r: Option<i64>)
    ensures
        r == end_after_days(now, days),
{
    let d: i128 = if days <= i64::MAX as u64 {
        days as i128
    } else {
        days as i128 - 0x1_0000_0000_0000_0000i128
    };
    proof {
        assert(d * NANOS_PER_DAY <= 0x1_0000_0000_0000_0000 * 86_400_000_000_000) by (nonlinear_arith)
            requires
                d <= 0x1_0000_0000_0000_0000,
        ;
        assert(d * NANOS_PER_DAY >= -0x1_0000_0000_0000_0000 * 86_400_000_000_000) by (nonlinear_arith)
            requires
                d >= -0x1_0000_0000_0000_0000,
        ;
    }
    let e: i128 = now as i128 + d * (NANOS_PER_DAY as i128);
    if i64::MIN as i128 <= e && e <= i64::MAX as i128 {
        Some(e as i64)
    } else {
        None
    }
}

/// When an offering ends: after a number of days, or at a date that must
/// lie ahead, or never; not both a duration and a date.
pub open spec fn fpo_end(now: i64, duration_days: Option<u64>, end_date: Option<Seq<char>>) -> Result<Option<i64>, MarketError> {
    match duration_days {
        Some(d) => if end_date is Some {
            Err(MarketError::DurationAndEndDate)
        } else {
            match end_after_days(now, d) {
                Some(e) => Ok(Some(e)),
                None => Err(MarketError::ArithmeticOverflow),
            }
        },
        None => match end_date {
            None => Ok(None),
            Some(s) => match rfc3339_timestamp_nanos(s) {
                None => Err(MarketError::WrongDateFormat),
                Some(e) => if e > now {
                    Ok(Some(e))
                } else {
                    Err(MarketError::EndDateInThePast)
                },
            },
        },
    }
}

/// Why an offering cannot be listed, in the order the checks are made;
/// otherwise when it ends.
pub open spec fn fpo_list_outcome(
    c: MarketplaceContract,
    ctx: CallContext,
    nft_contract_id: Seq<char>,
    supply_total: u64,
    price: u128,
    min_proposal: u128,
    duration_days: Option<u64>,
    end_date: Option<Seq<char>>,
    storage_usage: u64,
) -> Result<Option<i64>, MarketError> {
    let cost = storage_usage * ctx.storage_byte_cost;
    if ctx.predecessor_account_id@ != c.owner_id@ {
        Err(MarketError::NotMarketplaceOwner)
    } else if !(0 < supply_total <= NFT_TOTAL_SUPPLY_MAX) {
        Err(MarketError::SupplyOutOfRange)
    } else if c.fpos_by_contract_id@.contains_key(nft_contract_id) {
        Err(MarketError::AlreadyListed)
    } else if price < FPO_MIN_PRICE_YOCTO {
        Err(MarketError::PriceTooLow)
    } else if price % FPO_PRICE_STEP_YOCTO != 0 || min_proposal % FPO_PRICE_STEP_YOCTO != 0 {
        Err(MarketError::PriceNotMultipleOfStep)
    } else {
        match fpo_end(ctx.block_timestamp as i64, duration_days, end_date) {
            Err(e) => Err(e),
            Ok(end) => if cost > u128::MAX {
                Err(MarketError::ArithmeticOverflow)
            } else if ctx.attached_deposit < cost {
                Err(MarketError::AttachedDepositTooLow)
            } else {
                Ok(end)
            },
        }
    }
}

impl MarketplaceContract {
    /// Lists an offering of the tokens of `nft_contract_id`; only the
    /// marketplace owner may. The attached deposit must cover the storage
    /// the offering took (`storage_usage`, as the runtime measured it); a
    /// rest above one yoctoNear is refunded to the caller.
    pub fn fpo_list(
        &mut self,
        ctx: &CallContext,
        nft_contract_id: String,
        offeror_id: String,
        supply_total: u64,
        buy_now_price_yocto: u128,
        min_proposal_price_yocto: u128,
        nft_metadata: TokenMetadata,
        duration_days: Option<u64>,
        end_date: Option<String>,
        storage_usage: u64,
    ) -> (r: Result<Option<Transfer>, MarketError>)
        requires
            old(self).wf(),
            ctx.wf(),
        ensures
            final(self).wf(),
            r is Err ==> *final(self) == *old(self),
            match fpo_list_outcome(
                *old(self),
                *ctx,
                nft_contract_id@,
                supply_total,
                buy_now_price_yocto,
                min_proposal_price_yocto,
                duration_days,
                opt_view(end_date),
                storage_usage,
            ) {
                Err(e) => r == Err::<Option<Transfer>, MarketError>(e),
                Ok(end) => {
                    let f = final(self).fpos_by_contract_id@[nft_contract_id@];
                    let refund = ctx.attached_deposit - storage_usage * ctx.storage_byte_cost;
                    &&& r matches Ok(t) && (refund > 1 ==> (t matches Some(tr)
                        && tr.receiver_id@ == ctx.predecessor_account_id@ && tr.amount_yocto == refund))
                        && (refund <= 1 ==> t is None)
                    &&& final(self).fpos_by_contract_id@ == old(self).fpos_by_contract_id@.insert(nft_contract_id@, f)
                    &&& f.nft_contract_id@ == nft_contract_id@
                    &&& f.offeror_id@ == offeror_id@
                    &&& f.supply_total == supply_total
                    &&& f.buy_now_price_yocto == buy_now_price_yocto
                    &&& f.min_proposal_price_yocto == min_proposal_price_yocto
                    &&& f.end_timestamp == end
                    &&& f.nft_metadata == nft_metadata
                    &&& f.supply_left == supply_total
                    &&& f.proposals@.is_empty()
                    &&& f.winning_proposals@.len() == 0
                    &&& f.next_proposal_id == 0
                    &&& forall|o: Seq<char>, c: Seq<char>|
                        #![trigger owns(final(self).fpos_by_offeror_id@, o, c)]
                        owns(final(self).fpos_by_offeror_id@, o, c) <==> (owns(old(self).fpos_by_offeror_id@, o, c)
                            || (o == offeror_id@ && c == nft_contract_id@))
                    &&& final(self).owner_id == old(self).owner_id
                },
            },
    {
        if ctx.predecessor_account_id != self.owner_id {
            return Err(MarketError::NotMarketplaceOwner);
        }
        if !(0 < supply_total && supply_total <= NFT_TOTAL_SUPPLY_MAX) {
            return Err(MarketError::SupplyOutOfRange);
        }
        if self.fpos_by_contract_id.contains_key(&nft_contract_id) {
            return Err(MarketError::AlreadyListed);
        }
        if buy_now_price_yocto < FPO_MIN_PRICE_YOCTO {
            return Err(MarketError::PriceTooLow);
        }
        if buy_now_price_yocto % FPO_PRICE_STEP_YOCTO != 0 || min_proposal_price_yocto % FPO_PRICE_STEP_YOCTO != 0 {
            return Err(MarketError::PriceNotMultipleOfStep);
        }
        let now = ctx.now_nanos();
        let end_timestamp: Option<i64> = match duration_days {
            Some(d) => {
                if end_date.is_some() {
                    return Err(MarketError::DurationAndEndDate);
                }
                match compute_end_after_days(now, d) {
                    Some(e) => Some(e),
                    None => {
                        return Err(MarketError::ArithmeticOverflow);
                    },
                }
            },
            None => match &end_date {
                None => None,
                Some(s) => match parse_rfc3339_nanos(s.as_str()) {
                    None => {
                        return Err(MarketError::WrongDateFormat);
                    },
                    Some(e) => {
                        if e > now {
                            Some(e)
                        } else {
                            return Err(MarketError::EndDateInThePast);
                        }
                    },
                },
            },
        };
        let cost = match (storage_usage as u128).checked_mul(ctx.storage_byte_cost) {
            Some(c) => c,
            None => {
                return Err(MarketError::ArithmeticOverflow);
            },
        };
        if ctx.attached_deposit < cost {
            return Err(MarketError::AttachedDepositTooLow);
        }
        let ghost old_self = *self;
        let fpo = FixedPriceOffering {
            nft_contract_id: nft_contract_id.key_clone(),
            offeror_id: offeror_id.key_clone(),
            supply_total,
            buy_now_price_yocto,
            min_proposal_price_yocto,
            end_timestamp,
            nft_metadata,
            supply_left: supply_total,
            proposals: LookupTable::new(),
            winning_proposals: Vec::new(),
            next_proposal_id: 0,
        };
        self.fpos_by_contract_id.insert(nft_contract_id.key_clone(), fpo);
        self.internal_add_fpo_to_offeror(&offeror_id, &nft_contract_id);
        proof {
            assert forall|c: Seq<char>| #[trigger] self.fpos_by_contract_id@.contains_key(c) implies {
                &&& self.fpos_by_contract_id@[c].wf()
                &&& self.fpos_by_contract_id@[c].nft_contract_id@ == c
                &&& owns(self.fpos_by_offeror_id@, self.fpos_by_contract_id@[c].offeror_id@, c)
            } by {
                if c != nft_contract_id@ {
                    assert(old_self.fpos_by_contract_id@.contains_key(c));
                    assert(owns(old_self.fpos_by_offeror_id@, old_self.fpos_by_contract_id@[c].offeror_id@, c));
                }
            }
        }
        let refund = ctx.attached_deposit - cost;
        if refund > 1 {
            Ok(Some(Transfer { receiver_id: ctx.predecessor_account_id.clone(), amount_yocto: refund }))
        } else {
            Ok(None)
        }
    }
}

/// The mint of a purchased token: it is numbered after the supply left and
/// carries the placeholder metadata the purchase is made with.
pub struct FpoMintCall {
    pub nft_contract_id: String,
    pub token_id: String,
    pub metadata: TokenMetadata,
    pub receiver_id: String,
    pub attached_deposit: u128,
    pub gas: u64,
}

/// A purchase: the mint, then the resolution of the purchase on this
/// contract, and the refund of the deposit above the price.
pub struct FpoPurchaseRequest {
    pub mint: FpoMintCall,
    pub resolve_nft_contract_id: String,
    pub resolve_gas: u64,
    pub surplus_refund: Option<Transfer>,
}

/// The metadata a purchase mints with: a placeholder title, one copy.
pub open spec fn is_purchase_metadata(m: TokenMetadata) -> bool {
    &&& m.title matches Some(t) && t@ == "test"@
    &&& m.description is None
    &&& m.media is None
    &&& m.media_hash is None
    &&& m.copies == Some(1u64)
    &&& m.issued_at is None
    &&& m.expires_at is None
    &&& m.starts_at is None
    &&& m.updated_at is None
    &&& m.extra is None
    &&& m.reference is None
    &&& m.reference_hash is None
}

fn purchase_metadata() -> (m: TokenMetadata)
    ensures
        is_purchase_metadata(m),
{
    TokenMetadata {
        title: Some("test".to_string()),
        description: None,
        media: None,
        media_hash: None,
        copies: Some(1),
        issued_at: None,
        expires_at: None,
        starts_at: None,
        updated_at: None,
        extra: None,
        reference: None,
        reference_hash: None,
    }
}

/// The lowest price a new proposal must offer: the minimum while fewer
/// proposals win than tokens are left, otherwise one step above the worst
/// winning proposal.
pub open spec fn min_accepted_price(f: FixedPriceOffering) -> int {
    if f.winning_proposals@.len() < f.supply_left {
        f.min_proposal_price_yocto as int
    } else {
        f.winning_proposals@[0].price_yocto + FPO_PRICE_STEP_YOCTO
    }
}

/// Why a proposal of `price` is refused.
pub open spec fn old_place_error(f: FixedPriceOffering, ctx: CallContext, price: u128) -> Option<MarketError> {
    if f.supply_left == 0 {
        Some(MarketError::NoSupplyLeft)
    } else if price % FPO_PRICE_STEP_YOCTO != 0 {
        Some(MarketError::BidNotMultipleOfStep)
    } else if price * FPO_PROPOSAL_DEPOSIT_RATE > u128::MAX {
        Some(MarketError::ArithmeticOverflow)
    } else if ctx.attached_deposit < price * FPO_PROPOSAL_DEPOSIT_RATE / 100 {
        Some(MarketError::AttachedDepositTooLow)
    } else if min_accepted_price(f) > u128::MAX {
        Some(MarketError::ArithmeticOverflow)
    } else if price < min_accepted_price(f) {
        Some(MarketError::BidTooLow)
    } else if f.next_proposal_id == u128::MAX {
        Some(MarketError::ArithmeticOverflow)
    } else {
        None
    }
}

/// A proposal is taken only with its deposit attached, and that deposit is
/// a tenth of its price, rounded down: the deposit a losing proposal gets
/// back (`proposal_deposit`) is exactly what placing it asked for, no more
/// and no less.
pub proof fn lemma_losing_refund_is_placed_deposit(f: FixedPriceOffering, ctx: CallContext, price: u128)
    ensures
        old_place_error(f, ctx, price) is None ==> proposal_deposit(price) <= ctx.attached_deposit,
        f.supply_left > 0 && price % FPO_PRICE_STEP_YOCTO == 0 && price * FPO_PROPOSAL_DEPOSIT_RATE <= u128::MAX
            && ctx.attached_deposit < proposal_deposit(price) ==> old_place_error(f, ctx, price) == Some(
            MarketError::AttachedDepositTooLow,
        ),
        10 * proposal_deposit(price) <= price,
        price < 10 * proposal_deposit(price) + 10,
{
}

/// Once every token left has a winning proposal, a proposal is taken only
/// when it beats the worst winner by at least a step; and the proposals that
/// win afterwards (the others and the new one) never fall below that worst
/// winner: the price to beat never drops.
pub proof fn lemma_accepted_proposal_outbids_worst(
    f: FixedPriceOffering,
    ctx: CallContext,
    price: u128,
    new_p: FixedPriceOfferingProposal,
    new_winners: Seq<FixedPriceOfferingProposal>,
)
    requires
        f.wf(),
        old_place_error(f, ctx, price) is None,
        f.winning_proposals@.len() >= f.supply_left,
        new_p.price_yocto == price,
        new_winners.to_multiset() == f.winning_proposals@.drop_first().to_multiset().insert(new_p),
    ensures
        f.winning_proposals@.len() > 0,
        price >= f.winning_proposals@[0].price_yocto + FPO_PRICE_STEP_YOCTO,
        forall|i: int| 0 <= i < new_winners.len() ==> #[trigger] new_winners[i].price_yocto
            >= f.winning_proposals@[0].price_yocto,
{
    broadcast use {vstd::seq_lib::group_to_multiset_ensures, vstd::multiset::group_multiset_axioms};

    let ws = f.winning_proposals@;
    assert forall|i: int| 0 <= i < new_winners.len() implies #[trigger] new_winners[i].price_yocto
        >= ws[0].price_yocto by {
        let x = new_winners[i];
        assert(new_winners.contains(x));
        assert(new_winners.to_multiset().count(x) > 0);
        if x != new_p {
            assert(ws.drop_first().to_multiset().count(x) > 0);
            assert(ws.drop_first().contains(x));
            let j = choose|j: int| 0 <= j < ws.drop_first().len() && ws.drop_first()[j] == x;
            assert(ws[j + 1] == x);
            assert(worst_first(ws[0], ws[j + 1]));
        }
    }
}

impl MarketplaceContract {
    /// Buys a token at the buy-now price; only the marketplace owner may, on
    /// a buyer's behalf. Nothing changes here: the token is minted and the
    /// purchase resolved afterwards.
    pub fn fpo_buy(&self, ctx: &CallContext, nft_contract_id: String) -> (r: Result<FpoPurchaseRequest, MarketError>)
        requires
            self.wf(),
        ensures
            ({
                let fs = self.fpos_by_contract_id@;
                if ctx.predecessor_account_id@ != self.owner_id@ {
                    r == Err::<FpoPurchaseRequest, MarketError>(MarketError::NotMarketplaceOwner)
                } else if !fs.contains_key(nft_contract_id@) {
                    r == Err::<FpoPurchaseRequest, MarketError>(MarketError::ListingNotFound)
                } else if fs[nft_contract_id@].supply_left == 0 {
                    r == Err::<FpoPurchaseRequest, MarketError>(MarketError::NoSupplyLeft)
                } else if ctx.attached_deposit < fs[nft_contract_id@].buy_now_price_yocto {
                    r == Err::<FpoPurchaseRequest, MarketError>(MarketError::AttachedDepositTooLow)
                } else {
                    let f = fs[nft_contract_id@];
                    let surplus = ctx.attached_deposit - f.buy_now_price_yocto;
                    r matches Ok(req) && {
                        &&& req.mint.nft_contract_id@ == nft_contract_id@
                        &&& req.mint.token_id@ == decimal(f.supply_left as nat)
                        &&& is_purchase_metadata(req.mint.metadata)
                        &&& req.mint.receiver_id@ == ctx.predecessor_account_id@
                        &&& req.mint.attached_deposit == 1
                        &&& req.mint.gas == GAS_FOR_NFT_MINT
                        &&& req.resolve_nft_contract_id@ == nft_contract_id@
                        &&& req.resolve_gas == GAS_FOR_NFT_MINT
                        &&& (surplus > 0 ==> (req.surplus_refund matches Some(t)
                            && t.receiver_id@ == ctx.predecessor_account_id@ && t.amount_yocto == surplus))
                        &&& (surplus == 0 ==> req.surplus_refund is None)
                    }
                }
            }),
    {
        if ctx.predecessor_account_id != self.owner_id {
            return Err(MarketError::NotMarketplaceOwner);
        }
        let f = match self.fpos_by_contract_id.get(&nft_contract_id) {
            None => {
                return Err(MarketError::ListingNotFound);
            },
            Some(f) => f,
        };
        if f.supply_left == 0 {
            return Err(MarketError::NoSupplyLeft);
        }
        if ctx.attached_deposit < f.buy_now_price_yocto {
            return Err(MarketError::AttachedDepositTooLow);
        }
        let surplus = ctx.attached_deposit - f.buy_now_price_yocto;
        let surplus_refund = if surplus > 0 {
            Some(Transfer { receiver_id: ctx.predecessor_account_id.clone(), amount_yocto: surplus })
        } else {
            None
        };
        Ok(FpoPurchaseRequest {
            mint: FpoMintCall {
                nft_contract_id: nft_contract_id.clone(),
                token_id: decimal_string(f.supply_left),
                metadata: purchase_metadata(),
                receiver_id: ctx.predecessor_account_id.clone(),
                attached_deposit: 1,
                gas: GAS_FOR_NFT_MINT,
            },
            resolve_nft_contract_id: nft_contract_id,
            resolve_gas: GAS_FOR_NFT_MINT,
            surplus_refund,
        })
    }

    /// Places a winning proposal of `price_yocto`, whose deposit (a tenth of
    /// the price) must be attached. When as many proposals win as tokens are
    /// left, the worst one stops winning; the proposals recorded by id are
    /// kept as they were.
    pub fn fpo_place_proposal(&mut self, ctx: &CallContext, nft_contract_id: String, price_yocto: u128) -> (r: Result<
        (),
        MarketError,
    >)
        requires
            old(self).wf(),
        ensures
            final(self).wf(),
            r is Err ==> *final(self) == *old(self),
            r is Ok ==> ({
                let f = old(self).fpos_by_contract_id@[nft_contract_id@];
                let ws = f.winning_proposals@;
                &&& old(self).fpos_by_contract_id@.contains_key(nft_contract_id@)
                &&& ctx.attached_deposit >= price_yocto * FPO_PROPOSAL_DEPOSIT_RATE / 100
                &&& ws.len() >= f.supply_left ==> ws.len() > 0 && price_yocto > ws[0].price_yocto
                &&& ws.len() < f.supply_left ==> price_yocto >= f.min_proposal_price_yocto
            }),
            ({
                let fs = old(self).fpos_by_contract_id@;
                let c = nft_contract_id@;
                if !fs.contains_key(c) {
                    r == Err::<(), MarketError>(MarketError::ListingNotFound)
                } else {
                    let f = fs[c];
                    let nf = final(self).fpos_by_contract_id@[c];
                    let new_p = FixedPriceOfferingProposal {
                        id: f.next_proposal_id,
                        proposer_id: ctx.predecessor_account_id,
                        price_yocto,
                        is_winning: true,
                    };
                    let ws = f.winning_proposals@;
                    let kept = if ws.len() < f.supply_left { ws } else { ws.drop_first() };
                    match old_place_error(f, *ctx, price_yocto) {
                        Some(e) => r == Err::<(), MarketError>(e),
                        None => {
                            &&& r is Ok
                            &&& final(self).fpos_by_contract_id@ == fs.insert(c, FixedPriceOffering {
                                proposals: nf.proposals,
                                winning_proposals: nf.winning_proposals,
                                next_proposal_id: (f.next_proposal_id + 1) as u128,
                                ..f
                            })
                            &&& nf.proposals@ == f.proposals@.insert(f.next_proposal_id, new_p)
                            &&& sorted_worst_first(nf.winning_proposals@)
                            &&& nf.winning_proposals@.to_multiset() == kept.to_multiset().insert(new_p)
                            &&& final(self).fpos_by_offeror_id == old(self).fpos_by_offeror_id
                            &&& final(self).owner_id == old(self).owner_id
                        },
                    }
                }
            }),
    {
        let f = match self.fpos_by_contract_id.get(&nft_contract_id) {
            None => {
                return Err(MarketError::ListingNotFound);
            },
            Some(f) => f,
        };
        if f.supply_left == 0 {
            return Err(MarketError::NoSupplyLeft);
        }
        if price_yocto % FPO_PRICE_STEP_YOCTO != 0 {
            return Err(MarketError::BidNotMultipleOfStep);
        }
        let scaled = match price_yocto.checked_mul(FPO_PROPOSAL_DEPOSIT_RATE) {
            Some(x) => x,
            None => {
                return Err(MarketError::ArithmeticOverflow);
            },
        };
        if ctx.attached_deposit < scaled / 100 {
            return Err(MarketError::AttachedDepositTooLow);
        }
        let unmatched = (f.winning_proposals.len() as u64) < f.supply_left;
        let min_accepted = if unmatched {
            f.min_proposal_price_yocto
        } else {
            match f.winning_proposals[0].price_yocto.checked_add(FPO_PRICE_STEP_YOCTO) {
                Some(m) => m,
                None => {
                    return Err(MarketError::ArithmeticOverflow);
                },
            }
        };
        if price_yocto < min_accepted {
            return Err(MarketError::BidTooLow);
        }
        if f.next_proposal_id == u128::MAX {
            return Err(MarketError::ArithmeticOverflow);
        }
        let ghost old_self = *self;
        let mut fpo = match self.fpos_by_contract_id.remove(&nft_contract_id) {
            Some(f) => f,
            None => {
                return Err(MarketError::ListingNotFound);
            },
        };
        let ghost f0 = fpo;
        let id = fpo.next_proposal_id;
        fpo.next_proposal_id = id + 1;
        fpo.proposals.insert(id, FixedPriceOfferingProposal {
            id,
            proposer_id: ctx.predecessor_account_id.clone(),
            price_yocto,
            is_winning: true,
        });
        let new_proposal = FixedPriceOfferingProposal {
            id,
            proposer_id: ctx.predecessor_account_id.clone(),
            price_yocto,
            is_winning: true,
        };
        if unmatched {
            fpo.winning_proposals.push(new_proposal);
        } else {
            fpo.winning_proposals.set(0, new_proposal);
        }
        proof {
            let ws = f0.winning_proposals@;
            if unmatched {
                assert(fpo.winning_proposals@ == ws.push(new_proposal));
                assert(fpo.winning_proposals@.to_multiset() =~= ws.to_multiset().insert(new_proposal));
            } else {
                assert(fpo.winning_proposals@ == ws.update(0, new_proposal));
                assert(ws == seq![ws[0]] + ws.drop_first());
                assert(fpo.winning_proposals@ == seq![new_proposal] + ws.drop_first());
                vstd::seq_lib::lemma_multiset_commutative(seq![new_proposal], ws.drop_first());
                assert(fpo.winning_proposals@.to_multiset() =~= ws.drop_first().to_multiset().insert(new_proposal));
            }
        }
        fpo.sort_winning_proposals();
        self.fpos_by_contract_id.insert(nft_contract_id.key_clone(), fpo);
        proof {
            assert forall|c: Seq<char>| #[trigger] self.fpos_by_contract_id@.contains_key(c) implies {
                &&& self.fpos_by_contract_id@[c].wf()
                &&& self.fpos_by_contract_id@[c].nft_contract_id@ == c
                &&& owns(self.fpos_by_offeror_id@, self.fpos_by_contract_id@[c].offeror_id@, c)
            } by {
                assert(old_self.fpos_by_contract_id@.contains_key(c));
            }
        }
        Ok(())
    }

    /// Ends an offering: the marketplace may at any time; the offeror only
    /// once its end date, if any, has passed. The offering leaves the
    /// marketplace and its offeror's list.
    pub fn fpo_conclude(&mut self, ctx: &CallContext, nft_contract_id: String) -> (r: Result<(), MarketError>)
        requires
            old(self).wf(),
            ctx.wf(),
        ensures
            final(self).wf(),
            r is Err ==> *final(self) == *old(self),
            ({
                let fs = old(self).fpos_by_contract_id@;
                let c = nft_contract_id@;
                if !fs.contains_key(c) {
                    r == Err::<(), MarketError>(MarketError::ListingNotFound)
                } else if ctx.signer_account_id@ != ctx.current_account_id@ && ctx.signer_account_id@
                    != fs[c].offeror_id@ {
                    r == Err::<(), MarketError>(MarketError::NotSeller)
                } else if ctx.signer_account_id@ != ctx.current_account_id@ && (fs[c].end_timestamp matches Some(e)
                    && ctx.now() < e) {
                    r == Err::<(), MarketError>(MarketError::CannotConcludeRunning)
                } else {
                    &&& r is Ok
                    &&& final(self).fpos_by_contract_id@ == fs.remove(c)
                    &&& forall|o: Seq<char>, k: Seq<char>|
                        #![trigger owns(final(self).fpos_by_offeror_id@, o, k)]
                        owns(final(self).fpos_by_offeror_id@, o, k) <==> (owns(old(self).fpos_by_offeror_id@, o, k)
                            && !(o == fs[c].offeror_id@ && k == c))
                    &&& final(self).owner_id == old(self).owner_id
                }
            }),
    {
        let (offeror, end) = match self.fpos_by_contract_id.get(&nft_contract_id) {
            None => {
                return Err(MarketError::ListingNotFound);
            },
            Some(f) => (f.offeror_id.clone(), f.end_timestamp),
        };
        if ctx.signer_account_id != ctx.current_account_id {
            if ctx.signer_account_id != offeror {
                return Err(MarketError::NotSeller);
            }
            if let Some(e) = end {
                if ctx.now_nanos() < e {
                    return Err(MarketError::CannotConcludeRunning);
                }
            }
        }
        let ghost old_self = *self;
        proof {
            assert(owns(self.fpos_by_offeror_id@, offeror@, nft_contract_id@));
        }
        self.fpos_by_contract_id.remove(&nft_contract_id);
        let removed = remove_token_from_owner(&mut self.fpos_by_offeror_id, &offeror, &nft_contract_id);
        proof {
            assert(removed is Ok);
            assert forall|c: Seq<char>| #[trigger] self.fpos_by_contract_id@.contains_key(c) implies {
                &&& self.fpos_by_contract_id@[c].wf()
                &&& self.fpos_by_contract_id@[c].nft_contract_id@ == c
                &&& owns(self.fpos_by_offeror_id@, self.fpos_by_contract_id@[c].offeror_id@, c)
            } by {
                assert(old_self.fpos_by_contract_id@.contains_key(c));
                assert(owns(old_self.fpos_by_offeror_id@, old_self.fpos_by_contract_id@[c].offeror_id@, c));
            }
        }
        Ok(())
    }

    /// Resolves a purchase once the token was minted. On the offering as
    /// read, the supply drops by one: the last token ends the offering;
    /// otherwise the winning proposals beyond the supply are refunded their
    /// deposits, while the stored offering keeps its supply and proposals.
    pub fn fpo_resolve_purchase(&mut self, ctx: &CallContext, nft_contract_id: String) -> (r: Result<
        Vec<Transfer>,
        MarketError,
    >)
        requires
            old(self).wf(),
            ctx.wf(),
        ensures
            final(self).wf(),
            r is Err ==> *final(self) == *old(self),
            ({
                let fs = old(self).fpos_by_contract_id@;
                let c = nft_contract_id@;
                if !fs.contains_key(c) {
                    r == Err::<Vec<Transfer>, MarketError>(MarketError::ListingNotFound)
                } else {
                    let f = fs[c];
                    let ws = f.winning_proposals@;
                    if f.supply_left == 0 {
                        r == Err::<Vec<Transfer>, MarketError>(MarketError::ArithmeticOverflow)
                    } else if f.supply_left == 1 {
                        if ctx.signer_account_id@ != ctx.current_account_id@ && ctx.signer_account_id@ != f.offeror_id@ {
                            r == Err::<Vec<Transfer>, MarketError>(MarketError::NotSeller)
                        } else if ctx.signer_account_id@ != ctx.current_account_id@ && (f.end_timestamp matches Some(e)
                            && ctx.now() < e) {
                            r == Err::<Vec<Transfer>, MarketError>(MarketError::CannotConcludeRunning)
                        } else {
                            &&& r matches Ok(ts) && ts@.len() == 0
                            &&& final(self).fpos_by_contract_id@ == fs.remove(c)
                        }
                    } else if ws.len() < f.supply_left - 1 {
                        r == Err::<Vec<Transfer>, MarketError>(MarketError::ArithmeticOverflow)
                    } else if exists|i: int| 0 <= i < ws.len() && #[trigger] ws[i].price_yocto * FPO_PROPOSAL_DEPOSIT_RATE
                        > u128::MAX {
                        r == Err::<Vec<Transfer>, MarketError>(MarketError::ArithmeticOverflow)
                    } else {
                        &&& r matches Ok(ts) && deposit_refunds(ts@, ws.take(ws.len() - (f.supply_left - 1)))
                        &&& *final(self) == *old(self)
                    }
                }
            }),
    {
        let f = match self.fpos_by_contract_id.get(&nft_contract_id) {
            None => {
                return Err(MarketError::ListingNotFound);
            },
            Some(f) => f,
        };
        if f.supply_left == 0 {
            return Err(MarketError::ArithmeticOverflow);
        }
        let left = f.supply_left - 1;
        if left == 0 {
            self.fpo_conclude(ctx, nft_contract_id)?;
            return Ok(Vec::new());
        }
        if (f.winning_proposals.len() as u64) < left {
            return Err(MarketError::ArithmeticOverflow);
        }
        let n = f.winning_proposals.len();
        let mut i: usize = 0;
        while i < n
            invariant
                n == f.winning_proposals@.len(),
                i <= n,
                *self == *old(self),
                old(self).wf(),
                old(self).fpos_by_contract_id@.contains_key(nft_contract_id@),
                *f == old(self).fpos_by_contract_id@[nft_contract_id@],
                f.supply_left > 1,
                f.winning_proposals@.len() >= f.supply_left - 1,
                forall|j: int| 0 <= j < i ==> #[trigger] f.winning_proposals@[j].price_yocto * FPO_PROPOSAL_DEPOSIT_RATE
                    <= u128::MAX,
            decreases n - i,
        {
            if f.winning_proposals[i].price_yocto.checked_mul(FPO_PROPOSAL_DEPOSIT_RATE).is_none() {
                proof {
                    let ws = f.winning_proposals@;
                    assert(ws[i as int].price_yocto * FPO_PROPOSAL_DEPOSIT_RATE > u128::MAX);
                }
                return Err(MarketError::ArithmeticOverflow);
            }
            i += 1;
        }
        let mut copy = FixedPriceOffering {
            nft_contract_id: f.nft_contract_id.clone(),
            offeror_id: f.offeror_id.clone(),
            supply_total: f.supply_total,
            buy_now_price_yocto: f.buy_now_price_yocto,
            min_proposal_price_yocto: f.min_proposal_price_yocto,
            end_timestamp: f.end_timestamp,
            nft_metadata: f.nft_metadata.clone_metadata(),
            supply_left: left,
            proposals: LookupTable::new(),
            winning_proposals: copy_proposals(&f.winning_proposals),
            next_proposal_id: f.next_proposal_id,
        };
        let refunds = copy.prune_supply_exceeding_winning_proposals();
        Ok(refunds)
    }
}

/// A copy of a list of proposals.
fn copy_proposals(ps: &Vec<FixedPriceOfferingProposal>) -> (c: Vec<FixedPriceOfferingProposal>)
    ensures
        c@ == ps@,
{
    let mut c: Vec<FixedPriceOfferingProposal> = Vec::new();
    let n = ps.len();
    let mut i: usize = 0;
    while i < n
        invariant
            n == ps@.len(),
            i <= n,
            c@ == ps@.take(i as int),
        decreases n - i,
    {
        c.push(FixedPriceOfferingProposal {
            id: ps[i].id,
            proposer_id: ps[i].proposer_id.clone(),
            price_yocto: ps[i].price_yocto,
            is_winning: ps[i].is_winning,
        });
        proof {
            assert(ps@.take(i + 1) == ps@.take(i as int).push(ps@[i as int]));
        }
        i += 1;
    }
    proof {
        assert(ps@.take(n as int) == ps@);
    }
    c
}

} // verus!
