use vstd::prelude::*;
use std::cmp::Ordering;
use crate::table::LookupTable;
use crate::offer::{Offer, worst_first, sorted_worst_first, sort_worst_first};
use crate::context::Transfer;
use crate::nft::metadata::TokenMetadata;

verus! {

broadcast use {vstd::seq_lib::group_to_multiset_ensures, vstd::multiset::group_multiset_axioms};

/// The largest supply an offering may have.
pub const NFT_TOTAL_SUPPLY_MAX: u64 = 100;
/// The lowest buy-now price.
pub const FPO_MIN_PRICE_YOCTO: u128 = 1000;
/// Prices are whole multiples of this step.
pub const FPO_PRICE_STEP_YOCTO: u128 = 10;
/// The share of its price a proposal deposits, in percent.
pub const FPO_PROPOSAL_DEPOSIT_RATE: u128 = 10;

/// A bare price proposal: a proposer and a price.
pub struct FixedPriceProposal {
    pub proposer_id: String,
    pub price_yocto: u128,
}

/// The keys under which an offering's collections are persisted, made from
/// hashes of the NFT contract and of the proposer.
pub enum FixedPriceOfferingStorageKey {
    Proposals { nft_contract_id_hash: [u8; 32] },
    ProposalsByProposer { nft_contract_id_hash: [u8; 32] },
    ProposalsByProposerInner { nft_contract_id_hash: [u8; 32], proposer_id_hash: [u8; 32] },
    WinningProposals { nft_contract_id_hash: [u8; 32] },
}

/// A price proposal; while it is winning, a tenth of its price is held as
/// its deposit.
pub struct FixedPriceOfferingProposal {
    pub id: u128,
    pub proposer_id: String,
    pub price_yocto: u128,
    pub is_winning: bool,
}

impl Offer for FixedPriceOfferingProposal {
    open spec fn offer_amount(&self) -> u128 {
        self.price_yocto
    }

    open spec fn offer_id(&self) -> int {
        self.id as int
    }

    fn amount(&self) -> (r: u128) {
        self.price_yocto
    }

    fn id_at_most(&self, other: &Self) -> (r: bool) {
        self.id <= other.id
    }
}

/// The deposit a proposal of `price` holds.
pub open spec fn proposal_deposit(price: u128) -> int {
    price * FPO_PROPOSAL_DEPOSIT_RATE / 100
}

/// The deposit of proposal `p` returned to its proposer.
pub open spec fn is_deposit_refund(t: Transfer, p: FixedPriceOfferingProposal) -> bool {
    t.receiver_id@ == p.proposer_id@ && t.amount_yocto == proposal_deposit(p.price_yocto)
}

/// One deposit refund per proposal, in the same order.
pub open spec fn deposit_refunds(ts: Seq<Transfer>, ps: Seq<FixedPriceOfferingProposal>) -> bool {
    &&& ts.len() == ps.len()
    &&& forall|i: int| 0 <= i < ps.len() ==> is_deposit_refund(#[trigger] ts[i], ps[i])
}

impl FixedPriceOfferingProposal {
    /// Worst proposal first: `Less` when `self` loses to `other` (a lower
    /// price, or the same price proposed later).
    pub fn cmp(&self, other: &Self) -> (o: Ordering)
        ensures
            o == Ordering::Equal <==> (self.price_yocto == other.price_yocto && self.id == other.id),
            o == Ordering::Less <==> (worst_first(*self, *other) && !(self.price_yocto == other.price_yocto
                && self.id == other.id)),
            o == Ordering::Greater <==> !worst_first(*self, *other),
    {
        if self.price_yocto < other.price_yocto {
            Ordering::Less
        } else if self.price_yocto == other.price_yocto {
            if other.id < self.id {
                Ordering::Less
            } else if other.id == self.id {
                Ordering::Equal
            } else {
                Ordering::Greater
            }
        } else {
            Ordering::Greater
        }
    }

    /// Two proposals are equal when their prices and ids are.
    pub fn eq(&self, other: &Self) -> (b: bool)
        ensures
            b == (self.price_yocto == other.price_yocto && self.id == other.id),
    {
        self.price_yocto == other.price_yocto && self.id == other.id
    }

    /// Marks the proposal as losing and returns its deposit to its proposer.
    pub fn mark_loosing_and_refund_deposit(&mut self) -> (t: Transfer)
        requires
            old(self).price_yocto * FPO_PROPOSAL_DEPOSIT_RATE <= u128::MAX,
        ensures
            *final(self) == (FixedPriceOfferingProposal { is_winning: false, ..*old(self) }),
            t.receiver_id@ == old(self).proposer_id@,
            t.amount_yocto == proposal_deposit(old(self).price_yocto),
    {
        self.is_winning = false;
        let deposit_yocto = self.price_yocto * FPO_PROPOSAL_DEPOSIT_RATE / 100;
        Transfer { receiver_id: self.proposer_id.clone(), amount_yocto: deposit_yocto }
    }
}

/// An offering of the tokens of an NFT contract.
pub struct FixedPriceOffering {
    pub nft_contract_id: String,
    pub offeror_id: String,
    pub supply_total: u64,
    pub buy_now_price_yocto: u128,
    pub min_proposal_price_yocto: u128,
    /// Nanoseconds since 1970-01-01.
    pub end_timestamp: Option<i64>,
    pub nft_metadata: TokenMetadata,
    pub supply_left: u64,
    /// Every proposal made, by id.
    pub proposals: LookupTable<u128, FixedPriceOfferingProposal>,
    /// The winning proposals, worst first.
    pub winning_proposals: Vec<FixedPriceOfferingProposal>,
    pub next_proposal_id: u128,
}

impl FixedPriceOffering {
    pub open spec fn wf(&self) -> bool {
        &&& self.proposals.wf()
        &&& sorted_worst_first(self.winning_proposals@)
        &&& self.supply_left <= self.supply_total
    }

    /// Sorts the winning proposals worst first.
    pub fn sort_winning_proposals(&mut self)
        ensures
            sorted_worst_first(final(self).winning_proposals@),
            final(self).winning_proposals@.to_multiset() == old(self).winning_proposals@.to_multiset(),
            *final(self) == (FixedPriceOffering { winning_proposals: final(self).winning_proposals, ..*old(self) }),
    {
        sort_worst_first(&mut self.winning_proposals);
    }

    /// Drops the worst winning proposals until as many stand as tokens are
    /// left; each dropped proposal's deposit goes back to its proposer. The
    /// proposals as recorded by id are left as they were.
    pub fn prune_supply_exceeding_winning_proposals(&mut self) -> (refunds: Vec<Transfer>)
        requires
            old(self).wf(),
            old(self).winning_proposals@.len() >= old(self).supply_left,
            forall|i: int| 0 <= i < old(self).winning_proposals@.len()
                ==> #[trigger] old(self).winning_proposals@[i].price_yocto * FPO_PROPOSAL_DEPOSIT_RATE <= u128::MAX,
        ensures
            final(self).wf(),
            ({
                let ws = old(self).winning_proposals@;
                let n = ws.len() - old(self).supply_left;
                &&& final(self).winning_proposals@ == ws.skip(n)
                &&& deposit_refunds(refunds@, ws.take(n))
                &&& *final(self) == (FixedPriceOffering { winning_proposals: final(self).winning_proposals, ..*old(self) })
            }),
    {
        let ghost ws = self.winning_proposals@;
        let n = self.winning_proposals.len() - self.supply_left as usize;
        let mut refunds: Vec<Transfer> = Vec::new();
        let mut k: usize = 0;
        while k < n
            invariant
                n == ws.len() - old(self).supply_left,
                k <= n,
                ws == old(self).winning_proposals@,
                refunds@.len() == k,
                forall|i: int| 0 <= i < ws.len() ==> #[trigger] ws[i].price_yocto * FPO_PROPOSAL_DEPOSIT_RATE <= u128::MAX,
                forall|i: int| 0 <= i < k ==> is_deposit_refund(#[trigger] refunds@[i], ws[i]),
                *self == *old(self),
            decreases n - k,
        {
            let mut p = FixedPriceOfferingProposal {
                id: self.winning_proposals[k].id,
                proposer_id: self.winning_proposals[k].proposer_id.clone(),
                price_yocto: self.winning_proposals[k].price_yocto,
                is_winning: self.winning_proposals[k].is_winning,
            };
            let t = p.mark_loosing_and_refund_deposit();
            refunds.push(t);
            k += 1;
        }
        let kept = self.winning_proposals.split_off(n);
        self.winning_proposals = kept;
        proof {
            assert(self.winning_proposals@ =~= ws.skip(n as int));
            assert forall|a: int, b: int| 0 <= a < b < self.winning_proposals@.len() implies worst_first(
                #[trigger] self.winning_proposals@[a],
                #[trigger] self.winning_proposals@[b],
            ) by {
                assert(self.winning_proposals@[a] == ws[a + n] && self.winning_proposals@[b] == ws[b + n]);
            }
            assert(self.winning_proposals@ == ws.skip(n as int));
            assert forall|i: int| 0 <= i < n implies is_deposit_refund(#[trigger] refunds@[i], ws.take(n as int)[i]) by {
                assert(ws.take(n as int)[i] == ws[i]);
            }
            assert(*self == (FixedPriceOffering { winning_proposals: self.winning_proposals, ..*old(self) }));
        }
        refunds
    }
}

} // verus!
