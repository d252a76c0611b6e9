use vstd::prelude::*;
use std::cmp::Ordering;
use crate::table::TableKey;
use crate::offer::{Offer, worst_first, sorted_worst_first, sort_worst_first, insert_worst_first};
use crate::context::Transfer;
use crate::marketplace::book::Listing;
use crate::marketplace::errors::MarketError;
use crate::marketplace::external::NftMetadata;
use crate::marketplace::primary::PrimaryListingId;
use crate::marketplace::status::{ListingStatus, status_at, advance_status};
use crate::fpo::config::PRICE_STEP_YOCTO;

verus! {

broadcast use {vstd::seq_lib::group_to_multiset_ensures, vstd::multiset::group_multiset_axioms};

/// An offering is identified by the NFT contract and the collection it sells.
pub type OfferingId = PrimaryListingId;

/// The keys under which an offering's collections are persisted, made from
/// hashes of the offering id and of the proposer.
pub enum FixedPriceOfferingStorageKey {
    Proposals { offering_id_hash: [u8; 32] },
    ProposalsByProposer { offering_id_hash: [u8; 32] },
    ProposalsByProposerInner { offering_id_hash: [u8; 32], proposer_id_hash: [u8; 32] },
    AcceptableProposals { offering_id_hash: [u8; 32] },
}

/// A price proposal held in escrow: the proposer deposited its full price.
pub struct FixedPriceOfferingProposal {
    pub id: u64,
    pub proposer_id: String,
    pub price_yocto: u128,
    pub is_acceptable: bool,
}

impl Offer for FixedPriceOfferingProposal {
    open spec fn offer_amount(&self) -> u128 {
        self.price_yocto
    }

    open spec fn offer_id(&self) -> int {
        self.id as int
    }

    fn amount(&self) -> (r: u128) {
        self.price_yocto
    }

    fn id_at_most(&self, other: &Self) -> (r: bool) {
        self.id <= other.id
    }
}

impl FixedPriceOfferingProposal {
    /// Worst proposal first: `Less` when `self` loses to `other` (a lower
    /// price, or the same price proposed later).
    pub fn cmp(&self, other: &Self) -> (o: Ordering)
        ensures
            o == Ordering::Equal <==> (self.price_yocto == other.price_yocto && self.id == other.id),
            o == Ordering::Less <==> (worst_first(*self, *other) && !(self.price_yocto == other.price_yocto
                && self.id == other.id)),
            o == Ordering::Greater <==> !worst_first(*self, *other),
    {
        if self.price_yocto < other.price_yocto {
            Ordering::Less
        } else if self.price_yocto == other.price_yocto {
            if other.id < self.id {
                Ordering::Less
            } else if other.id == self.id {
                Ordering::Equal
            } else {
                Ordering::Greater
            }
        } else {
            Ordering::Greater
        }
    }

    /// Two proposals are equal when their prices and ids are.
    pub fn eq(&self, other: &Self) -> (b: bool)
        ensures
            b == (self.price_yocto == other.price_yocto && self.id == other.id),
    {
        self.price_yocto == other.price_yocto && self.id == other.id
    }
}

/// Lifecycle of an offering.
#[derive(PartialEq, Eq, Structural, Clone, Copy, Debug)]
pub enum FixedPriceOfferingStatus {
    Unstarted,
    Running,
    Ended,
}

impl FixedPriceOfferingStatus {
    /// The name of the status, as shown to users.
    pub fn as_str(&self) -> (s: &'static str)
        ensures
            *self == FixedPriceOfferingStatus::Unstarted ==> s@ == "Unstarted"@,
            *self == FixedPriceOfferingStatus::Running ==> s@ == "Running"@,
            *self == FixedPriceOfferingStatus::Ended ==> s@ == "Ended"@,
    {
        match self {
            FixedPriceOfferingStatus::Unstarted => "Unstarted",
            FixedPriceOfferingStatus::Running => "Running",
            FixedPriceOfferingStatus::Ended => "Ended",
        }
    }

    pub open spec fn as_listing_status(self) -> ListingStatus {
        match self {
            FixedPriceOfferingStatus::Unstarted => ListingStatus::Unstarted,
            FixedPriceOfferingStatus::Running => ListingStatus::Running,
            FixedPriceOfferingStatus::Ended => ListingStatus::Ended,
        }
    }

    pub open spec fn of_listing_status(s: ListingStatus) -> FixedPriceOfferingStatus {
        match s {
            ListingStatus::Unstarted => FixedPriceOfferingStatus::Unstarted,
            ListingStatus::Running => FixedPriceOfferingStatus::Running,
            ListingStatus::Ended => FixedPriceOfferingStatus::Ended,
        }
    }
}

/// The status of an offering at time `now`: the lifecycle of listings, where
/// an offering with no supply left is sold out.
pub open spec fn fpo_status_at(
    status: FixedPriceOfferingStatus,
    supply_left: u64,
    start: Option<i64>,
    end: Option<i64>,
    now: i64,
) -> FixedPriceOfferingStatus {
    FixedPriceOfferingStatus::of_listing_status(status_at(status.as_listing_status(), supply_left == 0, start, end, now))
}

/// Computes [`fpo_status_at`].
pub fn advance_fpo_status(
    status: FixedPriceOfferingStatus,
    supply_left: u64,
    start: Option<i64>,
    end: Option<i64>,
    now: i64,
) -> (r: FixedPriceOfferingStatus)
    ensures
        r == fpo_status_at(status, supply_left, start, end, now),
{
    let current = match status {
        FixedPriceOfferingStatus::Unstarted => ListingStatus::Unstarted,
        FixedPriceOfferingStatus::Running => ListingStatus::Running,
        FixedPriceOfferingStatus::Ended => ListingStatus::Ended,
    };
    match advance_status(current, supply_left == 0, start, end, now) {
        ListingStatus::Unstarted => FixedPriceOfferingStatus::Unstarted,
        ListingStatus::Running => FixedPriceOfferingStatus::Running,
        ListingStatus::Ended => FixedPriceOfferingStatus::Ended,
    }
}

/// A fixed-price offering of a collection minted on demand.
pub struct FixedPriceOffering {
    pub offering_id: OfferingId,
    pub offeror_id: String,
    pub nft_metadata: NftMetadata,
    pub supply_total: u64,
    pub buy_now_price_yocto: u128,
    /// The lowest proposal; `None` when no proposals are accepted.
    pub min_proposal_price_yocto: Option<u128>,
    /// Nanoseconds since 1970-01-01.
    pub start_timestamp: Option<i64>,
    pub end_timestamp: Option<i64>,
    pub status: FixedPriceOfferingStatus,
    pub supply_left: u64,
    /// The acceptable proposals, worst first.
    pub proposals: Vec<FixedPriceOfferingProposal>,
    pub next_proposal_id: u64,
}

/// The deposit returned for proposal `p`: its price goes back to its
/// proposer.
pub open spec fn is_proposal_refund(t: Transfer, p: FixedPriceOfferingProposal) -> bool {
    t.receiver_id@ == p.proposer_id@ && t.amount_yocto == p.price_yocto
}

/// One refund per released proposal, in the same order.
pub open spec fn proposal_refunds(ts: Seq<Transfer>, ps: Seq<FixedPriceOfferingProposal>) -> bool {
    &&& ts.len() == ps.len()
    &&& forall|i: int| 0 <= i < ps.len() ==> is_proposal_refund(#[trigger] ts[i], ps[i])
}

/// Every proposal reaches the offering's minimum proposal, when it has one.
pub open spec fn proposals_meet_minimum(min_proposal: Option<u128>, ps: Seq<FixedPriceOfferingProposal>) -> bool {
    min_proposal matches Some(m) ==> forall|i: int| 0 <= i < ps.len() ==> #[trigger] ps[i].price_yocto >= m
}

/// The refund of a proposal that leaves because it was outbid or no longer
/// fits the supply: its price and the cost of the storage it freed.
pub open spec fn is_release_refund(t: Transfer, p: FixedPriceOfferingProposal, freed_cost: u128) -> bool {
    t.receiver_id@ == p.proposer_id@ && t.amount_yocto == p.price_yocto + freed_cost
}

/// One release refund per released proposal, in the same order.
pub open spec fn release_refunds(ts: Seq<Transfer>, ps: Seq<FixedPriceOfferingProposal>, freed_cost: u128) -> bool {
    &&& ts.len() == ps.len()
    &&& forall|i: int| 0 <= i < ps.len() ==> is_release_refund(#[trigger] ts[i], ps[i], freed_cost)
}

/// Whether the release refunds of `ps` fit in a `u128`.
pub open spec fn release_refunds_fit(ps: Seq<FixedPriceOfferingProposal>, freed_cost: u128) -> bool {
    forall|i: int| 0 <= i < ps.len() ==> #[trigger] ps[i].price_yocto + freed_cost <= u128::MAX
}

/// Whether the release refunds of the first `n` proposals fit in a `u128`.
pub fn release_refunds_fit_first(ps: &Vec<FixedPriceOfferingProposal>, n: usize, freed_cost: u128) -> (b: bool)
    requires
        n <= ps@.len(),
    ensures
        b == release_refunds_fit(ps@.take(n as int), freed_cost),
{
    let mut i: usize = 0;
    while i < n
        invariant
            n <= ps@.len(),
            i <= n,
            forall|j: int| 0 <= j < i ==> #[trigger] ps@[j].price_yocto + freed_cost <= u128::MAX,
        decreases n - i,
    {
        if ps[i].price_yocto.checked_add(freed_cost).is_none() {
            proof {
                assert(ps@.take(n as int)[i as int] == ps@[i as int]);
            }
            return false;
        }
        i += 1;
    }
    proof {
        assert forall|j: int| 0 <= j < ps@.take(n as int).len() implies #[trigger] ps@.take(n as int)[j].price_yocto
            + freed_cost <= u128::MAX by {
            assert(ps@.take(n as int)[j] == ps@[j]);
        }
    }
    true
}

/// The lowest price a new proposal must offer: the minimum while fewer
/// proposals stand than tokens are left, otherwise one step above the worst
/// standing proposal.
pub open spec fn fpo_acceptable_price(
    min_proposal: Option<u128>,
    proposals: Seq<FixedPriceOfferingProposal>,
    supply_left: u64,
) -> Result<u128, MarketError> {
    match min_proposal {
        None => Err(MarketError::BidsNotAccepted),
        Some(m) => if proposals.len() < supply_left {
            Ok(m)
        } else if proposals[0].price_yocto + PRICE_STEP_YOCTO > u128::MAX {
            Err(MarketError::ArithmeticOverflow)
        } else {
            Ok((proposals[0].price_yocto + PRICE_STEP_YOCTO) as u128)
        },
    }
}

/// Returns the deposits held for the given proposals.
pub fn refund_proposals(proposals: &Vec<FixedPriceOfferingProposal>) -> (ts: Vec<Transfer>)
    ensures
        proposal_refunds(ts@, proposals@),
{
    let mut ts: Vec<Transfer> = Vec::new();
    let n = proposals.len();
    let mut i: usize = 0;
    while i < n
        invariant
            n == proposals@.len(),
            i <= n,
            ts@.len() == i,
            forall|j: int| 0 <= j < i ==> is_proposal_refund(#[trigger] ts@[j], proposals@[j]),
        decreases n - i,
    {
        ts.push(Transfer { receiver_id: proposals[i].proposer_id.clone(), amount_yocto: proposals[i].price_yocto });
        i += 1;
    }
    ts
}

impl Listing<OfferingId> for FixedPriceOffering {
    open spec fn listing_key(&self) -> (Seq<char>, u64) {
        self.offering_id.key_view()
    }

    open spec fn seller(&self) -> Seq<char> {
        self.offeror_id@
    }

    fn key(&self) -> (k: &OfferingId) {
        &self.offering_id
    }

    fn seller_id(&self) -> (s: &String) {
        &self.offeror_id
    }
}

impl FixedPriceOffering {
    /// No more tokens are left than the offering has; proposals stand worst
    /// first, with distinct ids below the next one, and reach the minimum
    /// proposal.
    pub open spec fn wf(&self) -> bool {
        &&& self.supply_left <= self.supply_total
        &&& sorted_worst_first(self.proposals@)
        &&& proposals_meet_minimum(self.min_proposal_price_yocto, self.proposals@)
        &&& forall|i: int| 0 <= i < self.proposals@.len() ==> #[trigger] self.proposals@[i].id < self.next_proposal_id
        &&& forall|i: int, j: int|
            0 <= i < j < self.proposals@.len() ==> #[trigger] self.proposals@[i].id != #[trigger] self.proposals@[j].id
    }

    /// Brings the status up to date at time `now`.
    pub fn update_status(&mut self, now: i64)
        ensures
            *final(self) == (FixedPriceOffering {
                status: fpo_status_at(
                    old(self).status,
                    old(self).supply_left,
                    old(self).start_timestamp,
                    old(self).end_timestamp,
                    now,
                ),
                ..*old(self)
            }),
    {
        self.status = advance_fpo_status(self.status, self.supply_left, self.start_timestamp, self.end_timestamp, now);
    }

    /// Sorts the proposals worst first.
    pub fn sort_proposals(&mut self)
        ensures
            sorted_worst_first(final(self).proposals@),
            final(self).proposals@.to_multiset() == old(self).proposals@.to_multiset(),
            *final(self) == (FixedPriceOffering { proposals: final(self).proposals, ..*old(self) }),
    {
        sort_worst_first(&mut self.proposals);
    }

    /// The lowest price a new proposal must offer.
    pub fn acceptable_price_yocto(&self) -> (r: Result<u128, MarketError>)
        requires
            self.proposals@.len() > 0 || self.supply_left > 0,
        ensures
            r == fpo_acceptable_price(self.min_proposal_price_yocto, self.proposals@, self.supply_left),
    {
        let m = match self.min_proposal_price_yocto {
            Some(m) => m,
            None => {
                return Err(MarketError::BidsNotAccepted);
            },
        };
        if (self.proposals.len() as u64) < self.supply_left {
            Ok(m)
        } else {
            match self.proposals[0].price_yocto.checked_add(PRICE_STEP_YOCTO) {
                Some(p) => Ok(p),
                None => Err(MarketError::ArithmeticOverflow),
            }
        }
    }

    /// Drops the worst proposals until no more stand than tokens are left,
    /// giving back, worst first, the refunds of their deposits together with
    /// the cost of the storage each proposal freed (`freed_cost`).
    pub fn remove_supply_exceeding_proposals_and_refund_proposers(&mut self, freed_cost: u128) -> (refunds: Vec<
        Transfer,
    >)
        requires
            old(self).wf(),
            release_refunds_fit(
                old(self).proposals@.take(
                    if old(self).proposals@.len() > old(self).supply_left {
                        old(self).proposals@.len() - old(self).supply_left
                    } else {
                        0
                    },
                ),
                freed_cost,
            ),
        ensures
            final(self).wf(),
            ({
                let ps = old(self).proposals@;
                let excess = if ps.len() > old(self).supply_left {
                    ps.len() - old(self).supply_left
                } else {
                    0
                };
                &&& final(self).proposals@ == ps.skip(excess)
                &&& release_refunds(refunds@, ps.take(excess), freed_cost)
                &&& *final(self) == (FixedPriceOffering { proposals: final(self).proposals, ..*old(self) })
            }),
    {
        let ghost ps = self.proposals@;
        let total = self.proposals.len();
        let mut refunds: Vec<Transfer> = Vec::new();
        let mut k: usize = 0;
        while (self.proposals.len() as u64) > self.supply_left
            invariant
                self.wf(),
                k <= ps.len(),
                total == ps.len(),
                self.proposals@ == ps.skip(k as int),
                k > 0 ==> ps.len() - k >= self.supply_left,
                refunds@.len() == k,
                forall|j: int| 0 <= j < k ==> is_release_refund(#[trigger] refunds@[j], ps[j], freed_cost),
                release_refunds_fit(ps.take(if ps.len() > self.supply_left { ps.len() - self.supply_left } else { 0 }), freed_cost),
                self.supply_left == old(self).supply_left,
                self.next_proposal_id == old(self).next_proposal_id,
                ps == old(self).proposals@,
                *self == (FixedPriceOffering { proposals: self.proposals, ..*old(self) }),
            decreases self.proposals@.len(),
        {
            proof {
                assert(k < ps.len());
            }
            let p = self.proposals.remove(0);
            proof {
                assert(ps.skip(k as int)[0] == ps[k as int]);
                assert(self.proposals@ =~= ps.skip(k + 1));
                let excess = if ps.len() > self.supply_left { ps.len() - self.supply_left } else { 0 };
                assert(k < excess);
                assert(ps.take(excess)[k as int] == ps[k as int]);
            }
            refunds.push(Transfer { receiver_id: p.proposer_id, amount_yocto: p.price_yocto + freed_cost });
            k += 1;
        }
        proof {
            let excess = if ps.len() > self.supply_left {
                ps.len() - self.supply_left
            } else {
                0
            };
            assert(k == excess);
            assert(refunds@.len() == ps.take(excess).len());
        }
        refunds
    }

    /// The position of the proposal with the given id, if it stands.
    pub fn find_proposal(&self, proposal_id: u64) -> (r: Option<usize>)
        ensures
            r is None ==> forall|i: int| 0 <= i < self.proposals@.len() ==> #[trigger] self.proposals@[i].id != proposal_id,
            r matches Some(i) ==> i < self.proposals@.len() && self.proposals@[i as int].id == proposal_id
                && forall|j: int| 0 <= j < i ==> #[trigger] self.proposals@[j].id != proposal_id,
    {
        let n = self.proposals.len();
        let mut i: usize = 0;
        while i < n
            invariant
                n == self.proposals@.len(),
                i <= n,
                forall|j: int| 0 <= j < i ==> #[trigger] self.proposals@[j].id != proposal_id,
            decreases n - i,
        {
            if self.proposals[i].id == proposal_id {
                return Some(i);
            }
            i += 1;
        }
        None
    }

    /// Takes the proposal at position `i` out; the others keep their order.
    pub fn remove_proposal_at(&mut self, i: usize) -> (p: FixedPriceOfferingProposal)
        requires
            old(self).wf(),
            i < old(self).proposals@.len(),
        ensures
            final(self).wf(),
            p == old(self).proposals@[i as int],
            final(self).proposals@ == old(self).proposals@.remove(i as int),
            *final(self) == (FixedPriceOffering { proposals: final(self).proposals, ..*old(self) }),
    {
        let ghost s = self.proposals@;
        let p = self.proposals.remove(i);
        proof {
            assert forall|a: int, b: int| 0 <= a < b < self.proposals@.len() implies worst_first(
                #[trigger] self.proposals@[a],
                #[trigger] self.proposals@[b],
            ) by {
                let oa = if a < i { a } else { a + 1 };
                let ob = if b < i { b } else { b + 1 };
                assert(self.proposals@[a] == s[oa] && self.proposals@[b] == s[ob]);
            }
            assert forall|a: int| 0 <= a < self.proposals@.len() implies #[trigger] self.proposals@[a].id
                < self.next_proposal_id by {
                let oa = if a < i { a } else { a + 1 };
                assert(self.proposals@[a] == s[oa]);
            }
            assert forall|a: int, b: int| 0 <= a < b < self.proposals@.len() implies #[trigger] self.proposals@[a].id
                != #[trigger] self.proposals@[b].id by {
                let oa = if a < i { a } else { a + 1 };
                let ob = if b < i { b } else { b + 1 };
                assert(self.proposals@[a] == s[oa] && self.proposals@[b] == s[ob]);
            }
        }
        p
    }

    /// Puts a proposal among the others, in worst-first order; its id must
    /// be new and below the next one.
    pub fn insert_proposal(&mut self, p: FixedPriceOfferingProposal)
        requires
            old(self).wf(),
            p.id < old(self).next_proposal_id,
            forall|i: int| 0 <= i < old(self).proposals@.len() ==> #[trigger] old(self).proposals@[i].id != p.id,
            old(self).min_proposal_price_yocto matches Some(m) ==> p.price_yocto >= m,
        ensures
            final(self).wf(),
            final(self).proposals@.to_multiset() == old(self).proposals@.to_multiset().insert(p),
            final(self).proposals@.len() == old(self).proposals@.len() + 1,
            final(self).proposals@.contains(p),
            *final(self) == (FixedPriceOffering { proposals: final(self).proposals, ..*old(self) }),
    {
        let ghost s = self.proposals@;
        let pos = insert_worst_first(&mut self.proposals, p);
        proof {
            assert(self.proposals@ == s.insert(pos as int, p));
            assert(self.proposals@[pos as int] == p);
            assert forall|a: int| 0 <= a < self.proposals@.len() implies #[trigger] self.proposals@[a].id
                < self.next_proposal_id by {
                if a < pos {
                    assert(self.proposals@[a] == s[a]);
                } else if a > pos {
                    assert(self.proposals@[a] == s[a - 1]);
                }
            }
            if let Some(m) = self.min_proposal_price_yocto {
                assert forall|a: int| 0 <= a < self.proposals@.len() implies #[trigger] self.proposals@[a].price_yocto
                    >= m by {
                    if a < pos {
                        assert(self.proposals@[a] == s[a]);
                    } else if a > pos {
                        assert(self.proposals@[a] == s[a - 1]);
                    }
                }
            }
            assert forall|a: int, b: int| 0 <= a < b < self.proposals@.len() implies #[trigger] self.proposals@[a].id
                != #[trigger] self.proposals@[b].id by {
                if a < pos {
                    assert(self.proposals@[a] == s[a]);
                } else if a > pos {
                    assert(self.proposals@[a] == s[a - 1]);
                }
                if b < pos {
                    assert(self.proposals@[b] == s[b]);
                } else if b > pos {
                    assert(self.proposals@[b] == s[b - 1]);
                }
            }
        }
    }

    /// The position of the standing proposal of `proposer` with id
    /// `proposal_id`: `NoProposalFromAccount` when the proposer has none,
    /// `ProposalNotFound` when none of its proposals has that id.
    pub fn find_proposal_of(&self, proposer: &String, proposal_id: u64) -> (r: Result<usize, MarketError>)
        ensures
            !has_proposal_from(self.proposals@, proposer@) ==> r == Err::<usize, MarketError>(
                MarketError::NoProposalFromAccount,
            ),
            has_proposal_from(self.proposals@, proposer@) && !has_proposal_by(self.proposals@, proposer@, proposal_id)
                ==> r == Err::<usize, MarketError>(MarketError::ProposalNotFound),
            has_proposal_by(self.proposals@, proposer@, proposal_id) ==> (r matches Ok(i) && i
                < self.proposals@.len() && self.proposals@[i as int].id == proposal_id
                && self.proposals@[i as int].proposer_id@ == proposer@),
    {
        let n = self.proposals.len();
        let mut any = false;
        let mut i: usize = 0;
        while i < n
            invariant
                n == self.proposals@.len(),
                i <= n,
                any == exists|j: int| 0 <= j < i && #[trigger] self.proposals@[j].proposer_id@ == proposer@,
                forall|j: int| 0 <= j < i ==> !(#[trigger] self.proposals@[j].id == proposal_id
                    && self.proposals@[j].proposer_id@ == proposer@),
            decreases n - i,
        {
            if self.proposals[i].proposer_id == *proposer {
                if self.proposals[i].id == proposal_id {
                    return Ok(i);
                }
                any = true;
            }
            i += 1;
        }
        if any {
            Err(MarketError::ProposalNotFound)
        } else {
            Err(MarketError::NoProposalFromAccount)
        }
    }
}

/// Whether `proposer` has a standing proposal.
pub open spec fn has_proposal_from(ps: Seq<FixedPriceOfferingProposal>, proposer: Seq<char>) -> bool {
    exists|j: int| 0 <= j < ps.len() && #[trigger] ps[j].proposer_id@ == proposer
}

/// Whether `proposer` has a standing proposal with id `id`.
pub open spec fn has_proposal_by(ps: Seq<FixedPriceOfferingProposal>, proposer: Seq<char>, id: u64) -> bool {
    exists|j: int| 0 <= j < ps.len() && #[trigger] ps[j].id == id && ps[j].proposer_id@ == proposer
}

} // verus!
