use vstd::prelude::*;
use crate::table::TableKey;
use crate::offer::{sorted_best_first, sort_best_first};
use crate::marketplace::bid::Bid;
use crate::marketplace::constants::BID_STEP_YOCTO;
use crate::marketplace::errors::MarketError;
use crate::marketplace::external::NftMetadata;
use crate::marketplace::status::{ListingStatus, status_at, advance_status};

verus! {

/// A primary listing is identified by the NFT contract and the collection
/// that the listing sells tokens of.
pub struct PrimaryListingId {
    pub nft_contract_id: String,
    pub collection_id: u64,
}

impl TableKey for PrimaryListingId {
    type KeyView = (Seq<char>, u64);

    open spec fn key_view(&self) -> (Seq<char>, u64) {
        (self.nft_contract_id@, self.collection_id)
    }

    fn key_eq(&self, other: &Self) -> (b: bool) {
        self.collection_id == other.collection_id && self.nft_contract_id == other.nft_contract_id
    }

    fn key_clone(&self) -> (c: Self) {
        PrimaryListingId {
            nft_contract_id: self.nft_contract_id.clone(),
            collection_id: self.collection_id,
        }
    }
}

/// The key under which a listing's standing offers are persisted, made
/// from a hash of the listing id.
pub enum PrimaryListingStorageKey {
    Proposals { listing_id_hash: [u8; 32] },
}

/// The sale of newly minted tokens of a collection, at a fixed price, by bids,
/// or both.
pub struct PrimaryListing {
    pub id: PrimaryListingId,
    pub seller_id: String,
    pub nft_metadata: NftMetadata,
    pub supply_total: u64,
    /// The buy-now price; `None` when tokens can only be had by bidding.
    pub price_yocto: Option<u128>,
    /// The lowest bid; `None` when no bids are accepted.
    pub min_bid_yocto: Option<u128>,
    /// Nanoseconds since 1970-01-01.
    pub start_timestamp: i64,
    pub end_timestamp: Option<i64>,
    pub status: ListingStatus,
    pub supply_left: u64,
    /// Standing bids, best first.
    pub bids: Vec<Bid>,
    pub next_bid_id: u64,
}

/// The lowest bid a listing accepts: its minimum bid while fewer bids stand
/// than tokens are left, otherwise one step above the worst standing bid.
pub open spec fn acceptable_bid(min_bid: Option<u128>, bids: Seq<Bid>, supply_left: u64) -> Result<
    u128,
    MarketError,
> {
    match min_bid {
        None => Err(MarketError::BidsNotAccepted),
        Some(m) => if bids.len() < supply_left {
            Ok(m)
        } else if bids.len() == 0 || bids.last().amount_yocto + BID_STEP_YOCTO > u128::MAX {
            Err(MarketError::ArithmeticOverflow)
        } else {
            Ok((bids.last().amount_yocto + BID_STEP_YOCTO) as u128)
        },
    }
}

/// An acceptable bid always reaches the minimum bid, when the standing bids
/// do.
pub proof fn lemma_acceptable_bid_reaches_minimum(min_bid: Option<u128>, bids: Seq<Bid>, supply_left: u64)
    requires
        bids_meet_minimum(min_bid, bids),
    ensures
        acceptable_bid(min_bid, bids, supply_left) matches Ok(a) ==> (min_bid matches Some(m) && a >= m),
{
    if let Some(m) = min_bid {
        if bids.len() > 0 {
            assert(bids[bids.len() - 1].amount_yocto >= m);
        }
    }
}

/// Computes [`acceptable_bid`] on the given bids.
pub fn acceptable_bid_of(min_bid: Option<u128>, bids: &Vec<Bid>, supply_left: u64) -> (r: Result<
    u128,
    MarketError,
>)
    ensures
        r == acceptable_bid(min_bid, bids@, supply_left),
{
    let m = match min_bid {
        Some(m) => m,
        None => {
            return Err(MarketError::BidsNotAccepted);
        },
    };
    let n = bids.len();
    if (n as u64) < supply_left {
        return Ok(m);
    }
    if n == 0 {
        return Err(MarketError::ArithmeticOverflow);
    }
    match bids[n - 1].amount_yocto.checked_add(BID_STEP_YOCTO) {
        Some(a) => Ok(a),
        None => Err(MarketError::ArithmeticOverflow),
    }
}

/// Every bid reaches the listing's minimum bid, when it has one.
pub open spec fn bids_meet_minimum(min_bid: Option<u128>, bids: Seq<Bid>) -> bool {
    min_bid matches Some(m) ==> forall|i: int| 0 <= i < bids.len() ==> #[trigger] bids[i].amount_yocto >= m
}

impl PrimaryListing {
    /// No more tokens are left than the listing has; standing bids are
    /// sorted best first, were numbered before the next id, and reach the
    /// minimum bid.
    pub open spec fn wf(&self) -> bool {
        &&& self.supply_left <= self.supply_total
        &&& sorted_best_first(self.bids@)
        &&& forall|i: int| 0 <= i < self.bids@.len() ==> #[trigger] self.bids@[i].id < self.next_bid_id
        &&& bids_meet_minimum(self.min_bid_yocto, self.bids@)
    }

    /// Brings the status up to date at time `now`.
    pub fn update_status(&mut self, now: i64)
        ensures
            *final(self) == (PrimaryListing {
                status: status_at(
                    old(self).status,
                    old(self).supply_left == 0,
                    Some(old(self).start_timestamp),
                    old(self).end_timestamp,
                    now,
                ),
                ..*old(self)
            }),
    {
        self.status = advance_status(
            self.status,
            self.supply_left == 0,
            Some(self.start_timestamp),
            self.end_timestamp,
            now,
        );
    }

    /// Sorts the standing bids best first.
    pub fn sort_bids(&mut self)
        ensures
            sorted_best_first(final(self).bids@),
            final(self).bids@.to_multiset() == old(self).bids@.to_multiset(),
            *final(self) == (PrimaryListing { bids: final(self).bids, ..*old(self) }),
    {
        sort_best_first(&mut self.bids);
    }

    /// The lowest bid the listing accepts now.
    pub fn acceptable_bid_yocto(&self) -> (r: Result<u128, MarketError>)
        ensures
            r == acceptable_bid(self.min_bid_yocto, self.bids@, self.supply_left),
    {
        acceptable_bid_of(self.min_bid_yocto, &self.bids, self.supply_left)
    }

    /// Drops the worst bids until no more bids stand than tokens are left;
    /// gives back the dropped bids, worst first.
    pub fn remove_supply_exceeding_bids(&mut self) -> (pruned: Vec<Bid>)
        ensures
            old(self).bids@.len() <= old(self).supply_left ==> *final(self) == *old(self)
                && pruned@.len() == 0,
            old(self).bids@.len() > old(self).supply_left ==> {
                &&& final(self).bids@ == old(self).bids@.take(old(self).supply_left as int)
                &&& pruned@ == old(self).bids@.skip(old(self).supply_left as int).reverse()
            },
            *final(self) == (PrimaryListing { bids: final(self).bids, ..*old(self) }),
    {
        let mut pruned: Vec<Bid> = Vec::new();
        let n = self.bids.len();
        if (n as u64) <= self.supply_left {
            return pruned;
        }
        let keep = self.supply_left as usize;
        let ghost orig = self.bids@;
        while self.bids.len() > keep
            invariant
                keep < n == orig.len(),
                keep <= self.bids@.len() <= n,
                self.bids@ == orig.take(self.bids@.len() as int),
                pruned@ == orig.skip(self.bids@.len() as int).reverse(),
                *self == (PrimaryListing { bids: self.bids, ..*old(self) }),
                old(self).bids@ == orig,
            decreases self.bids@.len(),
        {
            let ghost before = self.bids@;
            let b = self.bids.pop().unwrap();
            proof {
                assert(before == self.bids@.push(b));
            }
            pruned.push(b);
            proof {
                let len = self.bids@.len() as int;
                assert(self.bids@ =~= orig.take(len));
                assert(pruned@ =~= orig.skip(len).reverse()) by {
                    assert forall|k: int| 0 <= k < pruned@.len() implies pruned@[k] == orig.skip(
                        len,
                    ).reverse()[k] by {
                        if k < pruned@.len() - 1 {
                            assert(pruned@[k] == orig.skip(len + 1).reverse()[k]);
                        }
                    }
                }
            }
        }
        pruned
    }

    /// The first standing bid with the given id.
    pub fn find_bid(&self, bid_id: u64) -> (r: Option<usize>)
        ensures
            r is None ==> forall|i: int| 0 <= i < self.bids@.len() ==> #[trigger] self.bids@[i].id != bid_id,
            r matches Some(i) ==> i < self.bids@.len() && self.bids@[i as int].id == bid_id
                && forall|j: int| 0 <= j < i ==> #[trigger] self.bids@[j].id != bid_id,
    {
        let n = self.bids.len();
        let mut i: usize = 0;
        while i < n
            invariant
                n == self.bids@.len(),
                i <= n,
                forall|j: int| 0 <= j < i ==> #[trigger] self.bids@[j].id != bid_id,
            decreases n - i,
        {
            if self.bids[i].id == bid_id {
                return Some(i);
            }
            i += 1;
        }
        None
    }
}

} // verus!
