use vstd::prelude::*;
use std::cmp::Ordering;
use crate::offer::{Offer, best_first};

verus! {

pub type BidId = u64;

pub type ProposalId = u64;

/// A bid placed on a listing; the bidder's deposit of `amount_yocto` is held
/// in escrow while the bid stands.
pub struct Bid {
    pub id: BidId,
    pub bidder_id: String,
    pub amount_yocto: u128,
}

impl Offer for Bid {
    open spec fn offer_amount(&self) -> u128 {
        self.amount_yocto
    }

    open spec fn offer_id(&self) -> int {
        self.id as int
    }

    fn amount(&self) -> (r: u128) {
        self.amount_yocto
    }

    fn id_at_most(&self, other: &Self) -> (r: bool) {
        self.id <= other.id
    }
}

impl Bid {
    /// Best bid first: `Less` when `self` is strictly better than `other`
    /// (a higher amount, or the same amount placed earlier).
    pub fn cmp(&self, other: &Self) -> (o: Ordering)
        ensures
            o == Ordering::Equal <==> (self.amount_yocto == other.amount_yocto && self.id == other.id),
            o == Ordering::Less <==> (best_first(*self, *other) && !(self.amount_yocto
                == other.amount_yocto && self.id == other.id)),
            o == Ordering::Greater <==> !best_first(*self, *other),
    {
        if self.amount_yocto < other.amount_yocto {
            Ordering::Greater
        } else if self.amount_yocto == other.amount_yocto {
            if self.id < other.id {
                Ordering::Less
            } else if self.id == other.id {
                Ordering::Equal
            } else {
                Ordering::Greater
            }
        } else {
            Ordering::Less
        }
    }

    /// Two bids are equal when their amounts and ids are.
    pub fn eq(&self, other: &Self) -> (b: bool)
        ensures
            b == (self.amount_yocto == other.amount_yocto && self.id == other.id),
    {
        self.amount_yocto == other.amount_yocto && self.id == other.id
    }
}

/// A price proposal made to a listing.
pub struct Proposal {
    pub id: ProposalId,
    pub proposer_id: String,
    pub price_yocto: u128,
}

impl Offer for Proposal {
    open spec fn offer_amount(&self) -> u128 {
        self.price_yocto
    }

    open spec fn offer_id(&self) -> int {
        self.id as int
    }

    fn amount(&self) -> (r: u128) {
        self.price_yocto
    }

    fn id_at_most(&self, other: &Self) -> (r: bool) {
        self.id <= other.id
    }
}

impl Proposal {
    /// Best proposal first: `Less` when `self` is strictly better than
    /// `other` (a higher price, or the same price proposed earlier).
    pub fn cmp(&self, other: &Self) -> (o: Ordering)
        ensures
            o == Ordering::Equal <==> (self.price_yocto == other.price_yocto && self.id == other.id),
            o == Ordering::Less <==> (best_first(*self, *other) && !(self.price_yocto
                == other.price_yocto && self.id == other.id)),
            o == Ordering::Greater <==> !best_first(*self, *other),
    {
        if self.price_yocto < other.price_yocto {
            Ordering::Greater
        } else if self.price_yocto == other.price_yocto {
            if self.id < other.id {
                Ordering::Less
            } else if self.id == other.id {
                Ordering::Equal
            } else {
                Ordering::Greater
            }
        } else {
            Ordering::Less
        }
    }

    /// Two proposals are equal when their prices and ids are.
    pub fn eq(&self, other: &Self) -> (b: bool)
        ensures
            b == (self.price_yocto == other.price_yocto && self.id == other.id),
    {
        self.price_yocto == other.price_yocto && self.id == other.id
    }
}

} // verus!
