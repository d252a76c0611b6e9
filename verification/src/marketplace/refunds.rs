use vstd::prelude::*;
use crate::marketplace::bid::Bid;
use crate::context::Transfer;

verus! {

/// The deposit returned for bid `b`: its amount goes back to its bidder.
pub open spec fn is_refund_of(t: Transfer, b: Bid) -> bool {
    t.receiver_id@ == b.bidder_id@ && t.amount_yocto == b.amount_yocto
}

/// One refund per released bid, in the same order.
pub open spec fn refunds_for(ts: Seq<Transfer>, bs: Seq<Bid>) -> bool {
    &&& ts.len() == bs.len()
    &&& forall|i: int| 0 <= i < bs.len() ==> is_refund_of(#[trigger] ts[i], bs[i])
}

/// Returns the deposits held for the given bids.
pub fn refund_bids(bids: &Vec<Bid>) -> (ts: Vec<Transfer>)
    ensures
        refunds_for(ts@, bids@),
{
    let mut ts: Vec<Transfer> = Vec::new();
    let n = bids.len();
    let mut i: usize = 0;
    while i < n
        invariant
            n == bids@.len(),
            i <= n,
            ts@.len() == i,
            forall|j: int| 0 <= j < i ==> is_refund_of(#[trigger] ts@[j], bids@[j]),
        decreases n - i,
    {
        ts.push(Transfer { receiver_id: bids[i].bidder_id.clone(), amount_yocto: bids[i].amount_yocto });
        i += 1;
    }
    ts
}

} // verus!
