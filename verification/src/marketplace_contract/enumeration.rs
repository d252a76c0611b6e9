use vstd::prelude::*;
use crate::paging::{page, page_bounds};
use crate::marketplace::enumeration::from_or_zero;
use crate::nft::metadata::TokenMetadata;
use crate::nft_contract::enumeration::limit_or_zero;
use crate::marketplace_contract::fpo::FixedPriceOffering;
use crate::marketplace_contract::contract::MarketplaceContract;

verus! {

/// An offering as clients see it: its supply, price and how many tokens
/// were sold.
pub struct JsonFixedPriceOffering {
    pub nft_contract_id: String,
    pub offeror_id: String,
    pub nft_max_supply: u128,
    pub price_yocto: u128,
    pub nft_metadata: TokenMetadata,
    pub end_timestamp: Option<i64>,
    pub nft_supply_sold: u128,
}

pub open spec fn is_fpo_json(j: JsonFixedPriceOffering, f: FixedPriceOffering) -> bool {
    &&& j.nft_contract_id@ == f.nft_contract_id@
    &&& j.offeror_id@ == f.offeror_id@
    &&& j.nft_max_supply == f.supply_total
    &&& j.price_yocto == f.buy_now_price_yocto
    &&& j.nft_metadata == f.nft_metadata
    &&& j.end_timestamp == f.end_timestamp
    &&& j.nft_supply_sold == f.supply_total - f.supply_left
}

/// The client view of an offering.
pub fn fpo_json(f: &FixedPriceOffering) -> (j: JsonFixedPriceOffering)
    requires
        f.supply_left <= f.supply_total,
    ensures
        is_fpo_json(j, *f),
{
    JsonFixedPriceOffering {
        nft_contract_id: f.nft_contract_id.clone(),
        offeror_id: f.offeror_id.clone(),
        nft_max_supply: f.supply_total as u128,
        price_yocto: f.buy_now_price_yocto,
        nft_metadata: f.nft_metadata.clone_metadata(),
        end_timestamp: f.end_timestamp,
        nft_supply_sold: (f.supply_total - f.supply_left) as u128,
    }
}

impl MarketplaceContract {
    /// A page of the offerings, in storage order; the page is empty unless a
    /// limit is given.
    pub fn fpos(&self, from_index: Option<u128>, limit: Option<u64>) -> (r: Vec<JsonFixedPriceOffering>)
        requires
            self.wf(),
        ensures
            ({
                let p = page(self.fpos_by_contract_id.values(), from_or_zero(from_index), limit_or_zero(limit));
                &&& r@.len() == p.len()
                &&& forall|i: int| 0 <= i < p.len() ==> is_fpo_json(#[trigger] r@[i], p[i])
            }),
    {
        let from: usize = match from_index {
            Some(f) => f as usize,
            None => 0,
        };
        let count: usize = match limit {
            Some(l) => l as usize,
            None => 0,
        };
        let table = &self.fpos_by_contract_id;
        let (s, e) = page_bounds(table.len(), from, count);
        let ghost p = page(table.values(), from, count);
        proof {
            table.lemma_lens();
        }
        let mut out: Vec<JsonFixedPriceOffering> = Vec::new();
        let mut i = s;
        while i < e
            invariant
                self.wf(),
                table == &self.fpos_by_contract_id,
                s <= i <= e <= table.values().len(),
                table.keys().len() == table.values().len(),
                p == table.values().subrange(s as int, e as int),
                out@.len() == i - s,
                forall|j: int| 0 <= j < i - s ==> is_fpo_json(#[trigger] out@[j], p[j]),
            decreases e - i,
        {
            proof {
                table.lemma_view_at(i as int);
            }
            out.push(fpo_json(table.value_at(i)));
            i += 1;
        }
        out
    }
}

} // verus!
