use vstd::prelude::*;
use crate::marketplace::contract::MarketplaceContract;
use crate::marketplace::errors::MarketError;
use crate::fpo::offering::{FixedPriceOfferingStatus, OfferingId, fpo_acceptable_price};

verus! {

impl MarketplaceContract {
    /// How many offerings there are.
    pub fn fpos_total_supply(&self) -> (n: u128)
        requires
            self.wf(),
        ensures
            n == self.fpos.by_id@.len(),
    {
        proof {
            self.fpos.by_id.lemma_map_len();
        }
        self.fpos.by_id.len() as u128
    }

    /// The lowest price a new proposal to a running offering must offer;
    /// `None` for an offering that is missing, not running (as last
    /// recorded) or not accepting proposals.
    pub fn fpo_min_proposal_price_yocto(&self, nft_contract_id: String, collection_id: u64) -> (r: Result<
        Option<u128>,
        MarketError,
    >)
        requires
            self.wf(),
        ensures
            ({
                let k = (nft_contract_id@, collection_id);
                let book = self.fpos.by_id@;
                if !book.contains_key(k) || book[k].status != FixedPriceOfferingStatus::Running
                    || book[k].min_proposal_price_yocto is None {
                    r == Ok::<Option<u128>, MarketError>(None)
                } else if book[k].proposals@.len() == 0 && book[k].supply_left == 0 {
                    r == Err::<Option<u128>, MarketError>(MarketError::NoSupplyLeft)
                } else {
                    match fpo_acceptable_price(book[k].min_proposal_price_yocto, book[k].proposals@, book[k].supply_left) {
                        Ok(p) => r == Ok::<Option<u128>, MarketError>(Some(p)),
                        Err(e) => r == Err::<Option<u128>, MarketError>(e),
                    }
                }
            }),
    {
        let key = OfferingId { nft_contract_id, collection_id };
        match self.fpos.get(&key) {
            None => Ok(None),
            Some(f) => {
                if f.status != FixedPriceOfferingStatus::Running || f.min_proposal_price_yocto.is_none() {
                    return Ok(None);
                }
                if f.proposals.len() == 0 && f.supply_left == 0 {
                    return Err(MarketError::NoSupplyLeft);
                }
                match f.acceptable_price_yocto() {
                    Ok(p) => Ok(Some(p)),
                    Err(e) => Err(e),
                }
            },
        }
    }
}

} // verus!
