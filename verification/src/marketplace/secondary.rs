use vstd::prelude::*;
use crate::table::TableKey;
use crate::offer::sorted_best_first;
use crate::marketplace::bid::Bid;
use crate::marketplace::external::NftMetadata;
use crate::marketplace::status::{ListingStatus, status_at, advance_status};

verus! {

/// A secondary listing is identified by the NFT contract and the token it sells.
pub struct SecondaryListingId {
    pub nft_contract_id: String,
    pub token_id: String,
}

impl TableKey for SecondaryListingId {
    type KeyView = (Seq<char>, Seq<char>);

    open spec fn key_view(&self) -> (Seq<char>, Seq<char>) {
        (self.nft_contract_id@, self.token_id@)
    }

    fn key_eq(&self, other: &Self) -> (b: bool) {
        self.nft_contract_id == other.nft_contract_id && self.token_id == other.token_id
    }

    fn key_clone(&self) -> (c: Self) {
        SecondaryListingId {
            nft_contract_id: self.nft_contract_id.clone(),
            token_id: self.token_id.clone(),
        }
    }
}

/// The identifier of a secondary listing as clients send it.
pub struct SecondaryListingIdJson {
    pub nft_contract_id: String,
    pub token_id: String,
}

/// The key under which a listing's bids are persisted, made from a hash of
/// the listing id.
pub enum SecondaryListingStorageKey {
    Bids { listing_id_hash: [u8; 32] },
}

/// The resale of a token that its owner approved the marketplace to transfer.
pub struct SecondaryListing {
    pub id: SecondaryListingId,
    pub seller_id: String,
    pub approval_id: u64,
    pub nft_metadata: NftMetadata,
    pub price_yocto: Option<u128>,
    pub min_bid_yocto: Option<u128>,
    pub start_timestamp: i64,
    pub end_timestamp: Option<i64>,
    pub status: ListingStatus,
    pub bids: Vec<Bid>,
    pub next_bid_id: u64,
}

impl SecondaryListing {
    pub open spec fn wf(&self) -> bool {
        &&& sorted_best_first(self.bids@)
        &&& forall|i: int| 0 <= i < self.bids@.len() ==> #[trigger] self.bids@[i].id < self.next_bid_id
    }

    /// Brings the status up to date at time `now`; a secondary listing never
    /// sells out while it stands.
    pub fn update_status(&mut self, now: i64)
        ensures
            *final(self) == (SecondaryListing {
                status: status_at(
                    old(self).status,
                    false,
                    Some(old(self).start_timestamp),
                    old(self).end_timestamp,
                    now,
                ),
                ..*old(self)
            }),
    {
        self.status = advance_status(
            self.status,
            false,
            Some(self.start_timestamp),
            self.end_timestamp,
            now,
        );
    }
}

} // verus!
