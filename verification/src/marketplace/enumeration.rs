use vstd::prelude::*;
use crate::table::TableKey;
use crate::paging::{page, page_start, page_end, page_bounds, first_error, lemma_first_error_at, lemma_first_error_none};
use crate::marketplace::bid::Bid;
use crate::marketplace::contract::MarketplaceContract;
use crate::marketplace::errors::MarketError;
use crate::marketplace::external::NftMetadata;
use crate::marketplace::primary::{PrimaryListing, PrimaryListingId, acceptable_bid};
use crate::marketplace::secondary::{SecondaryListing, SecondaryListingId};
use crate::marketplace::status::ListingStatus;

verus! {

/// A primary listing as shown to clients.
pub struct JsonPrimaryListing {
    pub nft_contract_id: String,
    pub collection_id: u64,
    pub seller_id: String,
    pub supply_total: u64,
    pub price_yocto: Option<u128>,
    pub min_bid_yocto: Option<u128>,
    pub acceptable_bid_yocto: Option<u128>,
    pub nft_metadata: NftMetadata,
    pub end_timestamp: Option<i64>,
    pub supply_left: u64,
    pub status: ListingStatus,
}

/// A bid on a primary listing as shown to clients.
pub struct JsonPrimaryListingBid {
    pub id: u64,
    pub bidder_id: String,
    pub amount_yocto: u128,
}

/// A secondary listing as shown to clients.
pub struct JsonSecondaryListing {
    pub nft_contract_id: String,
    pub token_id: String,
    pub approval_id: u64,
    pub seller_id: String,
    pub price_yocto: Option<u128>,
    pub min_bid_yocto: Option<u128>,
    pub nft_metadata: NftMetadata,
    pub start_timestamp: i64,
    pub end_timestamp: Option<i64>,
    pub status: ListingStatus,
}

/// A bid on a secondary listing as shown to clients.
pub struct JsonSecondaryListingBid {
    pub id: u64,
    pub bidder_id: String,
    pub amount_yocto: u128,
}

/// Why a primary listing cannot be shown: its lowest acceptable bid
/// overflows.
pub open spec fn primary_json_error(l: PrimaryListing) -> Option<MarketError> {
    if l.min_bid_yocto is Some && acceptable_bid(l.min_bid_yocto, l.bids@, l.supply_left) is Err {
        Some(acceptable_bid(l.min_bid_yocto, l.bids@, l.supply_left)->Err_0)
    } else {
        None
    }
}

pub open spec fn is_primary_json(j: JsonPrimaryListing, l: PrimaryListing) -> bool {
    &&& j.nft_contract_id@ == l.id.nft_contract_id@
    &&& j.collection_id == l.id.collection_id
    &&& j.seller_id@ == l.seller_id@
    &&& j.supply_total == l.supply_total
    &&& j.price_yocto == l.price_yocto
    &&& j.min_bid_yocto == l.min_bid_yocto
    &&& j.acceptable_bid_yocto == (if l.min_bid_yocto is Some {
        Some(acceptable_bid(l.min_bid_yocto, l.bids@, l.supply_left)->Ok_0)
    } else {
        None
    })
    &&& j.nft_metadata == l.nft_metadata
    &&& j.end_timestamp == l.end_timestamp
    &&& j.supply_left == l.supply_left
    &&& j.status == l.status
}

pub open spec fn is_primary_bid_json(j: JsonPrimaryListingBid, b: Bid) -> bool {
    j.id == b.id && j.bidder_id@ == b.bidder_id@ && j.amount_yocto == b.amount_yocto
}

pub open spec fn is_secondary_bid_json(j: JsonSecondaryListingBid, b: Bid) -> bool {
    j.id == b.id && j.bidder_id@ == b.bidder_id@ && j.amount_yocto == b.amount_yocto
}

pub open spec fn is_secondary_json(j: JsonSecondaryListing, l: SecondaryListing) -> bool {
    &&& j.nft_contract_id@ == l.id.nft_contract_id@
    &&& j.token_id@ == l.id.token_id@
    &&& j.approval_id == l.approval_id
    &&& j.seller_id@ == l.seller_id@
    &&& j.price_yocto == l.price_yocto
    &&& j.min_bid_yocto == l.min_bid_yocto
    &&& j.nft_metadata == l.nft_metadata
    &&& j.start_timestamp == l.start_timestamp
    &&& j.end_timestamp == l.end_timestamp
    &&& j.status == l.status
}

/// The start of a page when the client gives none: the first item.
pub open spec fn from_or_zero(from_index: Option<u128>) -> usize {
    match from_index {
        Some(f) => f as usize,
        None => 0,
    }
}

/// The size of a page when the client gives none: ten items.
pub open spec fn limit_or_ten(limit: Option<u64>) -> usize {
    match limit {
        Some(l) => l as usize,
        None => 10,
    }
}

/// Where a page starts and how long it is, from the optional arguments.
pub fn page_params(from_index: Option<u128>, limit: Option<u64>) -> (r: (usize, usize))
    ensures
        r.0 == from_or_zero(from_index),
        r.1 == limit_or_ten(limit),
{
    let f: u128 = match from_index {
        Some(f) => f,
        None => 0,
    };
    let l: u64 = match limit {
        Some(l) => l,
        None => 10,
    };
    (f as usize, l as usize)
}

/// The client view of a primary listing, with its acceptable bid.
pub fn primary_json(l: &PrimaryListing) -> (r: Result<JsonPrimaryListing, MarketError>)
    ensures
        primary_json_error(*l) is Some ==> r == Err::<JsonPrimaryListing, MarketError>(primary_json_error(*l).unwrap()),
        primary_json_error(*l) is None ==> (r matches Ok(j) && is_primary_json(j, *l)),
{
    let acceptable = if l.min_bid_yocto.is_some() {
        match l.acceptable_bid_yocto() {
            Ok(a) => Some(a),
            Err(e) => {
                return Err(e);
            },
        }
    } else {
        None
    };
    Ok(JsonPrimaryListing {
        nft_contract_id: l.id.nft_contract_id.clone(),
        collection_id: l.id.collection_id,
        seller_id: l.seller_id.clone(),
        supply_total: l.supply_total,
        price_yocto: l.price_yocto,
        min_bid_yocto: l.min_bid_yocto,
        acceptable_bid_yocto: acceptable,
        nft_metadata: l.nft_metadata.clone_metadata(),
        end_timestamp: l.end_timestamp,
        supply_left: l.supply_left,
        status: l.status,
    })
}

/// The client view of a secondary listing.
pub fn secondary_json(l: &SecondaryListing) -> (j: JsonSecondaryListing)
    ensures
        is_secondary_json(j, *l),
{
    JsonSecondaryListing {
        nft_contract_id: l.id.nft_contract_id.clone(),
        token_id: l.id.token_id.clone(),
        approval_id: l.approval_id,
        seller_id: l.seller_id.clone(),
        price_yocto: l.price_yocto,
        min_bid_yocto: l.min_bid_yocto,
        nft_metadata: l.nft_metadata.clone_metadata(),
        start_timestamp: l.start_timestamp,
        end_timestamp: l.end_timestamp,
        status: l.status,
    }
}

/// For each listing of a page, why it cannot be shown, if it cannot.
pub open spec fn primary_page_errors(p: Seq<PrimaryListing>) -> Seq<Option<MarketError>> {
    p.map_values(|l: PrimaryListing| primary_json_error(l))
}

/// For each id of a page, why the listing stored under it cannot be shown,
/// if it cannot.
pub open spec fn primary_entry_errors(
    book: Map<(Seq<char>, u64), PrimaryListing>,
    ks: Seq<(Seq<char>, u64)>,
) -> Seq<Option<MarketError>> {
    ks.map_values(|k: (Seq<char>, u64)| primary_entry_error(book, k))
}

/// Why the listing stored under `k` cannot be shown, if it cannot.
pub open spec fn primary_entry_error(book: Map<(Seq<char>, u64), PrimaryListing>, k: (Seq<char>, u64)) -> Option<MarketError> {
    if !book.contains_key(k) {
        Some(MarketError::ListingNotFound)
    } else {
        primary_json_error(book[k])
    }
}

pub open spec fn secondary_entry_errors(
    book: Map<(Seq<char>, Seq<char>), SecondaryListing>,
    ks: Seq<(Seq<char>, Seq<char>)>,
) -> Seq<Option<MarketError>> {
    ks.map_values(|k: (Seq<char>, Seq<char>)| secondary_entry_error(book, k))
}

pub open spec fn secondary_entry_error(book: Map<(Seq<char>, Seq<char>), SecondaryListing>, k: (Seq<char>, Seq<char>)) -> Option<MarketError> {
    if !book.contains_key(k) {
        Some(MarketError::ListingNotFound)
    } else {
        None
    }
}

impl MarketplaceContract {
    /// The ids a seller has listed, in their order in the seller's index.
    pub open spec fn primary_ids_of(&self, seller: Seq<char>) -> Seq<(Seq<char>, u64)> {
        if self.primary_listings.by_seller_id@.contains_key(seller) {
            self.primary_listings.by_seller_id@[seller].keys()
        } else {
            Seq::empty()
        }
    }

    pub open spec fn secondary_ids_of(&self, seller: Seq<char>) -> Seq<(Seq<char>, Seq<char>)> {
        if self.secondary_listings.by_seller_id@.contains_key(seller) {
            self.secondary_listings.by_seller_id@[seller].keys()
        } else {
            Seq::empty()
        }
    }

    /// A page of all primary listings, in storage order.
    pub fn primary_listings(&self, from_index: Option<u128>, limit: Option<u64>) -> (r: Result<
        Vec<JsonPrimaryListing>,
        MarketError,
    >)
        requires
            self.wf(),
        ensures
            ({
                let p = page(self.primary_listings.by_id.values(), from_or_zero(from_index), limit_or_ten(limit));
                let errs = primary_page_errors(p);
                &&& first_error(errs) is Some ==> r == Err::<Vec<JsonPrimaryListing>, MarketError>(
                    first_error(errs).unwrap(),
                )
                &&& first_error(errs) is None ==> (r matches Ok(v) && v@.len() == p.len() && forall|i: int|
                    0 <= i < p.len() ==> is_primary_json(#[trigger] v@[i], p[i]))
            }),
    {
        let (from, count) = page_params(from_index, limit);
        let table = &self.primary_listings.by_id;
        let (s, e) = page_bounds(table.len(), from, count);
        let ghost p = page(table.values(), from, count);
        let ghost errs = primary_page_errors(p);
        proof {
            table.lemma_lens();
        }
        let mut out: Vec<JsonPrimaryListing> = Vec::new();
        let mut i = s;
        while i < e
            invariant
                s <= i <= e <= table.values().len(),
                table.keys().len() == table.values().len(),
                p == table.values().subrange(s as int, e as int),
                p == page(self.primary_listings.by_id.values(), from_or_zero(from_index), limit_or_ten(limit)),
                errs == primary_page_errors(p),
                out@.len() == i - s,
                forall|j: int| 0 <= j < i - s ==> errs[j] is None,
                forall|j: int| 0 <= j < i - s ==> is_primary_json(#[trigger] out@[j], p[j]),
            decreases e - i,
        {
            proof {
                assert(p[i - s] == table.values()[i as int]);
                assert(errs[i - s] == primary_json_error(p[i - s]));
            }
            match primary_json(table.value_at(i)) {
                Ok(j) => {
                    out.push(j);
                },
                Err(err) => {
                    proof {
                        assert(errs[i - s] is Some);
                        lemma_first_error_at(errs, i - s);
                    }
                    return Err(err);
                },
            }
            i += 1;
        }
        proof {
            lemma_first_error_none(errs);
        }
        Ok(out)
    }

    /// A page of the primary listings of a seller, in the order of the
    /// seller's index; empty for a seller without listings.
    pub fn primary_listings_by_seller(
        &self,
        seller_account_id: &String,
        from_index: Option<u128>,
        limit: Option<u64>,
    ) -> (r: Result<Vec<JsonPrimaryListing>, MarketError>)
        requires
            self.wf(),
        ensures
            ({
                let p = page(self.primary_ids_of(seller_account_id@), from_or_zero(from_index), limit_or_ten(limit));
                let book = self.primary_listings.by_id@;
                let errs = primary_entry_errors(book, p);
                &&& first_error(errs) is Some ==> r == Err::<Vec<JsonPrimaryListing>, MarketError>(
                    first_error(errs).unwrap(),
                )
                &&& first_error(errs) is None ==> (r matches Ok(v) && v@.len() == p.len() && forall|i: int|
                    0 <= i < p.len() ==> is_primary_json(#[trigger] v@[i], book[p[i]]))
            }),
    {
        let (from, count) = page_params(from_index, limit);
        let ids = match self.primary_listings.by_seller_id.get(seller_account_id) {
            None => {
                let ghost p = page(self.primary_ids_of(seller_account_id@), from, count);
                proof {
                    assert(p.len() == 0);
                    lemma_first_error_none(primary_entry_errors(self.primary_listings.by_id@, p));
                }
                return Ok(Vec::new());
            },
            Some(ids) => ids,
        };
        let (s, e) = page_bounds(ids.len(), from, count);
        let ghost book = self.primary_listings.by_id@;
        let ghost p = page(ids.keys(), from, count);
        let ghost errs = primary_entry_errors(book, p);
        let mut out: Vec<JsonPrimaryListing> = Vec::new();
        let mut i = s;
        while i < e
            invariant
                self.wf(),
                book == self.primary_listings.by_id@,
                s <= i <= e <= ids.keys().len(),
                p == ids.keys().subrange(s as int, e as int),
                p == page(self.primary_ids_of(seller_account_id@), from_or_zero(from_index), limit_or_ten(limit)),
                errs == primary_entry_errors(book, p),
                out@.len() == i - s,
                forall|j: int| 0 <= j < i - s ==> errs[j] is None,
                forall|j: int| 0 <= j < i - s ==> is_primary_json(#[trigger] out@[j], book[p[j]]),
            decreases e - i,
        {
            let key = ids.key_at(i);
            proof {
                assert(p[i - s] == ids.keys()[i as int]);
                assert(errs[i - s] == primary_entry_error(book, p[i - s]));
            }
            match self.primary_listings.get(key) {
                None => {
                    proof {
                        lemma_first_error_at(errs, i - s);
                    }
                    return Err(MarketError::ListingNotFound);
                },
                Some(l) => match primary_json(l) {
                    Ok(j) => {
                        out.push(j);
                    },
                    Err(err) => {
                        proof {
                            lemma_first_error_at(errs, i - s);
                        }
                        return Err(err);
                    },
                },
            }
            i += 1;
        }
        proof {
            lemma_first_error_none(errs);
        }
        Ok(out)
    }

    /// The primary listing of a collection.
    pub fn primary_listing(&self, nft_contract_id: String, collection_id: u64) -> (r: Result<
        JsonPrimaryListing,
        MarketError,
    >)
        requires
            self.wf(),
        ensures
            ({
                let k = (nft_contract_id@, collection_id);
                let e = primary_entry_error(self.primary_listings.by_id@, k);
                &&& e is Some ==> r == Err::<JsonPrimaryListing, MarketError>(e.unwrap())
                &&& e is None ==> (r matches Ok(j) && is_primary_json(j, self.primary_listings.by_id@[k]))
            }),
    {
        let key = PrimaryListingId { nft_contract_id, collection_id };
        match self.primary_listings.get(&key) {
            None => Err(MarketError::ListingNotFound),
            Some(l) => primary_json(l),
        }
    }

    /// The standing bid with id `bid_id` of a primary listing.
    pub fn primary_listing_bid(&self, nft_contract_id: String, collection_id: u64, bid_id: u64) -> (r: Result<
        JsonPrimaryListingBid,
        MarketError,
    >)
        requires
            self.wf(),
        ensures
            ({
                let k = (nft_contract_id@, collection_id);
                let book = self.primary_listings.by_id@;
                if !book.contains_key(k) {
                    r == Err::<JsonPrimaryListingBid, MarketError>(MarketError::ListingNotFound)
                } else {
                    match bid_with_id(book[k].bids@, bid_id) {
                        None => r == Err::<JsonPrimaryListingBid, MarketError>(MarketError::BidNotFound),
                        Some(b) => r matches Ok(j) && is_primary_bid_json(j, b),
                    }
                }
            }),
    {
        let key = PrimaryListingId { nft_contract_id, collection_id };
        match self.primary_listings.get(&key) {
            None => Err(MarketError::ListingNotFound),
            Some(l) => match l.bid(bid_id) {
                None => Err(MarketError::BidNotFound),
                Some(j) => Ok(j),
            },
        }
    }
}

impl MarketplaceContract {
    /// A page of the bids on a primary listing, all of them or those of one
    /// bidder, best first.
    pub fn primary_listing_bids_page(
        &self,
        nft_contract_id: String,
        collection_id: u64,
        bidder_id: Option<&String>,
        from_index: Option<u128>,
        limit: Option<u64>,
    ) -> (r: Result<Vec<JsonPrimaryListingBid>, MarketError>)
        requires
            self.wf(),
        ensures
            ({
                let k = (nft_contract_id@, collection_id);
                let book = self.primary_listings.by_id@;
                let bidder = match bidder_id { Some(b) => Some(b@), None => None };
                if !book.contains_key(k) {
                    r == Err::<Vec<JsonPrimaryListingBid>, MarketError>(MarketError::ListingNotFound)
                } else {
                    let p = selected_bids(book[k].bids@, bidder, from_or_zero(from_index), limit_or_ten(limit));
                    r matches Ok(v) && v@.len() == p.len() && forall|i: int|
                        0 <= i < p.len() ==> is_primary_bid_json(#[trigger] v@[i], p[i])
                }
            }),
    {
        let key = PrimaryListingId { nft_contract_id, collection_id };
        match self.primary_listings.get(&key) {
            None => Err(MarketError::ListingNotFound),
            Some(l) => {
                let (from, count) = page_params(from_index, limit);
                Ok(primary_bids_page(&l.bids, bidder_id, from, count))
            },
        }
    }

    /// A page of the bids of one bidder on a primary listing.
    pub fn primary_listing_bids_by_bidder(
        &self,
        nft_contract_id: String,
        collection_id: u64,
        bidder_id: String,
        from_index: Option<u128>,
        limit: Option<u64>,
    ) -> (r: Result<Vec<JsonPrimaryListingBid>, MarketError>)
        requires
            self.wf(),
        ensures
            ({
                let k = (nft_contract_id@, collection_id);
                let book = self.primary_listings.by_id@;
                if !book.contains_key(k) {
                    r == Err::<Vec<JsonPrimaryListingBid>, MarketError>(MarketError::ListingNotFound)
                } else {
                    let p = selected_bids(book[k].bids@, Some(bidder_id@), from_or_zero(from_index), limit_or_ten(limit));
                    r matches Ok(v) && v@.len() == p.len() && forall|i: int|
                        0 <= i < p.len() ==> is_primary_bid_json(#[trigger] v@[i], p[i])
                }
            }),
    {
        self.primary_listing_bids_page(nft_contract_id, collection_id, Some(&bidder_id), from_index, limit)
    }

    /// A page of all bids on a primary listing.
    pub fn primary_listing_bids(
        &self,
        nft_contract_id: String,
        collection_id: u64,
        from_index: Option<u128>,
        limit: Option<u64>,
    ) -> (r: Result<Vec<JsonPrimaryListingBid>, MarketError>)
        requires
            self.wf(),
        ensures
            ({
                let k = (nft_contract_id@, collection_id);
                let book = self.primary_listings.by_id@;
                if !book.contains_key(k) {
                    r == Err::<Vec<JsonPrimaryListingBid>, MarketError>(MarketError::ListingNotFound)
                } else {
                    let p = page(book[k].bids@, from_or_zero(from_index), limit_or_ten(limit));
                    r matches Ok(v) && v@.len() == p.len() && forall|i: int|
                        0 <= i < p.len() ==> is_primary_bid_json(#[trigger] v@[i], p[i])
                }
            }),
    {
        self.primary_listing_bids_page(nft_contract_id, collection_id, None, from_index, limit)
    }

    /// A page of all secondary listings, in storage order.
    pub fn secondary_listings(&self, from_index: Option<u128>, limit: Option<u64>) -> (r: Vec<JsonSecondaryListing>)
        requires
            self.wf(),
        ensures
            ({
                let p = page(self.secondary_listings.by_id.values(), from_or_zero(from_index), limit_or_ten(limit));
                &&& r@.len() == p.len()
                &&& forall|i: int| 0 <= i < p.len() ==> is_secondary_json(#[trigger] r@[i], p[i])
            }),
    {
        let (from, count) = page_params(from_index, limit);
        let table = &self.secondary_listings.by_id;
        let (s, e) = page_bounds(table.len(), from, count);
        let ghost p = page(table.values(), from, count);
        proof {
            table.lemma_lens();
        }
        let mut out: Vec<JsonSecondaryListing> = Vec::new();
        let mut i = s;
        while i < e
            invariant
                s <= i <= e <= table.values().len(),
                table.keys().len() == table.values().len(),
                p == table.values().subrange(s as int, e as int),
                out@.len() == i - s,
                forall|j: int| 0 <= j < i - s ==> is_secondary_json(#[trigger] out@[j], p[j]),
            decreases e - i,
        {
            out.push(secondary_json(table.value_at(i)));
            i += 1;
        }
        out
    }

    /// A page of the secondary listings of a seller, in the order of the
    /// seller's index; empty for a seller without listings.
    pub fn secondary_listings_by_seller(
        &self,
        seller_account_id: &String,
        from_index: Option<u128>,
        limit: Option<u64>,
    ) -> (r: Result<Vec<JsonSecondaryListing>, MarketError>)
        requires
            self.wf(),
        ensures
            ({
                let p = page(self.secondary_ids_of(seller_account_id@), from_or_zero(from_index), limit_or_ten(limit));
                let book = self.secondary_listings.by_id@;
                let errs = secondary_entry_errors(book, p);
                &&& first_error(errs) is Some ==> r == Err::<Vec<JsonSecondaryListing>, MarketError>(
                    first_error(errs).unwrap(),
                )
                &&& first_error(errs) is None ==> (r matches Ok(v) && v@.len() == p.len() && forall|i: int|
                    0 <= i < p.len() ==> is_secondary_json(#[trigger] v@[i], book[p[i]]))
            }),
    {
        let (from, count) = page_params(from_index, limit);
        let ids = match self.secondary_listings.by_seller_id.get(seller_account_id) {
            None => {
                let ghost p = page(self.secondary_ids_of(seller_account_id@), from, count);
                proof {
                    assert(p.len() == 0);
                    lemma_first_error_none(secondary_entry_errors(self.secondary_listings.by_id@, p));
                }
                return Ok(Vec::new());
            },
            Some(ids) => ids,
        };
        let (s, e) = page_bounds(ids.len(), from, count);
        let ghost book = self.secondary_listings.by_id@;
        let ghost p = page(ids.keys(), from, count);
        let ghost errs = secondary_entry_errors(book, p);
        let mut out: Vec<JsonSecondaryListing> = Vec::new();
        let mut i = s;
        while i < e
            invariant
                self.wf(),
                book == self.secondary_listings.by_id@,
                s <= i <= e <= ids.keys().len(),
                p == ids.keys().subrange(s as int, e as int),
                p == page(self.secondary_ids_of(seller_account_id@), from_or_zero(from_index), limit_or_ten(limit)),
                errs == secondary_entry_errors(book, p),
                out@.len() == i - s,
                forall|j: int| 0 <= j < i - s ==> errs[j] is None,
                forall|j: int| 0 <= j < i - s ==> is_secondary_json(#[trigger] out@[j], book[p[j]]),
            decreases e - i,
        {
            let key = ids.key_at(i);
            proof {
                assert(p[i - s] == ids.keys()[i as int]);
                assert(errs[i - s] == secondary_entry_error(book, p[i - s]));
            }
            match self.secondary_listings.get(key) {
                None => {
                    proof {
                        lemma_first_error_at(errs, i - s);
                    }
                    return Err(MarketError::ListingNotFound);
                },
                Some(l) => {
                    out.push(secondary_json(l));
                },
            }
            i += 1;
        }
        proof {
            lemma_first_error_none(errs);
        }
        Ok(out)
    }

    /// Whether a token stands listed.
    pub fn is_listed(&self, nft_contract_id: String, token_id: String) -> (b: bool)
        requires
            self.wf(),
        ensures
            b == self.secondary_listings.by_id@.contains_key((nft_contract_id@, token_id@)),
    {
        let key = SecondaryListingId { nft_contract_id, token_id };
        self.secondary_listings.get(&key).is_some()
    }

    /// The secondary listing of a token.
    pub fn secondary_listing(&self, nft_contract_id: String, token_id: String) -> (r: Result<
        JsonSecondaryListing,
        MarketError,
    >)
        requires
            self.wf(),
        ensures
            ({
                let k = (nft_contract_id@, token_id@);
                let book = self.secondary_listings.by_id@;
                &&& !book.contains_key(k) ==> r == Err::<JsonSecondaryListing, MarketError>(MarketError::ListingNotFound)
                &&& book.contains_key(k) ==> (r matches Ok(j) && is_secondary_json(j, book[k]))
            }),
    {
        let key = SecondaryListingId { nft_contract_id, token_id };
        match self.secondary_listings.get(&key) {
            None => Err(MarketError::ListingNotFound),
            Some(l) => Ok(secondary_json(l)),
        }
    }

    /// The standing bid with id `bid_id` of a secondary listing.
    pub fn secondary_listing_bid(&self, nft_contract_id: String, token_id: String, bid_id: u64) -> (r: Result<
        JsonSecondaryListingBid,
        MarketError,
    >)
        requires
            self.wf(),
        ensures
            ({
                let k = (nft_contract_id@, token_id@);
                let book = self.secondary_listings.by_id@;
                if !book.contains_key(k) {
                    r == Err::<JsonSecondaryListingBid, MarketError>(MarketError::ListingNotFound)
                } else {
                    match bid_with_id(book[k].bids@, bid_id) {
                        None => r == Err::<JsonSecondaryListingBid, MarketError>(MarketError::BidNotFound),
                        Some(b) => r matches Ok(j) && is_secondary_bid_json(j, b),
                    }
                }
            }),
    {
        let key = SecondaryListingId { nft_contract_id, token_id };
        match self.secondary_listings.get(&key) {
            None => Err(MarketError::ListingNotFound),
            Some(l) => match l.bid(bid_id) {
                None => Err(MarketError::BidNotFound),
                Some(j) => Ok(j),
            },
        }
    }

    /// A page of the bids on a secondary listing, all of them or those of
    /// one bidder, best first.
    pub fn secondary_listing_bids_page(
        &self,
        nft_contract_id: String,
        token_id: String,
        bidder_id: Option<&String>,
        from_index: Option<u128>,
        limit: Option<u64>,
    ) -> (r: Result<Vec<JsonSecondaryListingBid>, MarketError>)
        requires
            self.wf(),
        ensures
            ({
                let k = (nft_contract_id@, token_id@);
                let book = self.secondary_listings.by_id@;
                let bidder = match bidder_id { Some(b) => Some(b@), None => None };
                if !book.contains_key(k) {
                    r == Err::<Vec<JsonSecondaryListingBid>, MarketError>(MarketError::ListingNotFound)
                } else {
                    let p = selected_bids(book[k].bids@, bidder, from_or_zero(from_index), limit_or_ten(limit));
                    r matches Ok(v) && v@.len() == p.len() && forall|i: int|
                        0 <= i < p.len() ==> is_secondary_bid_json(#[trigger] v@[i], p[i])
                }
            }),
    {
        let key = SecondaryListingId { nft_contract_id, token_id };
        match self.secondary_listings.get(&key) {
            None => Err(MarketError::ListingNotFound),
            Some(l) => {
                let (from, count) = page_params(from_index, limit);
                Ok(secondary_bids_page(&l.bids, bidder_id, from, count))
            },
        }
    }

    /// A page of the bids of one bidder on a secondary listing.
    pub fn secondary_listing_bids_by_bidder(
        &self,
        nft_contract_id: String,
        token_id: String,
        bidder_id: String,
        from_index: Option<u128>,
        limit: Option<u64>,
    ) -> (r: Result<Vec<JsonSecondaryListingBid>, MarketError>)
        requires
            self.wf(),
        ensures
            ({
                let k = (nft_contract_id@, token_id@);
                let book = self.secondary_listings.by_id@;
                if !book.contains_key(k) {
                    r == Err::<Vec<JsonSecondaryListingBid>, MarketError>(MarketError::ListingNotFound)
                } else {
                    let p = selected_bids(book[k].bids@, Some(bidder_id@), from_or_zero(from_index), limit_or_ten(limit));
                    r matches Ok(v) && v@.len() == p.len() && forall|i: int|
                        0 <= i < p.len() ==> is_secondary_bid_json(#[trigger] v@[i], p[i])
                }
            }),
    {
        self.secondary_listing_bids_page(nft_contract_id, token_id, Some(&bidder_id), from_index, limit)
    }

    /// A page of all bids on a secondary listing.
    pub fn secondary_listing_bids(
        &self,
        nft_contract_id: String,
        token_id: String,
        from_index: Option<u128>,
        limit: Option<u64>,
    ) -> (r: Result<Vec<JsonSecondaryListingBid>, MarketError>)
        requires
            self.wf(),
        ensures
            ({
                let k = (nft_contract_id@, token_id@);
                let book = self.secondary_listings.by_id@;
                if !book.contains_key(k) {
                    r == Err::<Vec<JsonSecondaryListingBid>, MarketError>(MarketError::ListingNotFound)
                } else {
                    let p = page(book[k].bids@, from_or_zero(from_index), limit_or_ten(limit));
                    r matches Ok(v) && v@.len() == p.len() && forall|i: int|
                        0 <= i < p.len() ==> is_secondary_bid_json(#[trigger] v@[i], p[i])
                }
            }),
    {
        self.secondary_listing_bids_page(nft_contract_id, token_id, None, from_index, limit)
    }
}

/// The bids of `bidder`, in order.
pub open spec fn bids_of(bids: Seq<Bid>, bidder: Seq<char>) -> Seq<Bid> {
    bids.filter(bid_by(bidder))
}

/// Whether a bid was placed by `bidder`.
pub open spec fn bid_by(bidder: Seq<char>) -> spec_fn(Bid) -> bool {
    |b: Bid| b.bidder_id@ == bidder
}

/// The bids a page selects: those of `bidder` when one is given, else all,
/// from the `from`-th on, at most `count` of them.
pub open spec fn selected_bids(bids: Seq<Bid>, bidder: Option<Seq<char>>, from: usize, count: usize) -> Seq<Bid> {
    let sel = match bidder {
        Some(b) => bids_of(bids, b),
        None => bids,
    };
    page(sel, from, count)
}

/// The positions in `bids` of the bids that a page selects, in order.
pub fn bid_positions(bids: &Vec<Bid>, bidder: Option<&String>, from: usize, count: usize) -> (r: Vec<usize>)
    ensures
        ({
            let p = selected_bids(bids@, match bidder { Some(b) => Some(b@), None => None }, from, count);
            &&& r@.len() == p.len()
            &&& forall|i: int| 0 <= i < p.len() ==> #[trigger] r@[i] < bids@.len() && bids@[r@[i] as int] == p[i]
        }),
{
    let mut selected: Vec<usize> = Vec::new();
    let ghost sel = match bidder {
        Some(b) => bids_of(bids@, b@),
        None => bids@,
    };
    let n = bids.len();
    let mut i: usize = 0;
    while i < n
        invariant
            n == bids@.len(),
            i <= n,
            sel == (match bidder {
                Some(b) => bids_of(bids@, b@),
                None => bids@,
            }),
            selected@.len() == (match bidder {
                Some(b) => bids_of(bids@.take(i as int), b@),
                None => bids@.take(i as int),
            }).len(),
            forall|j: int| 0 <= j < selected@.len() ==> #[trigger] selected@[j] < n && bids@[selected@[j] as int] == (match bidder {
                Some(b) => bids_of(bids@.take(i as int), b@),
                None => bids@.take(i as int),
            })[j],
        decreases n - i,
    {
        let keep = match bidder {
            Some(b) => bids[i].bidder_id == *b,
            None => true,
        };
        proof {
            assert(bids@.take(i + 1) == bids@.take(i as int).push(bids@[i as int]));
            match bidder {
                Some(b) => {
                    bids@.take(i as int).lemma_filter_push(bids@[i as int], bid_by(b@));
                },
                None => {},
            }
        }
        if keep {
            selected.push(i);
        }
        i += 1;
    }
    proof {
        assert(bids@.take(n as int) == bids@);
    }
    let (s, e) = page_bounds(selected.len(), from, count);
    let mut out: Vec<usize> = Vec::new();
    let mut k = s;
    while k < e
        invariant
            s <= k <= e <= selected@.len(),
            s == page_start(sel.len() as int, from),
            e == page_end(sel.len() as int, from, count),
            selected@.len() == sel.len(),
            forall|j: int| 0 <= j < selected@.len() ==> #[trigger] selected@[j] < bids@.len() && bids@[selected@[j] as int] == sel[j],
            out@.len() == k - s,
            forall|j: int| 0 <= j < k - s ==> #[trigger] out@[j] < bids@.len() && bids@[out@[j] as int] == sel[s + j],
        decreases e - k,
    {
        out.push(selected[k]);
        k += 1;
    }
    out
}

/// A page of the bids on a primary listing as clients see them.
pub fn primary_bids_page(bids: &Vec<Bid>, bidder: Option<&String>, from: usize, count: usize) -> (r: Vec<JsonPrimaryListingBid>)
    ensures
        ({
            let p = selected_bids(bids@, match bidder { Some(b) => Some(b@), None => None }, from, count);
            &&& r@.len() == p.len()
            &&& forall|i: int| 0 <= i < p.len() ==> is_primary_bid_json(#[trigger] r@[i], p[i])
        }),
{
    let positions = bid_positions(bids, bidder, from, count);
    let ghost p = selected_bids(bids@, match bidder { Some(b) => Some(b@), None => None }, from, count);
    let mut out: Vec<JsonPrimaryListingBid> = Vec::new();
    let mut k: usize = 0;
    while k < positions.len()
        invariant
            positions@.len() == p.len(),
            forall|i: int| 0 <= i < p.len() ==> #[trigger] positions@[i] < bids@.len() && bids@[positions@[i] as int] == p[i],
            k <= positions@.len(),
            out@.len() == k,
            forall|j: int| 0 <= j < k ==> is_primary_bid_json(#[trigger] out@[j], p[j]),
        decreases positions@.len() - k,
    {
        let b = &bids[positions[k]];
        out.push(JsonPrimaryListingBid { id: b.id, bidder_id: b.bidder_id.clone(), amount_yocto: b.amount_yocto });
        k += 1;
    }
    out
}

/// A page of the bids on a secondary listing as clients see them.
pub fn secondary_bids_page(bids: &Vec<Bid>, bidder: Option<&String>, from: usize, count: usize) -> (r: Vec<JsonSecondaryListingBid>)
    ensures
        ({
            let p = selected_bids(bids@, match bidder { Some(b) => Some(b@), None => None }, from, count);
            &&& r@.len() == p.len()
            &&& forall|i: int| 0 <= i < p.len() ==> is_secondary_bid_json(#[trigger] r@[i], p[i])
        }),
{
    let positions = bid_positions(bids, bidder, from, count);
    let ghost p = selected_bids(bids@, match bidder { Some(b) => Some(b@), None => None }, from, count);
    let mut out: Vec<JsonSecondaryListingBid> = Vec::new();
    let mut k: usize = 0;
    while k < positions.len()
        invariant
            positions@.len() == p.len(),
            forall|i: int| 0 <= i < p.len() ==> #[trigger] positions@[i] < bids@.len() && bids@[positions@[i] as int] == p[i],
            k <= positions@.len(),
            out@.len() == k,
            forall|j: int| 0 <= j < k ==> is_secondary_bid_json(#[trigger] out@[j], p[j]),
        decreases positions@.len() - k,
    {
        let b = &bids[positions[k]];
        out.push(JsonSecondaryListingBid { id: b.id, bidder_id: b.bidder_id.clone(), amount_yocto: b.amount_yocto });
        k += 1;
    }
    out
}

/// A proposal on a primary listing as clients see it: a bid under its
/// earlier name.
pub struct JsonPrimaryListingProposal {
    pub id: u64,
    pub proposer_id: String,
    pub price_yocto: u128,
}

pub open spec fn is_proposal_json(j: JsonPrimaryListingProposal, b: Bid) -> bool {
    j.id == b.id && j.proposer_id@ == b.bidder_id@ && j.price_yocto == b.amount_yocto
}

/// The position of the first bid with the given id.
pub fn position_of_bid(bids: &Vec<Bid>, bid_id: u64) -> (r: Option<usize>)
    ensures
        r is None ==> forall|i: int| 0 <= i < bids@.len() ==> #[trigger] bids@[i].id != bid_id,
        r matches Some(i) ==> i < bids@.len() && bids@[i as int].id == bid_id
            && forall|j: int| 0 <= j < i ==> #[trigger] bids@[j].id != bid_id,
{
    let n = bids.len();
    let mut i: usize = 0;
    while i < n
        invariant
            n == bids@.len(),
            i <= n,
            forall|j: int| 0 <= j < i ==> #[trigger] bids@[j].id != bid_id,
        decreases n - i,
    {
        if bids[i].id == bid_id {
            return Some(i);
        }
        i += 1;
    }
    None
}

/// The first bid with the given id, if any.
pub open spec fn bid_with_id(bids: Seq<Bid>, bid_id: u64) -> Option<Bid> {
    if exists|i: int| 0 <= i < bids.len() && #[trigger] bids[i].id == bid_id {
        let i = choose|i: int| 0 <= i < bids.len() && #[trigger] bids[i].id == bid_id && forall|j: int|
            0 <= j < i ==> #[trigger] bids[j].id != bid_id;
        Some(bids[i])
    } else {
        None
    }
}

proof fn lemma_bid_with_id(bids: Seq<Bid>, bid_id: u64, r: Option<usize>)
    requires
        r is None ==> forall|i: int| 0 <= i < bids.len() ==> #[trigger] bids[i].id != bid_id,
        r matches Some(i) ==> i < bids.len() && bids[i as int].id == bid_id
            && forall|j: int| 0 <= j < i ==> #[trigger] bids[j].id != bid_id,
    ensures
        r is None ==> bid_with_id(bids, bid_id) is None,
        r matches Some(i) ==> bid_with_id(bids, bid_id) == Some(bids[i as int]),
{
    if let Some(i) = r {
        let k = choose|k: int| 0 <= k < bids.len() && #[trigger] bids[k].id == bid_id && forall|j: int|
            0 <= j < k ==> #[trigger] bids[j].id != bid_id;
        assert(0 <= i < bids.len() && bids[i as int].id == bid_id);
        if k < i {
            assert(bids[k].id != bid_id);
        } else if k > i {
            assert(bids[i as int].id != bid_id);
        }
    }
}

impl PrimaryListing {
    /// The bid with the given id, as clients see it.
    pub fn bid(&self, bid_id: u64) -> (r: Option<JsonPrimaryListingBid>)
        ensures
            match bid_with_id(self.bids@, bid_id) {
                None => r is None,
                Some(b) => r matches Some(j) && is_primary_bid_json(j, b),
            },
    {
        let pos = position_of_bid(&self.bids, bid_id);
        proof {
            lemma_bid_with_id(self.bids@, bid_id, pos);
        }
        match pos {
            None => None,
            Some(i) => {
                let b = &self.bids[i];
                Some(JsonPrimaryListingBid { id: b.id, bidder_id: b.bidder_id.clone(), amount_yocto: b.amount_yocto })
            },
        }
    }

    /// The proposal with the given id, as clients see it.
    pub fn proposal(&self, proposal_id: u64) -> (r: Option<JsonPrimaryListingProposal>)
        ensures
            match bid_with_id(self.bids@, proposal_id) {
                None => r is None,
                Some(b) => r matches Some(j) && is_proposal_json(j, b),
            },
    {
        let pos = position_of_bid(&self.bids, proposal_id);
        proof {
            lemma_bid_with_id(self.bids@, proposal_id, pos);
        }
        match pos {
            None => None,
            Some(i) => {
                let b = &self.bids[i];
                Some(JsonPrimaryListingProposal { id: b.id, proposer_id: b.bidder_id.clone(), price_yocto: b.amount_yocto })
            },
        }
    }
}

impl SecondaryListing {
    /// The bid with the given id, as clients see it.
    pub fn bid(&self, bid_id: u64) -> (r: Option<JsonSecondaryListingBid>)
        ensures
            match bid_with_id(self.bids@, bid_id) {
                None => r is None,
                Some(b) => r matches Some(j) && is_secondary_bid_json(j, b),
            },
    {
        let pos = position_of_bid(&self.bids, bid_id);
        proof {
            lemma_bid_with_id(self.bids@, bid_id, pos);
        }
        match pos {
            None => None,
            Some(i) => {
                let b = &self.bids[i];
                Some(JsonSecondaryListingBid { id: b.id, bidder_id: b.bidder_id.clone(), amount_yocto: b.amount_yocto })
            },
        }
    }
}

/// A page of the bids on a primary listing under their earlier name of
/// proposals.
pub fn proposals_page(bids: &Vec<Bid>, proposer: Option<&String>, from: usize, count: usize) -> (r: Vec<
    JsonPrimaryListingProposal,
>)
    ensures
        ({
            let p = selected_bids(bids@, match proposer { Some(b) => Some(b@), None => None }, from, count);
            &&& r@.len() == p.len()
            &&& forall|i: int| 0 <= i < p.len() ==> is_proposal_json(#[trigger] r@[i], p[i])
        }),
{
    let positions = bid_positions(bids, proposer, from, count);
    let ghost p = selected_bids(bids@, match proposer { Some(b) => Some(b@), None => None }, from, count);
    let mut out: Vec<JsonPrimaryListingProposal> = Vec::new();
    let mut k: usize = 0;
    while k < positions.len()
        invariant
            positions@.len() == p.len(),
            forall|i: int| 0 <= i < p.len() ==> #[trigger] positions@[i] < bids@.len() && bids@[positions@[i] as int] == p[i],
            k <= positions@.len(),
            out@.len() == k,
            forall|j: int| 0 <= j < k ==> is_proposal_json(#[trigger] out@[j], p[j]),
        decreases positions@.len() - k,
    {
        let b = &bids[positions[k]];
        out.push(JsonPrimaryListingProposal { id: b.id, proposer_id: b.bidder_id.clone(), price_yocto: b.amount_yocto });
        k += 1;
    }
    out
}

impl MarketplaceContract {
    /// A proposal on a primary listing, if one with that id stands.
    pub fn primary_listing_proposal(&self, nft_contract_id: String, collection_id: u64, proposal_id: u64) -> (r: Result<
        Option<JsonPrimaryListingProposal>,
        MarketError,
    >)
        requires
            self.wf(),
        ensures
            ({
                let k = (nft_contract_id@, collection_id);
                let book = self.primary_listings.by_id@;
                if !book.contains_key(k) {
                    r == Err::<Option<JsonPrimaryListingProposal>, MarketError>(MarketError::ListingNotFound)
                } else {
                    match bid_with_id(book[k].bids@, proposal_id) {
                        None => r == Ok::<Option<JsonPrimaryListingProposal>, MarketError>(None),
                        Some(b) => r matches Ok(Some(j)) && is_proposal_json(j, b),
                    }
                }
            }),
    {
        let key = PrimaryListingId { nft_contract_id, collection_id };
        match self.primary_listings.get(&key) {
            None => Err(MarketError::ListingNotFound),
            Some(l) => Ok(l.proposal(proposal_id)),
        }
    }

    /// A page of the proposals of one proposer on a primary listing.
    pub fn primary_listing_proposals_by_proposer(
        &self,
        nft_contract_id: String,
        collection_id: u64,
        proposer_id: String,
        from_index: Option<u128>,
        limit: Option<u64>,
    ) -> (r: Result<Vec<JsonPrimaryListingProposal>, MarketError>)
        requires
            self.wf(),
        ensures
            ({
                let k = (nft_contract_id@, collection_id);
                let book = self.primary_listings.by_id@;
                if !book.contains_key(k) {
                    r == Err::<Vec<JsonPrimaryListingProposal>, MarketError>(MarketError::ListingNotFound)
                } else {
                    let p = selected_bids(book[k].bids@, Some(proposer_id@), from_or_zero(from_index), limit_or_ten(limit));
                    r matches Ok(v) && v@.len() == p.len() && forall|i: int|
                        0 <= i < p.len() ==> is_proposal_json(#[trigger] v@[i], p[i])
                }
            }),
    {
        let key = PrimaryListingId { nft_contract_id, collection_id };
        match self.primary_listings.get(&key) {
            None => Err(MarketError::ListingNotFound),
            Some(l) => {
                let (from, count) = page_params(from_index, limit);
                Ok(proposals_page(&l.bids, Some(&proposer_id), from, count))
            },
        }
    }

    /// A page of all proposals on a primary listing.
    pub fn primary_listing_proposals(
        &self,
        nft_contract_id: String,
        collection_id: u64,
        from_index: Option<u128>,
        limit: Option<u64>,
    ) -> (r: Result<Vec<JsonPrimaryListingProposal>, MarketError>)
        requires
            self.wf(),
        ensures
            ({
                let k = (nft_contract_id@, collection_id);
                let book = self.primary_listings.by_id@;
                if !book.contains_key(k) {
                    r == Err::<Vec<JsonPrimaryListingProposal>, MarketError>(MarketError::ListingNotFound)
                } else {
                    let p = page(book[k].bids@, from_or_zero(from_index), limit_or_ten(limit));
                    r matches Ok(v) && v@.len() == p.len() && forall|i: int|
                        0 <= i < p.len() ==> is_proposal_json(#[trigger] v@[i], p[i])
                }
            }),
    {
        let key = PrimaryListingId { nft_contract_id, collection_id };
        match self.primary_listings.get(&key) {
            None => Err(MarketError::ListingNotFound),
            Some(l) => {
                let (from, count) = page_params(from_index, limit);
                Ok(proposals_page(&l.bids, None, from, count))
            },
        }
    }
}

} // verus!
