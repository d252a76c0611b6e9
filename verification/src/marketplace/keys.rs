use vstd::prelude::*;
use crate::digest::{sha256_digest, sha256_text};
use crate::nft::text::{decimal, decimal_string};
use crate::marketplace::primary::{PrimaryListingId, PrimaryListingStorageKey};
use crate::marketplace::secondary::{SecondaryListingId, SecondaryListingStorageKey};

verus! {

broadcast use vstd::string::to_string_from_display_ensures_for_str;

/// The prefixes under which the marketplace persists its collections.
pub enum MarketplaceStorageKey {
    PrimaryListingsById,
    PrimaryListingsBySellerId,
    PrimaryListingsBySellerIdInner { account_id_hash: [u8; 32] },
    SecondaryListingsById,
    SecondaryListingsBySellerId,
    SecondaryListingsBySellerIdInner { account_id_hash: [u8; 32] },
    StorageDeposits,
}

/// The hash that prefixes the storage of an account's records.
pub fn hash_account_id(account_id: &String) -> (h: [u8; 32])
    ensures
        h@ == sha256_digest(account_id@),
{
    sha256_text(account_id.as_str())
}

/// The text a primary listing id is hashed from: `<nft contract>.<collection>`.
pub open spec fn primary_listing_id_text(id: PrimaryListingId) -> Seq<char> {
    id.nft_contract_id@ + "."@ + decimal(id.collection_id as nat)
}

/// The text a secondary listing id is hashed from: `<nft contract>.<token>`.
pub open spec fn secondary_listing_id_text(id: SecondaryListingId) -> Seq<char> {
    id.nft_contract_id@ + "."@ + id.token_id@
}

/// The hash that prefixes the storage of a primary listing's records.
pub fn hash_primary_listing_id(listing_id: &PrimaryListingId) -> (h: [u8; 32])
    ensures
        h@ == sha256_digest(primary_listing_id_text(*listing_id)),
{
    let mut text = listing_id.nft_contract_id.clone();
    text.append(".");
    let n = decimal_string(listing_id.collection_id);
    text.append(n.as_str());
    proof {
        reveal_strlit(".");
    }
    sha256_text(text.as_str())
}

/// The hash that prefixes the storage of a secondary listing's records.
pub fn hash_secondary_listing_id(listing_id: &SecondaryListingId) -> (h: [u8; 32])
    ensures
        h@ == sha256_digest(secondary_listing_id_text(*listing_id)),
{
    let mut text = listing_id.nft_contract_id.clone();
    text.append(".");
    text.append(listing_id.token_id.as_str());
    proof {
        reveal_strlit(".");
    }
    sha256_text(text.as_str())
}

/// The key under which the primary listings of a seller are persisted.
pub fn primary_listings_of_seller_key(seller_id: &String) -> (k: MarketplaceStorageKey)
    ensures
        k matches MarketplaceStorageKey::PrimaryListingsBySellerIdInner { account_id_hash } && account_id_hash@
            == sha256_digest(seller_id@),
{
    MarketplaceStorageKey::PrimaryListingsBySellerIdInner { account_id_hash: hash_account_id(seller_id) }
}

/// The key under which the secondary listings of a seller are persisted.
pub fn secondary_listings_of_seller_key(seller_id: &String) -> (k: MarketplaceStorageKey)
    ensures
        k matches MarketplaceStorageKey::SecondaryListingsBySellerIdInner { account_id_hash } && account_id_hash@
            == sha256_digest(seller_id@),
{
    MarketplaceStorageKey::SecondaryListingsBySellerIdInner { account_id_hash: hash_account_id(seller_id) }
}

/// The key under which the offers of a primary listing are persisted.
pub fn primary_listing_offers_key(listing_id: &PrimaryListingId) -> (k: PrimaryListingStorageKey)
    ensures
        k matches PrimaryListingStorageKey::Proposals { listing_id_hash } && listing_id_hash@ == sha256_digest(
            primary_listing_id_text(*listing_id),
        ),
{
    PrimaryListingStorageKey::Proposals { listing_id_hash: hash_primary_listing_id(listing_id) }
}

/// The key under which the bids of a secondary listing are persisted.
pub fn secondary_listing_bids_key(listing_id: &SecondaryListingId) -> (k: SecondaryListingStorageKey)
    ensures
        k matches SecondaryListingStorageKey::Bids { listing_id_hash } && listing_id_hash@ == sha256_digest(
            secondary_listing_id_text(*listing_id),
        ),
{
    SecondaryListingStorageKey::Bids { listing_id_hash: hash_secondary_listing_id(listing_id) }
}

} // verus!
