use vstd::prelude::*;

verus! {

broadcast use vstd::string::to_string_from_display_ensures_for_str;

/// The largest supply an offering may have.
pub const TOTAL_SUPPLY_MAX: u64 = 100;
/// The lowest buy-now price.
pub const MIN_BUY_NOW_PRICE_YOCTO: u128 = 1000;
/// Prices and proposals are whole multiples of this step.
pub const PRICE_STEP_YOCTO: u128 = 10;
/// An offering lasts at least an hour.
pub const MIN_DURATION_NANO: i64 = 3600000000000;
/// An offering that accepts proposals lasts at most two weeks, so that
/// proposers' deposits are not held too long.
pub const MAX_DURATION_NANO: i64 = 3600000000000 * 24 * 14;
/// The share of a revoked proposal kept as a penalty, in percent.
pub const PROPOSAL_REVOKE_PENALTY_RATE: u128 = 10;
/// The longest title, in bytes.
pub const MAX_TITLE_LEN: usize = 128;
/// The length of an IPFS gateway URL: the gateway prefix and a CIDv0.
pub const IPFS_URL_LEN: usize = 21 + 46;
/// Worst-case storage of an offering on the marketplace, measured.
pub const FPO_ADD_WORST_CASE_MARKETPLACE_STORAGE: u64 = 1349;
/// Worst-case storage of a new collection on the NFT contract, measured.
pub const NEW_COLLECTION_WORST_CASE_NFT_STORAGE: u64 = 422;
/// Worst-case storage of a minted token, measured.
pub const NFT_MINT_WORST_CASE_STORAGE: u64 = 830;
pub const NFT_MAKE_COLLECTION_GAS: u64 = 5_000_000_000_000;
pub const NFT_MAKE_COLLECTION_COMPLETION_GAS: u64 = 6_000_000_000_000;
pub const NFT_MINT_GAS: u64 = 15_000_000_000_000;
pub const NFT_MINT_COMPLETION_GAS: u64 = 5_000_000_000_000;

/// The account that receives the penalties.
pub fn eneftigo_profit_account_id() -> (s: String)
    ensures
        s@ == "profit.eneftigo.near"@,
{
    "profit.eneftigo.near".to_string()
}

} // verus!
