use vstd::prelude::*;

verus! {

/// The smallest total storage deposit an account may hold: 0.1 Near.
pub const MIN_DEPOSIT: u128 = 100_000_000_000_000_000_000_000;

pub const NO_DEPOSIT: u128 = 0;

pub const ACCOUNT_NAME_LEN_MAX: usize = 64;

pub const MAX_LISTING_TITLE_LEN: usize = 128;

pub const MIN_PRICE_YOCTO: u128 = 1000;

pub const PRICE_STEP_YOCTO: u128 = 10;

pub const MIN_BID_YOCTO: u128 = 1000;

pub const BID_STEP_YOCTO: u128 = 10;

/// Percentage of a revoked bid kept as a fee.
pub const PROPOSAL_REVOKE_FEE_RATE: u128 = 10;

pub const TOTAL_SUPPLY_MAX: u64 = 100;

/// Shortest allowed primary listing: one hour.
pub const PRIMARY_LISTING_MIN_DURATION_NANO: i64 = 3600000000000;

/// Longest allowed proposal-accepting primary listing: two weeks.
pub const PRIMARY_LISTING_MAX_DURATION_NANO: i64 = 3600000000000 * 24 * 14;

pub const NFT_MAKE_COLLECTION_STORAGE_MAX: u64 = 4376;

pub const NFT_MINT_STORAGE_MAX: u64 = 3317;

pub const PRIMARY_LISTING_ADD_STORAGE_MAX: u64 = 3021;

pub const SECONDARY_LISTING_ADD_STORAGE_MAX: u64 = 3021;

pub const SECONDARY_LISTING_MIN_DURATION_NANO: i64 = 3600000000000;

pub const SECONDARY_LISTING_MAX_DURATION_NANO: i64 = 3600000000000 * 24 * 14;

pub const NFT_MAKE_COLLECTION_GAS: u64 = 5_000_000_000_000;

pub const NFT_MAKE_COLLECTION_COMPLETION_GAS: u64 = 6_000_000_000_000;

pub const NFT_MINT_GAS: u64 = 15_000_000_000_000;

pub const NFT_MINT_COMPLETION_GAS: u64 = 5_000_000_000_000;

pub const NFT_TRANSFER_GAS: u64 = 15_000_000_000_000;

pub const NFT_TRANSFER_COMPLETION_GAS: u64 = 5_000_000_000_000;

pub const NFT_MAKE_COLLECTION_STORAGE: u64 = 79;

} // verus!
