//! Verified core of the Eneftigo NFT marketplace: listings, bids, fixed-price
//! offerings, storage deposits and the NFT collection contract, modelled as
//! plain state machines whose every entry point carries a contract.
pub mod marketplace;
pub mod table;
pub mod offer;
pub mod parsing;
pub mod paging;
pub mod context;
pub mod digest;
pub mod nft;
pub mod nft_contract;
pub mod fpo;
pub mod marketplace_contract;
