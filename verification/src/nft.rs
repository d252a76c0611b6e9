//! The NFT contract of the marketplace: collections of tokens that share
//! their metadata, minted one by one for buyers and transferred under the
//! NEP-171 rules.
pub mod errors;
pub mod text;
pub mod metadata;
pub mod contract;
pub mod owners;
pub mod collection;
pub mod mint;
pub mod nft_core;
