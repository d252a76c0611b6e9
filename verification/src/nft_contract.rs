//! A stand-alone NEP-171 token contract: tokens are minted one by one with
//! their own ids and metadata, and can be burnt.
pub mod contract;
pub mod mint;
pub mod enumeration;
