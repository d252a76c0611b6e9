//! Fixed-price offerings: a collection minted on demand at a buy-now price,
//! optionally accepting lower price proposals that are held in escrow.
pub mod config;
pub mod offering;
pub mod seller;
pub mod buyer;
pub mod enumeration;
