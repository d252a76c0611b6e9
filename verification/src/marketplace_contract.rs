//! The offering board: one fixed-price offering per NFT contract,
//! listed by the marketplace owner, with winning price proposals backed by a
//! deposit of a tenth of their price.
pub mod fpo;
pub mod contract;
pub mod enumeration;
