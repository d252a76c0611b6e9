pub mod constants;
pub mod errors;
pub mod external;
pub mod status;
pub mod bid;
pub mod primary;
pub mod secondary;
pub mod book;
pub mod contract;
pub mod schedule;
pub mod refunds;
pub mod primary_seller;
pub mod primary_buyer;
pub mod secondary_ops;
pub mod enumeration;
pub mod keys;
