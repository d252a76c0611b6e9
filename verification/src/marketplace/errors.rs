use vstd::prelude::*;
use crate::marketplace::status::ListingStatus;

verus! {

/// Why a marketplace call is refused. A refused call changes nothing.
#[derive(PartialEq, Eq, Structural, Clone, Copy, Debug)]
pub enum MarketError {
    DepositBelowMinimum,
    DepositCannotCoverStorage,
    WithdrawalExceedsDeposit,
    StorageDepositTooLow,
    TitleTooLong,
    MissingTitle,
    MissingMedia,
    InvalidMediaUrl,
    SupplyOutOfRange,
    PriceTooLow,
    PriceNotMultipleOfStep,
    MinBidTooLow,
    MinBidNotMultipleOfStep,
    MinProposalNotBelowPrice,
    WrongDateFormat,
    StartDateInThePast,
    EndDateInThePast,
    DurationTooShort,
    DurationTooLong,
    EndDateRequired,
    ListingNotFound,
    SellerIndexMissing,
    NotRunning(ListingStatus),
    BuyNowNotPossible,
    CannotBuyFromYourself,
    NoSupplyLeft,
    AttachedDepositTooLow,
    BidsNotAccepted,
    CannotBidOnOwnListing,
    BidNotBelowPrice,
    BidNotMultipleOfStep,
    BidTooLow,
    BidNotFound,
    NotBidder,
    NotSeller,
    NotEnoughProposals,
    StorageNotCovered,
    SellerDepositMissing,
    BuyerDepositMissing,
    NftCallFailed,
    NftCallNotReady,
    UnexpectedNftResult,
    NotCrossContractCall,
    OwnerNotSigner,
    MalformedMessage,
    NotIpfsUrl,
    NotMarketplaceOwner,
    AlreadyListed,
    DurationAndEndDate,
    NoProposalFromAccount,
    ProposalNotFound,
    CannotConcludeRunning,
    ProposalPriceLowered,
    ArithmeticOverflow,
}

/// Error codes that the marketplace reports to its clients.
#[derive(PartialEq, Eq, Structural, Clone, Copy, Debug)]
pub enum MarketplaceErrorCode {
    InvalidUrl,
    SupplyTooHigh,
    PriceTooLow,
    PriceNotMultipleOfStep,
    WrongDateFormat,
    DateIntoThePast,
    DurationTooShort,
    InsufficientDeposit,
    InvalidOfferingStatus,
    OfferingDoesNotExist,
    CannotBuyFromYourself,
    NoSupplyLeft,
    DepositWontCoverPrice,
    NftMintingFailed,
}

impl MarketplaceErrorCode {
    /// The numeric code: the variants are numbered from 0 in declaration order.
    pub open spec fn spec_code(&self) -> u16 {
        match self {
            MarketplaceErrorCode::InvalidUrl => 0,
            MarketplaceErrorCode::SupplyTooHigh => 1,
            MarketplaceErrorCode::PriceTooLow => 2,
            MarketplaceErrorCode::PriceNotMultipleOfStep => 3,
            MarketplaceErrorCode::WrongDateFormat => 4,
            MarketplaceErrorCode::DateIntoThePast => 5,
            MarketplaceErrorCode::DurationTooShort => 6,
            MarketplaceErrorCode::InsufficientDeposit => 7,
            MarketplaceErrorCode::InvalidOfferingStatus => 8,
            MarketplaceErrorCode::OfferingDoesNotExist => 9,
            MarketplaceErrorCode::CannotBuyFromYourself => 10,
            MarketplaceErrorCode::NoSupplyLeft => 11,
            MarketplaceErrorCode::DepositWontCoverPrice => 12,
            MarketplaceErrorCode::NftMintingFailed => 13,
        }
    }

    /// The numeric code of the error, as clients receive it.
    pub fn to_u16(&self) -> (c: u16)
        ensures
            c == self.spec_code(),
    {
        match self {
            MarketplaceErrorCode::InvalidUrl => 0,
            MarketplaceErrorCode::SupplyTooHigh => 1,
            MarketplaceErrorCode::PriceTooLow => 2,
            MarketplaceErrorCode::PriceNotMultipleOfStep => 3,
            MarketplaceErrorCode::WrongDateFormat => 4,
            MarketplaceErrorCode::DateIntoThePast => 5,
            MarketplaceErrorCode::DurationTooShort => 6,
            MarketplaceErrorCode::InsufficientDeposit => 7,
            MarketplaceErrorCode::InvalidOfferingStatus => 8,
            MarketplaceErrorCode::OfferingDoesNotExist => 9,
            MarketplaceErrorCode::CannotBuyFromYourself => 10,
            MarketplaceErrorCode::NoSupplyLeft => 11,
            MarketplaceErrorCode::DepositWontCoverPrice => 12,
            MarketplaceErrorCode::NftMintingFailed => 13,
        }
    }
}

/// An error as reported to clients: a numeric code and a message.
pub struct MarketplaceError {
    pub code: u16,
    pub message: String,
}

impl MarketplaceError {
    /// An error with its code and message.
    pub fn new(code: MarketplaceErrorCode, message: &str) -> (e: MarketplaceError)
        ensures
            e.code == code.spec_code(),
            e.message@ == message@,
    {
        MarketplaceError { code: code.to_u16(), message: message.to_owned() }
    }

    /// Turns the error into the failed result of any operation.
    pub fn into_err<S>(self) -> (r: Result<S, MarketplaceError>)
        ensures
            r matches Err(e) && e == self,
    {
        Err(self)
    }
}

} // verus!
