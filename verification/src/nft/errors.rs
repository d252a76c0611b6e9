use vstd::prelude::*;

verus! {

/// Why a call to the NFT contract is refused. A refused call changes nothing.
#[derive(PartialEq, Eq, Structural, Clone, Copy, Debug)]
pub enum NftError {
    NotContractOwner,
    MissingTitle,
    TitleTooLong,
    MissingMedia,
    InvalidMediaUrl,
    AttachedDepositTooLow,
    CollectionExistsForMedia,
    CollectionIdTaken,
    CollectionNotFound,
    CollectionEmpty,
    CollectionNotEmpty,
    CollectionFrozen,
    MaxSupplyReached,
    TooManyRoyaltyBeneficiaries,
    TokenExists,
    TokenNotFound,
    TokenNotOwned,
    Unauthorized,
    ApprovalIdMismatch,
    ReceiverIsOwner,
    RequiresOneYocto,
    NotEnoughGas,
    NotSelfCall,
    StorageUsageMismatch,
    ArithmeticOverflow,
}

} // verus!
