use vstd::prelude::*;
use crate::marketplace::external::NftMetadata;

verus! {

/// What the runtime tells a contract about the call being executed.
pub struct CallContext {
    pub current_account_id: String,
    pub signer_account_id: String,
    pub predecessor_account_id: String,
    pub attached_deposit: u128,
    /// Nanoseconds since 1970-01-01.
    pub block_timestamp: u64,
    pub storage_byte_cost: u128,
    pub prepaid_gas: u64,
}

impl CallContext {
    /// Block timestamps fit in an `i64` (they do until the year 2262).
    pub open spec fn wf(&self) -> bool {
        self.block_timestamp <= i64::MAX
    }

    pub open spec fn now(&self) -> i64 {
        self.block_timestamp as i64
    }

    /// The block time, in nanoseconds since 1970-01-01.
    pub fn now_nanos(&self) -> (t: i64)
        requires
            self.wf(),
        ensures
            t == self.now(),
            t >= 0,
    {
        self.block_timestamp as i64
    }
}

/// The outcome of a cross-contract call, as the runtime reports it to the
/// callback: not ready, failed, or succeeded with a decoded value (`None`
/// when the returned bytes could not be decoded).
pub enum CallResult<T> {
    NotReady,
    Failed,
    Successful(Option<T>),
}

/// A transfer of Near that a call initiates.
pub struct Transfer {
    pub receiver_id: String,
    pub amount_yocto: u128,
}

/// A call to `make_collection` on the NFT contract.
pub struct MakeCollectionCall {
    pub nft_contract_id: String,
    pub nft_metadata: NftMetadata,
    pub max_supply: u64,
    pub attached_deposit: u128,
    pub gas: u64,
}

/// A call to `mint` on the NFT contract.
pub struct MintCall {
    pub nft_contract_id: String,
    pub collection_id: u64,
    pub receiver_id: String,
    pub attached_deposit: u128,
    pub gas: u64,
}

/// A call to `nft_transfer` on an NFT contract.
pub struct NftTransferCall {
    pub nft_contract_id: String,
    pub receiver_id: String,
    pub token_id: String,
    pub approval_id: Option<u64>,
    pub attached_deposit: u128,
    pub gas: u64,
}

} // verus!
