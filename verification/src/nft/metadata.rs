use vstd::prelude::*;
use crate::table::LookupTable;
use crate::marketplace::external::clone_opt_string;

verus! {

broadcast use vstd::string::to_string_from_display_ensures_for_str;

/// The amounts an NFT sale pays out, by account.
pub struct Payout {
    pub payout: LookupTable<String, u128>,
}

/// Metadata of the NFT contract itself (NEP-177); the hash is held in its
/// base64 text form.
pub struct NFTContractMetadata {
    pub spec: String,
    pub name: String,
    pub symbol: String,
    pub icon: Option<String>,
    pub base_uri: Option<String>,
    pub reference: Option<String>,
    pub reference_hash: Option<String>,
}

impl NFTContractMetadata {
    /// A copy of the contract metadata.
    pub fn clone_metadata(&self) -> (m: NFTContractMetadata)
        ensures
            m == *self,
    {
        NFTContractMetadata {
            spec: self.spec.clone(),
            name: self.name.clone(),
            symbol: self.symbol.clone(),
            icon: clone_opt_string(&self.icon),
            base_uri: clone_opt_string(&self.base_uri),
            reference: clone_opt_string(&self.reference),
            reference_hash: clone_opt_string(&self.reference_hash),
        }
    }
}

/// Metadata of a token (NEP-177); the hashes are held in their base64 text
/// form, the instants are Unix epoch milliseconds.
pub struct TokenMetadata {
    pub title: Option<String>,
    pub description: Option<String>,
    pub media: Option<String>,
    pub media_hash: Option<String>,
    pub copies: Option<u64>,
    pub issued_at: Option<u64>,
    pub expires_at: Option<u64>,
    pub starts_at: Option<u64>,
    pub updated_at: Option<u64>,
    pub extra: Option<String>,
    pub reference: Option<String>,
    pub reference_hash: Option<String>,
}

impl TokenMetadata {
    /// The metadata that holds only a title and a media URL.
    pub open spec fn is_title_and_media(&self, title: Seq<char>, media: Seq<char>) -> bool {
        &&& self.title matches Some(t) && t@ == title
        &&& self.media matches Some(m) && m@ == media
        &&& self.description is None
        &&& self.media_hash is None
        &&& self.copies is None
        &&& self.issued_at is None
        &&& self.expires_at is None
        &&& self.starts_at is None
        &&& self.updated_at is None
        &&& self.extra is None
        &&& self.reference is None
        &&& self.reference_hash is None
    }

    /// Token metadata with a title and a media URL only.
    pub fn new(title: &str, media: &str) -> (m: TokenMetadata)
        ensures
            m.is_title_and_media(title@, media@),
    {
        TokenMetadata {
            title: Some(title.to_string()),
            description: None,
            media: Some(media.to_string()),
            media_hash: None,
            copies: None,
            issued_at: None,
            expires_at: None,
            starts_at: None,
            updated_at: None,
            extra: None,
            reference: None,
            reference_hash: None,
        }
    }

    /// A copy of the token metadata.
    pub fn clone_metadata(&self) -> (m: TokenMetadata)
        ensures
            m == *self,
    {
        TokenMetadata {
            title: clone_opt_string(&self.title),
            description: clone_opt_string(&self.description),
            media: clone_opt_string(&self.media),
            media_hash: clone_opt_string(&self.media_hash),
            copies: self.copies,
            issued_at: self.issued_at,
            expires_at: self.expires_at,
            starts_at: self.starts_at,
            updated_at: self.updated_at,
            extra: clone_opt_string(&self.extra),
            reference: clone_opt_string(&self.reference),
            reference_hash: clone_opt_string(&self.reference_hash),
        }
    }
}

/// A token: its owner, its collection, the accounts approved to transfer it
/// (with their approval ids) and its perpetual royalties (in basis points).
pub struct Nft {
    pub owner_id: String,
    pub collection_id: u64,
    pub approved_account_ids: LookupTable<String, u64>,
    pub next_approval_id: u64,
    pub royalty: LookupTable<String, u32>,
}

impl Nft {
    pub open spec fn wf(&self) -> bool {
        self.approved_account_ids.wf() && self.royalty.wf()
    }
}

/// A token as clients see it.
pub struct JsonNft {
    pub token_id: String,
    pub owner_id: String,
    pub collection_id: u64,
    pub metadata: TokenMetadata,
    pub approved_account_ids: LookupTable<String, u64>,
    pub royalty: LookupTable<String, u32>,
}

/// The contract-level metadata view of NEP-177.
pub trait NonFungibleTokenMetadata {
    /// The metadata the contract holds.
    spec fn contract_metadata(&self) -> NFTContractMetadata;

    fn nft_metadata(&self) -> (m: NFTContractMetadata)
        ensures
            m == self.contract_metadata(),
    ;
}

} // verus!
