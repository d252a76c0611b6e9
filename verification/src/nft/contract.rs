use vstd::prelude::*;
use crate::table::LookupTable;
use crate::nft::metadata::{NFTContractMetadata, Nft, TokenMetadata, NonFungibleTokenMetadata};

verus! {

broadcast use vstd::string::to_string_from_display_ensures_for_str;

/// A collection: the metadata its tokens share, how many may be minted,
/// whether minting has been closed, and the ids of its tokens in minting
/// order.
pub struct NftCollection {
    pub nft_metadata: TokenMetadata,
    pub max_supply: u64,
    pub is_frozen: bool,
    pub tokens: Vec<String>,
}

/// The NFT contract's state.
pub struct NftContract {
    pub owner_id: String,
    pub metadata: NFTContractMetadata,
    pub next_collection_id: u64,
    pub collections_by_id: LookupTable<u64, NftCollection>,
    /// Each collection under the URL of its media: no two collections share
    /// a media URL.
    pub collections_by_url: LookupTable<String, u64>,
    pub tokens_by_id: LookupTable<String, Nft>,
    pub token_metadata_by_id: LookupTable<String, TokenMetadata>,
    /// The ids of the tokens each account owns.
    pub tokens_per_owner: LookupTable<String, LookupTable<String, ()>>,
}

/// Whether `owner` is recorded as owning `token` in an owner index.
pub open spec fn owns(index: Map<Seq<char>, LookupTable<String, ()>>, owner: Seq<char>, token: Seq<char>) -> bool {
    index.contains_key(owner) && index[owner]@.contains_key(token)
}

/// The owner index is made of well-formed sets.
pub open spec fn index_wf(index: LookupTable<String, LookupTable<String, ()>>) -> bool {
    &&& index.wf()
    &&& forall|o: Seq<char>| #[trigger] index@.contains_key(o) ==> index@[o].wf()
}

/// The metadata the Eneftigo contract is deployed with.
pub open spec fn is_eneftigo_metadata(m: NFTContractMetadata) -> bool {
    &&& m.spec@ == "nft-1.0.0"@
    &&& m.name@ == "ENEFTIGO"@
    &&& m.symbol@ == "ENEFTIGO"@
    &&& m.icon matches Some(i) && i@ == "https://eneftigo.s3.eu-central-1.amazonaws.com/Eneftigo+1+White.png"@
    &&& m.base_uri is None
    &&& m.reference is None
    &&& m.reference_hash is None
}

/// The metadata of the Eneftigo NFT contract.
pub fn eneftigo_metadata() -> (m: NFTContractMetadata)
    ensures
        is_eneftigo_metadata(m),
{
    NFTContractMetadata {
        spec: "nft-1.0.0".to_string(),
        name: "ENEFTIGO".to_string(),
        symbol: "ENEFTIGO".to_string(),
        icon: Some("https://eneftigo.s3.eu-central-1.amazonaws.com/Eneftigo+1+White.png".to_string()),
        base_uri: None,
        reference: None,
        reference_hash: None,
    }
}

impl NftContract {
    /// The contract's invariant: collection ids are below the next one to
    /// give out; each collection has a media URL and is found again under
    /// it, and the URL index holds nothing else; every token has metadata,
    /// and the owner index lists exactly the tokens each account owns.
    pub open spec fn wf(&self) -> bool {
        &&& self.collections_by_id.wf()
        &&& self.collections_by_url.wf()
        &&& self.tokens_by_id.wf()
        &&& self.token_metadata_by_id.wf()
        &&& index_wf(self.tokens_per_owner)
        &&& forall|id: u64| #[trigger] self.collections_by_id@.contains_key(id) ==> {
            &&& id < self.next_collection_id
            &&& self.collections_by_id@[id].nft_metadata.media matches Some(m)
                && self.collections_by_url@.contains_key(m@) && self.collections_by_url@[m@] == id
        }
        &&& forall|url: Seq<char>| #[trigger] self.collections_by_url@.contains_key(url) ==> {
            &&& self.collections_by_id@.contains_key(self.collections_by_url@[url])
            &&& self.collections_by_id@[self.collections_by_url@[url]].nft_metadata.media matches Some(m)
                && m@ == url
        }
        &&& self.token_metadata_by_id@.dom() == self.tokens_by_id@.dom()
        &&& forall|t: Seq<char>| #[trigger] self.tokens_by_id@.contains_key(t) ==> self.tokens_by_id@[t].wf()
        &&& forall|o: Seq<char>, t: Seq<char>|
            #![trigger owns(self.tokens_per_owner@, o, t)]
            owns(self.tokens_per_owner@, o, t) <==> (self.tokens_by_id@.contains_key(t)
                && self.tokens_by_id@[t].owner_id@ == o)
    }

    /// A contract with no collections and no tokens.
    pub fn new(owner_id: String, metadata: NFTContractMetadata) -> (c: NftContract)
        ensures
            c.wf(),
            c.owner_id == owner_id,
            c.metadata == metadata,
            c.next_collection_id == 0,
            c.collections_by_id@.is_empty(),
            c.collections_by_url@.is_empty(),
            c.tokens_by_id@.is_empty(),
            c.token_metadata_by_id@.is_empty(),
            c.tokens_per_owner@.is_empty(),
    {
        NftContract {
            owner_id,
            metadata,
            next_collection_id: 0,
            collections_by_id: LookupTable::new(),
            collections_by_url: LookupTable::new(),
            tokens_by_id: LookupTable::new(),
            token_metadata_by_id: LookupTable::new(),
            tokens_per_owner: LookupTable::new(),
        }
    }

    /// A contract with the Eneftigo metadata.
    pub fn new_default_meta(owner_id: String) -> (c: NftContract)
        ensures
            c.wf(),
            c.owner_id == owner_id,
            is_eneftigo_metadata(c.metadata),
            c.next_collection_id == 0,
            c.collections_by_id@.is_empty(),
            c.tokens_by_id@.is_empty(),
    {
        NftContract::new(owner_id, eneftigo_metadata())
    }
}

impl NonFungibleTokenMetadata for NftContract {
    open spec fn contract_metadata(&self) -> NFTContractMetadata {
        self.metadata
    }

    fn nft_metadata(&self) -> (m: NFTContractMetadata) {
        self.metadata.clone_metadata()
    }
}

} // verus!
