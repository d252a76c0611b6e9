use vstd::prelude::*;
use crate::table::LookupTable;
use crate::nft::contract::{owns, index_wf, eneftigo_metadata, is_eneftigo_metadata};
use crate::nft::metadata::{NFTContractMetadata, TokenMetadata};
use crate::digest::sha256_digest;
use crate::marketplace::keys::hash_account_id;

verus! {

/// The prefixes under which the token contract persists its collections.
pub enum StorageKey {
    TokensPerOwner,
    TokenPerOwnerInner { account_id_hash: [u8; 32] },
    TokensById,
    TokenMetadataById,
    NFTContractMetadata,
    TokensPerType,
    TokensPerTypeInner { token_type_hash: [u8; 32] },
    TokenTypesLocked,
}

/// The key under which the tokens of an owner are persisted.
pub fn tokens_of_owner_key(owner_id: &String) -> (k: StorageKey)
    ensures
        k matches StorageKey::TokenPerOwnerInner { account_id_hash } && account_id_hash@ == sha256_digest(owner_id@),
{
    StorageKey::TokenPerOwnerInner { account_id_hash: hash_account_id(owner_id) }
}

/// A token: its owner, the accounts approved to transfer it (with their
/// approval ids) and its perpetual royalties (in basis points).
pub struct Token {
    pub owner_id: String,
    pub approved_account_ids: LookupTable<String, u64>,
    pub next_approval_id: u64,
    pub royalty: LookupTable<String, u32>,
}

/// A token as clients see it.
pub struct JsonToken {
    pub token_id: String,
    pub owner_id: String,
    pub metadata: TokenMetadata,
    pub approved_account_ids: LookupTable<String, u64>,
    pub royalty: LookupTable<String, u32>,
}

/// The token contract's state.
pub struct Contract {
    pub owner_id: String,
    pub metadata: NFTContractMetadata,
    /// The ids of the tokens each account owns.
    pub tokens_per_owner: LookupTable<String, LookupTable<String, ()>>,
    pub tokens_by_id: LookupTable<String, Token>,
    pub token_metadata_by_id: LookupTable<String, TokenMetadata>,
}

impl Contract {
    /// The contract's invariant: every token has metadata, and the owner
    /// index lists exactly the tokens each account owns.
    pub open spec fn wf(&self) -> bool {
        &&& self.tokens_by_id.wf()
        &&& self.token_metadata_by_id.wf()
        &&& index_wf(self.tokens_per_owner)
        &&& self.token_metadata_by_id@.dom() == self.tokens_by_id@.dom()
        &&& forall|t: Seq<char>| #[trigger] self.tokens_by_id@.contains_key(t) ==> self.tokens_by_id@[t].approved_account_ids.wf()
            && self.tokens_by_id@[t].royalty.wf()
        &&& forall|o: Seq<char>, t: Seq<char>|
            #![trigger owns(self.tokens_per_owner@, o, t)]
            owns(self.tokens_per_owner@, o, t) <==> (self.tokens_by_id@.contains_key(t)
                && self.tokens_by_id@[t].owner_id@ == o)
    }

    /// A contract with no tokens.
    pub fn new(owner_id: String, metadata: NFTContractMetadata) -> (c: Contract)
        ensures
            c.wf(),
            c.owner_id == owner_id,
            c.metadata == metadata,
            c.tokens_by_id@.is_empty(),
            c.token_metadata_by_id@.is_empty(),
            c.tokens_per_owner@.is_empty(),
    {
        Contract {
            owner_id,
            metadata,
            tokens_per_owner: LookupTable::new(),
            tokens_by_id: LookupTable::new(),
            token_metadata_by_id: LookupTable::new(),
        }
    }

    /// A contract with the Eneftigo metadata.
    pub fn new_default_meta(owner_id: String) -> (c: Contract)
        ensures
            c.wf(),
            c.owner_id == owner_id,
            is_eneftigo_metadata(c.metadata),
            c.tokens_by_id@.is_empty(),
    {
        Contract::new(owner_id, eneftigo_metadata())
    }

    /// A token as clients see it, if it exists.
    pub fn nft_token(&self, token_id: &String) -> (r: Option<JsonToken>)
        requires
            self.wf(),
        ensures
            r is None <==> !self.tokens_by_id@.contains_key(token_id@),
            r matches Some(j) ==> is_json_token(j, *self, token_id@),
    {
        let token = match self.tokens_by_id.get(token_id) {
            Some(t) => t,
            None => {
                return None;
            },
        };
        let metadata = match self.token_metadata_by_id.get(token_id) {
            Some(m) => m.clone_metadata(),
            None => {
                proof {
                    assert(self.token_metadata_by_id@.dom().contains(token_id@));
                }
                return None;
            },
        };
        Some(JsonToken {
            token_id: token_id.clone(),
            owner_id: token.owner_id.clone(),
            metadata,
            approved_account_ids: token.approved_account_ids.copy_table(),
            royalty: token.royalty.copy_table(),
        })
    }
}

/// A token as clients see it: its id, owner, metadata, approvals and
/// royalties.
pub open spec fn is_json_token(j: JsonToken, c: Contract, token_id: Seq<char>) -> bool {
    let t = c.tokens_by_id@[token_id];
    &&& j.token_id@ == token_id
    &&& j.owner_id@ == t.owner_id@
    &&& j.metadata == c.token_metadata_by_id@[token_id]
    &&& j.approved_account_ids@ == t.approved_account_ids@
    &&& j.royalty@ == t.royalty@
}

} // verus!
