use vstd::prelude::*;
use crate::table::{LookupTable, TableKey};
use crate::context::{CallContext, Transfer};
use crate::nft::errors::NftError;
use crate::nft::metadata::{Nft, TokenMetadata};
use crate::nft::contract::{NftContract, NftCollection, owns};
use crate::nft::owners::add_token_to_owner;
use crate::nft::text::{decimal, decimal_string};

verus! {

/// The least storage a token takes, measured; a mint must attach at least its
/// cost.
pub const MINT_WORST_CASE_STORAGE_BASE: u64 = 830;

/// The most perpetual royalty beneficiaries a token may have.
pub const MAX_ROYALTY_BENEFICIARIES: usize = 6;

/// What minting gives back: the new token's id, the storage it took and the
/// refund of the deposit that the storage did not use.
pub struct MintOutcome {
    pub token_id: String,
    pub storage_usage: u64,
    pub refund: Option<Transfer>,
}

/// Why minting the next token of a collection is refused, in the order the
/// checks are made. `storage_usage` is what the runtime measured the token to
/// take.
pub open spec fn mint_error(
    c: NftContract,
    ctx: CallContext,
    collection_id: u64,
    royalty_count: Option<nat>,
    storage_usage: u64,
) -> Option<NftError> {
    let cs = c.collections_by_id@;
    let base_cost = MINT_WORST_CASE_STORAGE_BASE * ctx.storage_byte_cost;
    if ctx.predecessor_account_id@ != c.owner_id@ {
        Some(NftError::NotContractOwner)
    } else if base_cost > u128::MAX {
        Some(NftError::ArithmeticOverflow)
    } else if ctx.attached_deposit < base_cost {
        Some(NftError::AttachedDepositTooLow)
    } else if !cs.contains_key(collection_id) {
        Some(NftError::CollectionNotFound)
    } else if cs[collection_id].is_frozen {
        Some(NftError::CollectionFrozen)
    } else if cs[collection_id].tokens@.len() >= cs[collection_id].max_supply {
        Some(NftError::MaxSupplyReached)
    } else if royalty_count matches Some(n) && n > MAX_ROYALTY_BENEFICIARIES {
        Some(NftError::TooManyRoyaltyBeneficiaries)
    } else if c.tokens_by_id@.contains_key(decimal(cs[collection_id].tokens@.len())) {
        Some(NftError::TokenExists)
    } else if storage_usage * ctx.storage_byte_cost > u128::MAX {
        Some(NftError::ArithmeticOverflow)
    } else if ctx.attached_deposit < storage_usage * ctx.storage_byte_cost {
        Some(NftError::AttachedDepositTooLow)
    } else {
        None
    }
}

/// The metadata of the `index`-th token of a collection: the collection's,
/// numbered and stamped with the block time.
pub open spec fn minted_metadata(m: TokenMetadata, index: u64, now: u64) -> TokenMetadata {
    TokenMetadata { copies: Some(index), issued_at: Some(now), ..m }
}

impl NftContract {
    /// Mints the next token of a collection for `receiver_id`; only the
    /// contract owner may. The token's id is its position in the collection,
    /// in decimal; it takes the collection's metadata, numbered and stamped
    /// with the block time, and the given perpetual royalties (at most six
    /// beneficiaries). The attached deposit must cover the token's storage;
    /// the rest is refunded to the caller.
    pub fn mint(
        &mut self,
        ctx: &CallContext,
        receiver_id: String,
        collection_id: u64,
        perpetual_royalties: Option<LookupTable<String, u32>>,
        storage_usage: u64,
    ) -> (r: Result<MintOutcome, NftError>)
        requires
            old(self).wf(),
            perpetual_royalties matches Some(t) ==> t.wf(),
        ensures
            final(self).wf(),
            ({
                let royalty_count = match perpetual_royalties {
                    Some(t) => Some(t@.len()),
                    None => None,
                };
                match mint_error(*old(self), *ctx, collection_id, royalty_count, storage_usage) {
                    Some(e) => r == Err::<MintOutcome, NftError>(e) && *final(self) == *old(self),
                    None => {
                        let coll = old(self).collections_by_id@[collection_id];
                        let index = coll.tokens@.len();
                        let id = decimal(index);
                        let token = final(self).tokens_by_id@[id];
                        let refund = ctx.attached_deposit - storage_usage * ctx.storage_byte_cost;
                        let new_coll = final(self).collections_by_id@[collection_id];
                        &&& r matches Ok(o) && o.token_id@ == id && o.storage_usage == storage_usage
                            && (refund > 0 ==> (o.refund matches Some(t)
                                && t.receiver_id@ == ctx.predecessor_account_id@ && t.amount_yocto == refund))
                            && (refund == 0 ==> o.refund is None)
                        &&& final(self).tokens_by_id@ == old(self).tokens_by_id@.insert(id, token)
                        &&& token.owner_id@ == receiver_id@
                        &&& token.collection_id == collection_id
                        &&& token.approved_account_ids@.is_empty()
                        &&& token.next_approval_id == 0
                        &&& token.royalty@ == (match perpetual_royalties {
                            Some(t) => t@,
                            None => Map::empty(),
                        })
                        &&& final(self).token_metadata_by_id@ == old(self).token_metadata_by_id@.insert(
                            id,
                            minted_metadata(coll.nft_metadata, index as u64, ctx.block_timestamp),
                        )
                        &&& final(self).collections_by_id@ == old(self).collections_by_id@.insert(collection_id, new_coll)
                        &&& new_coll.nft_metadata == coll.nft_metadata
                        &&& new_coll.max_supply == coll.max_supply
                        &&& new_coll.is_frozen == coll.is_frozen
                        &&& new_coll.tokens@.len() == index + 1
                        &&& new_coll.tokens@.take(index as int) == coll.tokens@
                        &&& new_coll.tokens@[index as int]@ == id
                        &&& forall|o: Seq<char>, t: Seq<char>|
                            #![trigger owns(final(self).tokens_per_owner@, o, t)]
                            owns(final(self).tokens_per_owner@, o, t) <==> (owns(old(self).tokens_per_owner@, o, t)
                                || (o == receiver_id@ && t == id))
                        &&& final(self).collections_by_url == old(self).collections_by_url
                        &&& final(self).next_collection_id == old(self).next_collection_id
                        &&& final(self).owner_id == old(self).owner_id
                        &&& final(self).metadata == old(self).metadata
                    },
                }
            }),
    {
        if ctx.predecessor_account_id != self.owner_id {
            return Err(NftError::NotContractOwner);
        }
        let base_cost = match (MINT_WORST_CASE_STORAGE_BASE as u128).checked_mul(ctx.storage_byte_cost) {
            Some(c) => c,
            None => {
                return Err(NftError::ArithmeticOverflow);
            },
        };
        if ctx.attached_deposit < base_cost {
            return Err(NftError::AttachedDepositTooLow);
        }
        let i = match self.collections_by_id.find(&collection_id) {
            Some(i) => i,
            None => {
                return Err(NftError::CollectionNotFound);
            },
        };
        proof {
            self.collections_by_id.lemma_view_at(i as int);
        }
        let collection = self.collections_by_id.value_at(i);
        if collection.is_frozen {
            return Err(NftError::CollectionFrozen);
        }
        let new_token_index = collection.tokens.len() as u64;
        if new_token_index >= collection.max_supply {
            return Err(NftError::MaxSupplyReached);
        }
        let royalty = match perpetual_royalties {
            Some(t) => {
                proof {
                    t.lemma_map_len();
                }
                if t.len() > MAX_ROYALTY_BENEFICIARIES {
                    return Err(NftError::TooManyRoyaltyBeneficiaries);
                }
                t
            },
            None => LookupTable::new(),
        };
        let new_token_id = decimal_string(new_token_index);
        if self.tokens_by_id.contains_key(&new_token_id) {
            return Err(NftError::TokenExists);
        }
        let cost = match (storage_usage as u128).checked_mul(ctx.storage_byte_cost) {
            Some(c) => c,
            None => {
                return Err(NftError::ArithmeticOverflow);
            },
        };
        if ctx.attached_deposit < cost {
            return Err(NftError::AttachedDepositTooLow);
        }
        let mut token_metadata = collection.nft_metadata.clone_metadata();
        token_metadata.copies = Some(new_token_index);
        token_metadata.issued_at = Some(ctx.block_timestamp);
        let new_token = Nft {
            owner_id: receiver_id,
            collection_id,
            approved_account_ids: LookupTable::new(),
            next_approval_id: 0,
            royalty,
        };
        let ghost old_self = *self;
        add_token_to_owner(&mut self.tokens_per_owner, &new_token.owner_id, &new_token_id);
        self.token_metadata_by_id.insert(new_token_id.key_clone(), token_metadata);
        self.tokens_by_id.insert(new_token_id.key_clone(), new_token);
        let (k, mut coll) = self.collections_by_id.remove_at(i);
        coll.tokens.push(new_token_id.key_clone());
        if new_token_index == coll.tokens.len() as u64 {
            coll.is_frozen = true;
        }
        self.collections_by_id.insert(k, coll);
        proof {
            assert forall|id: u64| #[trigger] self.collections_by_id@.contains_key(id) implies {
                &&& id < self.next_collection_id
                &&& self.collections_by_id@[id].nft_metadata.media matches Some(m)
                    && self.collections_by_url@.contains_key(m@) && self.collections_by_url@[m@] == id
            } by {
                assert(old_self.collections_by_id@.contains_key(id));
            }
            assert forall|url: Seq<char>| #[trigger] self.collections_by_url@.contains_key(url) implies {
                &&& self.collections_by_id@.contains_key(self.collections_by_url@[url])
                &&& self.collections_by_id@[self.collections_by_url@[url]].nft_metadata.media matches Some(m)
                    && m@ == url
            } by {
                assert(old_self.collections_by_url@.contains_key(url));
            }
            assert(self.token_metadata_by_id@.dom() =~= self.tokens_by_id@.dom());
            assert forall|o: Seq<char>, t: Seq<char>|
                #![trigger owns(self.tokens_per_owner@, o, t)]
                owns(self.tokens_per_owner@, o, t) <==> (self.tokens_by_id@.contains_key(t)
                    && self.tokens_by_id@[t].owner_id@ == o) by {
                if t != new_token_id@ {
                    assert(owns(old_self.tokens_per_owner@, o, t) <==> (old_self.tokens_by_id@.contains_key(t)
                        && old_self.tokens_by_id@[t].owner_id@ == o));
                } else {
                    assert(!owns(old_self.tokens_per_owner@, o, t));
                }
            }
            assert forall|t: Seq<char>| #[trigger] self.tokens_by_id@.contains_key(t) implies self.tokens_by_id@[t].wf() by {
                if t != new_token_id@ {
                    assert(old_self.tokens_by_id@.contains_key(t));
                }
            }
        }
        let refund_amount = ctx.attached_deposit - cost;
        let refund = if refund_amount > 0 {
            Some(Transfer { receiver_id: ctx.predecessor_account_id.clone(), amount_yocto: refund_amount })
        } else {
            None
        };
        Ok(MintOutcome { token_id: new_token_id, storage_usage, refund })
    }
}

} // verus!
