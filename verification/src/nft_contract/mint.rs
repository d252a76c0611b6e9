use vstd::prelude::*;
use crate::table::{LookupTable, TableKey};
use crate::context::{CallContext, Transfer};
use crate::nft::contract::owns;
use crate::nft::errors::NftError;
use crate::nft::metadata::TokenMetadata;
use crate::nft::mint::MAX_ROYALTY_BENEFICIARIES;
use crate::nft::owners::{add_token_to_owner, remove_token_from_owner};
use crate::nft_contract::contract::{Contract, Token};

verus! {

/// Why minting a token is refused, in the order the checks are made.
/// `storage_usage` is what the runtime measured the token to take.
pub open spec fn nft_mint_error(
    c: Contract,
    ctx: CallContext,
    token_id: Seq<char>,
    royalty_count: Option<nat>,
    storage_usage: u64,
) -> Option<NftError> {
    if royalty_count matches Some(n) && n > MAX_ROYALTY_BENEFICIARIES {
        Some(NftError::TooManyRoyaltyBeneficiaries)
    } else if c.tokens_by_id@.contains_key(token_id) {
        Some(NftError::TokenExists)
    } else if storage_usage * ctx.storage_byte_cost > u128::MAX {
        Some(NftError::ArithmeticOverflow)
    } else if ctx.attached_deposit < storage_usage * ctx.storage_byte_cost {
        Some(NftError::AttachedDepositTooLow)
    } else {
        None
    }
}

impl Contract {
    /// Mints `token_id` with `metadata` for `receiver_id`, with the given
    /// perpetual royalties (at most six beneficiaries). The attached deposit
    /// must cover the token's storage; a rest above one yoctoNear is refunded
    /// to the caller.
    pub fn nft_mint(
        &mut self,
        ctx: &CallContext,
        token_id: String,
        metadata: TokenMetadata,
        receiver_id: String,
        perpetual_royalties: Option<LookupTable<String, u32>>,
        storage_usage: u64,
    ) -> (r: Result<Option<Transfer>, NftError>)
        requires
            old(self).wf(),
            perpetual_royalties matches Some(t) ==> t.wf(),
        ensures
            final(self).wf(),
            ({
                let royalty_count = match perpetual_royalties {
                    Some(t) => Some(t@.len()),
                    None => None,
                };
                match nft_mint_error(*old(self), *ctx, token_id@, royalty_count, storage_usage) {
                    Some(e) => r == Err::<Option<Transfer>, NftError>(e) && *final(self) == *old(self),
                    None => {
                        let token = final(self).tokens_by_id@[token_id@];
                        let refund = ctx.attached_deposit - storage_usage * ctx.storage_byte_cost;
                        &&& r matches Ok(t) && (refund > 1 ==> (t matches Some(tr)
                            && tr.receiver_id@ == ctx.predecessor_account_id@ && tr.amount_yocto == refund))
                            && (refund <= 1 ==> t is None)
                        &&& final(self).tokens_by_id@ == old(self).tokens_by_id@.insert(token_id@, token)
                        &&& token.owner_id@ == receiver_id@
                        &&& token.approved_account_ids@.is_empty()
                        &&& token.next_approval_id == 0
                        &&& token.royalty@ == (match perpetual_royalties {
                            Some(t) => t@,
                            None => Map::empty(),
                        })
                        &&& final(self).token_metadata_by_id@ == old(self).token_metadata_by_id@.insert(
                            token_id@,
                            metadata,
                        )
                        &&& final(self).owner_id == old(self).owner_id
                        &&& final(self).metadata == old(self).metadata
                    },
                }
            }),
    {
        let royalty = match perpetual_royalties {
            Some(t) => {
                proof {
                    t.lemma_map_len();
                }
                if t.len() > MAX_ROYALTY_BENEFICIARIES {
                    return Err(NftError::TooManyRoyaltyBeneficiaries);
                }
                t
            },
            None => LookupTable::new(),
        };
        if self.tokens_by_id.contains_key(&token_id) {
            return Err(NftError::TokenExists);
        }
        let cost = match (storage_usage as u128).checked_mul(ctx.storage_byte_cost) {
            Some(c) => c,
            None => {
                return Err(NftError::ArithmeticOverflow);
            },
        };
        if ctx.attached_deposit < cost {
            return Err(NftError::AttachedDepositTooLow);
        }
        let ghost old_self = *self;
        let token = Token { owner_id: receiver_id, approved_account_ids: LookupTable::new(), next_approval_id: 0, royalty };
        add_token_to_owner(&mut self.tokens_per_owner, &token.owner_id, &token_id);
        self.token_metadata_by_id.insert(token_id.key_clone(), metadata);
        self.tokens_by_id.insert(token_id.key_clone(), token);
        proof {
            assert(self.token_metadata_by_id@.dom() =~= self.tokens_by_id@.dom());
            assert forall|o: Seq<char>, t: Seq<char>|
                #![trigger owns(self.tokens_per_owner@, o, t)]
                owns(self.tokens_per_owner@, o, t) <==> (self.tokens_by_id@.contains_key(t)
                    && self.tokens_by_id@[t].owner_id@ == o) by {
                if t != token_id@ {
                    assert(owns(old_self.tokens_per_owner@, o, t) <==> (old_self.tokens_by_id@.contains_key(t)
                        && old_self.tokens_by_id@[t].owner_id@ == o));
                } else {
                    assert(!owns(old_self.tokens_per_owner@, o, t));
                }
            }
        }
        let refund_amount = ctx.attached_deposit - cost;
        if refund_amount > 1 {
            Ok(Some(Transfer { receiver_id: ctx.predecessor_account_id.clone(), amount_yocto: refund_amount }))
        } else {
            Ok(None)
        }
    }

    /// Burns a token: it leaves its owner, its metadata and the contract.
    /// The storage it released (`freed_storage_bytes`, as the runtime
    /// measured it) is refunded to the caller.
    pub fn nft_burn(&mut self, ctx: &CallContext, token_id: String, freed_storage_bytes: u64) -> (r: Result<
        Transfer,
        NftError,
    >)
        requires
            old(self).wf(),
        ensures
            final(self).wf(),
            ({
                let refund = freed_storage_bytes * ctx.storage_byte_cost;
                if !old(self).tokens_by_id@.contains_key(token_id@) {
                    r == Err::<Transfer, NftError>(NftError::TokenNotFound)
                } else if refund > u128::MAX {
                    r == Err::<Transfer, NftError>(NftError::ArithmeticOverflow)
                } else {
                    &&& r matches Ok(t) && t.receiver_id@ == ctx.predecessor_account_id@ && t.amount_yocto == refund
                    &&& final(self).tokens_by_id@ == old(self).tokens_by_id@.remove(token_id@)
                    &&& final(self).token_metadata_by_id@ == old(self).token_metadata_by_id@.remove(token_id@)
                    &&& final(self).owner_id == old(self).owner_id
                    &&& final(self).metadata == old(self).metadata
                }
            }),
            r is Err ==> *final(self) == *old(self),
    {
        let owner = match self.tokens_by_id.get(&token_id) {
            Some(t) => t.owner_id.clone(),
            None => {
                return Err(NftError::TokenNotFound);
            },
        };
        let refund = match (freed_storage_bytes as u128).checked_mul(ctx.storage_byte_cost) {
            Some(a) => a,
            None => {
                return Err(NftError::ArithmeticOverflow);
            },
        };
        let ghost old_self = *self;
        proof {
            assert(owns(self.tokens_per_owner@, owner@, token_id@));
        }
        let removed = remove_token_from_owner(&mut self.tokens_per_owner, &owner, &token_id);
        self.token_metadata_by_id.remove(&token_id);
        self.tokens_by_id.remove(&token_id);
        proof {
            assert(removed is Ok);
            assert(self.token_metadata_by_id@.dom() =~= self.tokens_by_id@.dom());
            assert forall|o: Seq<char>, t: Seq<char>|
                #![trigger owns(self.tokens_per_owner@, o, t)]
                owns(self.tokens_per_owner@, o, t) <==> (self.tokens_by_id@.contains_key(t)
                    && self.tokens_by_id@[t].owner_id@ == o) by {
                assert(owns(old_self.tokens_per_owner@, o, t) <==> (old_self.tokens_by_id@.contains_key(t)
                    && old_self.tokens_by_id@[t].owner_id@ == o));
            }
        }
        Ok(Transfer { receiver_id: ctx.predecessor_account_id.clone(), amount_yocto: refund })
    }
}

} // verus!
