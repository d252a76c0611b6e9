use vstd::prelude::*;
use crate::table::{LookupTable, TableKey};
use crate::context::{CallContext, Transfer};
use crate::parsing::{is_valid_url, url_parses};
use crate::marketplace::schedule::{byte_len, text_bytes};
use crate::marketplace::primary_seller::make_collection_storage_estimate;
use crate::nft::errors::NftError;
use crate::nft::metadata::TokenMetadata;
use crate::nft::contract::{NftContract, NftCollection};

verus! {

/// The longest title a collection may have, in bytes; the storage estimate
/// of a collection is made for it.
pub const MAX_TITLE_LEN: usize = 128;

/// The storage of a collection with the longest title and a media URL of
/// 2048 bytes: 152 + 128 + 2 * 2048.
pub const NEW_COLLECTION_WORST_CASE_STORAGE: u64 = 4376;

/// Estimates the storage a new collection takes.
pub fn make_collection_storage(title: &str, media: &str) -> (n: u64)
    requires
        make_collection_storage_estimate(title@, media@) <= u64::MAX,
    ensures
        n == make_collection_storage_estimate(title@, media@),
{
    152 + text_bytes(title) + 2 * text_bytes(media)
}

/// What making a collection gives back: its id, the storage it took, and
/// the refund of the deposit that the storage did not use.
pub struct MakeCollectionOutcome {
    pub collection_id: u64,
    pub storage_usage: u64,
    pub refund: Option<Transfer>,
}

/// A collection as it is made: no token minted yet, not frozen.
pub open spec fn is_new_collection(c: NftCollection, metadata: TokenMetadata, max_supply: u64) -> bool {
    &&& c.nft_metadata == metadata
    &&& c.max_supply == max_supply
    &&& !c.is_frozen
    &&& c.tokens@.len() == 0
}

/// Why making a collection is refused, in the order the checks are made.
/// `storage_usage` is what the runtime measured the new entries to take.
pub open spec fn make_collection_error(
    c: NftContract,
    ctx: CallContext,
    metadata: TokenMetadata,
    storage_usage: u64,
) -> Option<NftError> {
    match metadata.title {
        None => Some(NftError::MissingTitle),
        Some(title) => if byte_len(title@) > MAX_TITLE_LEN {
            Some(NftError::TitleTooLong)
        } else {
            match metadata.media {
                None => Some(NftError::MissingMedia),
                Some(media) => {
                    let estimate = make_collection_storage_estimate(title@, media@);
                    if !url_parses(media@) {
                        Some(NftError::InvalidMediaUrl)
                    } else if estimate > u64::MAX || estimate * ctx.storage_byte_cost > u128::MAX {
                        Some(NftError::ArithmeticOverflow)
                    } else if ctx.attached_deposit < estimate * ctx.storage_byte_cost {
                        Some(NftError::AttachedDepositTooLow)
                    } else if c.next_collection_id == u64::MAX {
                        Some(NftError::ArithmeticOverflow)
                    } else if c.collections_by_url@.contains_key(media@) {
                        Some(NftError::CollectionExistsForMedia)
                    } else if storage_usage != estimate {
                        Some(NftError::StorageUsageMismatch)
                    } else {
                        None
                    }
                },
            }
        },
    }
}

impl NftContract {
    /// Makes a collection of at most `max_supply` tokens that share
    /// `nft_metadata`, whose title and media URL are required. The attached
    /// deposit must cover the estimated storage; what it does not use is
    /// refunded to the caller.
    pub fn make_collection(
        &mut self,
        ctx: &CallContext,
        nft_metadata: TokenMetadata,
        max_supply: u64,
        storage_usage: u64,
    ) -> (r: Result<MakeCollectionOutcome, NftError>)
        requires
            old(self).wf(),
        ensures
            final(self).wf(),
            match make_collection_error(*old(self), *ctx, nft_metadata, storage_usage) {
                Some(e) => r == Err::<MakeCollectionOutcome, NftError>(e) && *final(self) == *old(self),
                None => {
                    let id = old(self).next_collection_id;
                    let media = nft_metadata.media.unwrap()@;
                    let cost = storage_usage * ctx.storage_byte_cost;
                    let refund = ctx.attached_deposit - cost;
                    &&& r matches Ok(o) && o.collection_id == id && o.storage_usage == storage_usage
                        && (refund > 0 ==> (o.refund matches Some(t) && t.receiver_id@ == ctx.predecessor_account_id@
                            && t.amount_yocto == refund))
                        && (refund == 0 ==> o.refund is None)
                    &&& final(self).next_collection_id == id + 1
                    &&& final(self).collections_by_id@ == old(self).collections_by_id@.insert(
                        id,
                        final(self).collections_by_id@[id],
                    )
                    &&& is_new_collection(final(self).collections_by_id@[id], nft_metadata, max_supply)
                    &&& final(self).collections_by_url@ == old(self).collections_by_url@.insert(media, id)
                    &&& final(self).tokens_by_id == old(self).tokens_by_id
                    &&& final(self).token_metadata_by_id == old(self).token_metadata_by_id
                    &&& final(self).tokens_per_owner == old(self).tokens_per_owner
                    &&& final(self).owner_id == old(self).owner_id
                    &&& final(self).metadata == old(self).metadata
                }
            },
    {
        let title = match &nft_metadata.title {
            Some(t) => t,
            None => {
                return Err(NftError::MissingTitle);
            },
        };
        if title.as_str().len() > MAX_TITLE_LEN {
            return Err(NftError::TitleTooLong);
        }
        let media = match &nft_metadata.media {
            Some(m) => m,
            None => {
                return Err(NftError::MissingMedia);
            },
        };
        if !is_valid_url(media.as_str()) {
            return Err(NftError::InvalidMediaUrl);
        }
        let title_bytes = text_bytes(title.as_str());
        let media_bytes = text_bytes(media.as_str());
        if media_bytes > (u64::MAX - 152 - title_bytes) / 2 {
            return Err(NftError::ArithmeticOverflow);
        }
        let estimate = make_collection_storage(title.as_str(), media.as_str());
        let cost = match (estimate as u128).checked_mul(ctx.storage_byte_cost) {
            Some(c) => c,
            None => {
                return Err(NftError::ArithmeticOverflow);
            },
        };
        if ctx.attached_deposit < cost {
            return Err(NftError::AttachedDepositTooLow);
        }
        if self.next_collection_id == u64::MAX {
            return Err(NftError::ArithmeticOverflow);
        }
        if self.collections_by_url.contains_key(media) {
            return Err(NftError::CollectionExistsForMedia);
        }
        if storage_usage != estimate {
            return Err(NftError::StorageUsageMismatch);
        }
        let collection_id = self.next_collection_id;
        let url = media.key_clone();
        proof {
            assert(!self.collections_by_id@.contains_key(collection_id));
        }
        self.next_collection_id = collection_id + 1;
        self.collections_by_url.insert(url, collection_id);
        let new_collection = NftCollection { nft_metadata, max_supply, is_frozen: false, tokens: Vec::new() };
        self.collections_by_id.insert(collection_id, new_collection);
        let refund_amount = ctx.attached_deposit - cost;
        let refund = if refund_amount > 0 {
            Some(Transfer { receiver_id: ctx.predecessor_account_id.clone(), amount_yocto: refund_amount })
        } else {
            None
        };
        Ok(MakeCollectionOutcome { collection_id, storage_usage, refund })
    }

    /// Closes a collection to minting; only the contract owner may, and only
    /// once a token was minted.
    pub fn freeze_collection(&mut self, ctx: &CallContext, collection_id: u64) -> (r: Result<(), NftError>)
        requires
            old(self).wf(),
        ensures
            final(self).wf(),
            ({
                let cs = old(self).collections_by_id@;
                if ctx.predecessor_account_id@ != old(self).owner_id@ {
                    r == Err::<(), NftError>(NftError::NotContractOwner)
                } else if !cs.contains_key(collection_id) {
                    r == Err::<(), NftError>(NftError::CollectionNotFound)
                } else if cs[collection_id].tokens@.len() == 0 {
                    r == Err::<(), NftError>(NftError::CollectionEmpty)
                } else {
                    &&& r is Ok
                    &&& final(self).collections_by_id@ == cs.insert(
                        collection_id,
                        NftCollection { is_frozen: true, ..cs[collection_id] },
                    )
                    &&& final(self).collections_by_url == old(self).collections_by_url
                    &&& final(self).tokens_by_id == old(self).tokens_by_id
                    &&& final(self).token_metadata_by_id == old(self).token_metadata_by_id
                    &&& final(self).tokens_per_owner == old(self).tokens_per_owner
                    &&& final(self).next_collection_id == old(self).next_collection_id
                    &&& final(self).owner_id == old(self).owner_id
                }
            }),
            r is Err ==> *final(self) == *old(self),
    {
        if ctx.predecessor_account_id != self.owner_id {
            return Err(NftError::NotContractOwner);
        }
        let i = match self.collections_by_id.find(&collection_id) {
            Some(i) => i,
            None => {
                return Err(NftError::CollectionNotFound);
            },
        };
        proof {
            self.collections_by_id.lemma_view_at(i as int);
        }
        if self.collections_by_id.value_at(i).tokens.len() == 0 {
            return Err(NftError::CollectionEmpty);
        }
        let (k, mut collection) = self.collections_by_id.remove_at(i);
        collection.is_frozen = true;
        self.collections_by_id.insert(k, collection);
        Ok(())
    }

    /// Deletes a collection no token was minted of; only the contract owner
    /// may. The storage it released (`freed_storage_bytes`, as the runtime
    /// measured it) is refunded to the caller.
    pub fn delete_collection(
        &mut self,
        ctx: &CallContext,
        collection_id: u64,
        freed_storage_bytes: u64,
    ) -> (r: Result<Option<Transfer>, NftError>)
        requires
            old(self).wf(),
        ensures
            final(self).wf(),
            ({
                let cs = old(self).collections_by_id@;
                let refund = freed_storage_bytes * ctx.storage_byte_cost;
                if ctx.predecessor_account_id@ != old(self).owner_id@ {
                    r == Err::<Option<Transfer>, NftError>(NftError::NotContractOwner)
                } else if !cs.contains_key(collection_id) {
                    r == Err::<Option<Transfer>, NftError>(NftError::CollectionNotFound)
                } else if cs[collection_id].tokens@.len() > 0 {
                    r == Err::<Option<Transfer>, NftError>(NftError::CollectionNotEmpty)
                } else if refund > u128::MAX {
                    r == Err::<Option<Transfer>, NftError>(NftError::ArithmeticOverflow)
                } else {
                    &&& r matches Ok(t) && (refund > 0 ==> (t matches Some(tr)
                        && tr.receiver_id@ == ctx.predecessor_account_id@ && tr.amount_yocto == refund))
                        && (refund == 0 ==> t is None)
                    &&& final(self).collections_by_id@ == cs.remove(collection_id)
                    &&& final(self).collections_by_url@ == old(self).collections_by_url@.remove(
                        cs[collection_id].nft_metadata.media.unwrap()@,
                    )
                    &&& final(self).tokens_by_id == old(self).tokens_by_id
                    &&& final(self).token_metadata_by_id == old(self).token_metadata_by_id
                    &&& final(self).tokens_per_owner == old(self).tokens_per_owner
                    &&& final(self).next_collection_id == old(self).next_collection_id
                    &&& final(self).owner_id == old(self).owner_id
                }
            }),
            r is Err ==> *final(self) == *old(self),
    {
        if ctx.predecessor_account_id != self.owner_id {
            return Err(NftError::NotContractOwner);
        }
        let i = match self.collections_by_id.find(&collection_id) {
            Some(i) => i,
            None => {
                return Err(NftError::CollectionNotFound);
            },
        };
        proof {
            self.collections_by_id.lemma_view_at(i as int);
        }
        if self.collections_by_id.value_at(i).tokens.len() > 0 {
            return Err(NftError::CollectionNotEmpty);
        }
        let refund_amount = match (freed_storage_bytes as u128).checked_mul(ctx.storage_byte_cost) {
            Some(a) => a,
            None => {
                return Err(NftError::ArithmeticOverflow);
            },
        };
        let ghost old_self = *self;
        let (_, collection) = self.collections_by_id.remove_at(i);
        let media = match collection.nft_metadata.media {
            Some(m) => m,
            None => {
                proof {
                    assert(false);
                }
                return Err(NftError::CollectionNotFound);
            },
        };
        self.collections_by_url.remove(&media);
        proof {
            assert forall|id: u64| #[trigger] self.collections_by_id@.contains_key(id) implies {
                &&& id < self.next_collection_id
                &&& self.collections_by_id@[id].nft_metadata.media matches Some(m)
                    && self.collections_by_url@.contains_key(m@) && self.collections_by_url@[m@] == id
            } by {
                assert(old_self.collections_by_id@.contains_key(id));
            }
            assert forall|url: Seq<char>| #[trigger] self.collections_by_url@.contains_key(url) implies {
                &&& self.collections_by_id@.contains_key(self.collections_by_url@[url])
                &&& self.collections_by_id@[self.collections_by_url@[url]].nft_metadata.media matches Some(m)
                    && m@ == url
            } by {
                assert(old_self.collections_by_url@.contains_key(url));
            }
        }
        let refund = if refund_amount > 0 {
            Some(Transfer { receiver_id: ctx.predecessor_account_id.clone(), amount_yocto: refund_amount })
        } else {
            None
        };
        Ok(refund)
    }
}

} // verus!
