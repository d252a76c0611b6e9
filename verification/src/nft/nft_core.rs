use vstd::prelude::*;
use crate::table::{LookupTable, TableKey};
use crate::context::{CallContext, CallResult, Transfer};
use crate::marketplace::schedule::{byte_len, text_bytes};
use crate::nft::errors::NftError;
use crate::nft::metadata::{Nft, JsonNft};
use crate::nft::contract::{NftContract, owns, index_wf};
use crate::nft::owners::{add_token_to_owner, remove_token_from_owner};

verus! {

/// Gas left to the resolution of a transfer call.
pub const GAS_FOR_RESOLVE_TRANSFER: u64 = 10_000_000_000_000;
/// Gas kept back from the receiver's `nft_on_transfer`: its own work and the
/// resolution.
pub const GAS_FOR_NFT_TRANSFER_CALL: u64 = 25_000_000_000_000 + GAS_FOR_RESOLVE_TRANSFER;
/// The least gas a transfer call must be given.
pub const MIN_GAS_FOR_NFT_TRANSFER_CALL: u64 = 100_000_000_000_000;

/// The bytes an approval takes: the approved account's name, four bytes of
/// length and eight of approval id.
pub open spec fn approval_bytes(account: Seq<char>) -> int {
    byte_len(account) + 12
}

/// The bytes a list of approvals takes.
pub open spec fn approvals_bytes(accounts: Seq<Seq<char>>) -> int
    decreases accounts.len(),
{
    if accounts.len() == 0 {
        0
    } else {
        approvals_bytes(accounts.drop_last()) + approval_bytes(accounts.last())
    }
}

/// The bytes of a list of approvals are at least those of any prefix.
pub proof fn lemma_approvals_bytes_grow(accounts: Seq<Seq<char>>, k: int)
    requires
        0 <= k <= accounts.len(),
    ensures
        approvals_bytes(accounts.take(k)) <= approvals_bytes(accounts),
    decreases accounts.len() - k,
{
    if k < accounts.len() {
        lemma_approvals_bytes_grow(accounts, k + 1);
        assert(accounts.take(k + 1).drop_last() == accounts.take(k));
    } else {
        assert(accounts.take(k) == accounts);
    }
}

/// Refunds `owner` the storage that its approvals of a token took, once they
/// are released: the bytes of all approvals at the storage byte cost.
pub fn refund_approved_account_ids(
    owner: &String,
    approvals: &LookupTable<String, u64>,
    storage_byte_cost: u128,
) -> (r: Result<Transfer, NftError>)
    ensures
        ({
            let bytes = approvals_bytes(approvals.keys());
            let amount = bytes * storage_byte_cost;
            &&& (bytes > u128::MAX || amount > u128::MAX) ==> r == Err::<Transfer, NftError>(
                NftError::ArithmeticOverflow,
            )
            &&& (bytes <= u128::MAX && amount <= u128::MAX) ==> (r matches Ok(t) && t.receiver_id@ == owner@
                && t.amount_yocto == amount)
        }),
{
    let n = approvals.len();
    let mut bytes: u128 = 0;
    let mut i: usize = 0;
    while i < n
        invariant
            n == approvals.keys().len(),
            i <= n,
            bytes == approvals_bytes(approvals.keys().take(i as int)),
        decreases n - i,
    {
        proof {
            assert(approvals.keys().take(i + 1).drop_last() == approvals.keys().take(i as int));
        }
        let len = text_bytes(approvals.key_at(i).as_str()) as u128;
        bytes = match bytes.checked_add(len + 12) {
            Some(b) => b,
            None => {
                proof {
                    lemma_approvals_bytes_grow(approvals.keys(), i as int + 1);
                }
                return Err(NftError::ArithmeticOverflow);
            },
        };
        i += 1;
    }
    proof {
        assert(approvals.keys().take(n as int) == approvals.keys());
    }
    match bytes.checked_mul(storage_byte_cost) {
        Some(amount) => Ok(Transfer { receiver_id: owner.clone(), amount_yocto: amount }),
        None => Err(NftError::ArithmeticOverflow),
    }
}

/// Why moving a token from `sender` to `receiver` is refused: the token must
/// exist, the sender must own it or be approved for it (with the given
/// approval id, when one is given), and the receiver must not own it.
pub open spec fn transfer_error(
    c: NftContract,
    sender: Seq<char>,
    receiver: Seq<char>,
    token_id: Seq<char>,
    approval_id: Option<u64>,
) -> Option<NftError> {
    let ts = c.tokens_by_id@;
    if !ts.contains_key(token_id) {
        Some(NftError::TokenNotFound)
    } else {
        let t = ts[token_id];
        if sender != t.owner_id@ && !t.approved_account_ids@.contains_key(sender) {
            Some(NftError::Unauthorized)
        } else if sender != t.owner_id@ && (approval_id matches Some(a) && t.approved_account_ids@[sender] != a) {
            Some(NftError::ApprovalIdMismatch)
        } else if t.owner_id@ == receiver {
            Some(NftError::ReceiverIsOwner)
        } else {
            None
        }
    }
}

/// The contract after `token_id` moved from its owner to `receiver`: the
/// token keeps its collection, royalties and next approval id, loses its
/// approvals, and the owner index follows.
pub open spec fn is_transferred(old_c: NftContract, new_c: NftContract, receiver: Seq<char>, token_id: Seq<char>) -> bool {
    let t = old_c.tokens_by_id@[token_id];
    let n = new_c.tokens_by_id@[token_id];
    &&& new_c.tokens_by_id@ == old_c.tokens_by_id@.insert(token_id, n)
    &&& n.owner_id@ == receiver
    &&& n.collection_id == t.collection_id
    &&& n.approved_account_ids@.is_empty()
    &&& n.next_approval_id == t.next_approval_id
    &&& n.royalty@ == t.royalty@
    &&& forall|o: Seq<char>, k: Seq<char>|
        #![trigger owns(new_c.tokens_per_owner@, o, k)]
        owns(new_c.tokens_per_owner@, o, k) <==> ((owns(old_c.tokens_per_owner@, o, k) && !(o == t.owner_id@
            && k == token_id)) || (o == receiver && k == token_id))
    &&& new_c.token_metadata_by_id == old_c.token_metadata_by_id
    &&& new_c.collections_by_id == old_c.collections_by_id
    &&& new_c.collections_by_url == old_c.collections_by_url
    &&& new_c.next_collection_id == old_c.next_collection_id
    &&& new_c.owner_id == old_c.owner_id
    &&& new_c.metadata == old_c.metadata
}

impl NftContract {
    /// Moves a token from its owner to `receiver_id` on behalf of
    /// `sender_id`, giving back the token as it was.
    pub fn internal_transfer(
        &mut self,
        sender_id: &String,
        receiver_id: &String,
        token_id: &String,
        approval_id: Option<u64>,
    ) -> (r: Result<Nft, NftError>)
        requires
            old(self).wf(),
        ensures
            final(self).wf(),
            match transfer_error(*old(self), sender_id@, receiver_id@, token_id@, approval_id) {
                Some(e) => r == Err::<Nft, NftError>(e) && *final(self) == *old(self),
                None => r == Ok::<Nft, NftError>(old(self).tokens_by_id@[token_id@])
                    && is_transferred(*old(self), *final(self), receiver_id@, token_id@),
            },
    {
        let i = match self.tokens_by_id.find(token_id) {
            Some(i) => i,
            None => {
                return Err(NftError::TokenNotFound);
            },
        };
        proof {
            self.tokens_by_id.lemma_view_at(i as int);
        }
        let token = self.tokens_by_id.value_at(i);
        if *sender_id != token.owner_id {
            let actual = match token.approved_account_ids.get(sender_id) {
                Some(a) => *a,
                None => {
                    return Err(NftError::Unauthorized);
                },
            };
            if let Some(enforced) = approval_id {
                if actual != enforced {
                    return Err(NftError::ApprovalIdMismatch);
                }
            }
        }
        if token.owner_id == *receiver_id {
            return Err(NftError::ReceiverIsOwner);
        }
        let ghost old_self = *self;
        let new_token = Nft {
            owner_id: receiver_id.clone(),
            collection_id: token.collection_id,
            approved_account_ids: LookupTable::new(),
            next_approval_id: token.next_approval_id,
            royalty: token.royalty.copy_table(),
        };
        let owner = token.owner_id.clone();
        proof {
            assert(owns(self.tokens_per_owner@, owner@, token_id@));
        }
        let removed = remove_token_from_owner(&mut self.tokens_per_owner, &owner, token_id);
        add_token_to_owner(&mut self.tokens_per_owner, receiver_id, token_id);
        let previous = match self.tokens_by_id.insert(token_id.key_clone(), new_token) {
            Some(p) => p,
            None => {
                proof {
                    assert(false);
                }
                return Err(NftError::TokenNotFound);
            },
        };
        proof {
            assert(removed is Ok);
            assert(self.token_metadata_by_id@.dom() =~= self.tokens_by_id@.dom());
            assert forall|t: Seq<char>| #[trigger] self.tokens_by_id@.contains_key(t) implies self.tokens_by_id@[t].wf() by {
                if t != token_id@ {
                    assert(old_self.tokens_by_id@.contains_key(t));
                }
            }
            assert forall|o: Seq<char>, t: Seq<char>|
                #![trigger owns(self.tokens_per_owner@, o, t)]
                owns(self.tokens_per_owner@, o, t) <==> (self.tokens_by_id@.contains_key(t)
                    && self.tokens_by_id@[t].owner_id@ == o) by {
                assert(owns(old_self.tokens_per_owner@, o, t) <==> (old_self.tokens_by_id@.contains_key(t)
                    && old_self.tokens_by_id@[t].owner_id@ == o));
            }
        }
        Ok(previous)
    }
}

/// The call of `nft_on_transfer` on the receiving contract.
pub struct NftOnTransferCall {
    pub receiver_contract_id: String,
    pub sender_id: String,
    pub previous_owner_id: String,
    pub token_id: String,
    pub msg: String,
    pub gas: u64,
}

/// What the resolution of a transfer call needs to undo it.
pub struct ResolveTransferArgs {
    /// The sender, when it transferred on the owner's behalf.
    pub authorized_id: Option<String>,
    pub previous_owner_id: String,
    pub receiver_id: String,
    pub token_id: String,
    pub previous_approved_account_ids: LookupTable<String, u64>,
    pub memo: Option<String>,
}

/// A transfer call: the token has moved, the receiver is called, and the
/// outcome is then resolved on this contract.
pub struct TransferCallOutcome {
    pub on_transfer: NftOnTransferCall,
    pub resolve: ResolveTransferArgs,
    pub resolve_gas: u64,
}

/// The contract after a transfer call was undone: the token is back with its
/// previous owner and its previous approvals, and the owner index follows.
pub open spec fn is_returned(old_c: NftContract, new_c: NftContract, args: ResolveTransferArgs) -> bool {
    let t = old_c.tokens_by_id@[args.token_id@];
    let n = new_c.tokens_by_id@[args.token_id@];
    &&& new_c.tokens_by_id@ == old_c.tokens_by_id@.insert(args.token_id@, n)
    &&& n.owner_id@ == args.previous_owner_id@
    &&& n.collection_id == t.collection_id
    &&& n.approved_account_ids@ == args.previous_approved_account_ids@
    &&& n.next_approval_id == t.next_approval_id
    &&& n.royalty == t.royalty
    &&& forall|o: Seq<char>, k: Seq<char>|
        #![trigger owns(new_c.tokens_per_owner@, o, k)]
        owns(new_c.tokens_per_owner@, o, k) <==> ((owns(old_c.tokens_per_owner@, o, k) && !(o == args.receiver_id@
            && k == args.token_id@)) || (o == args.previous_owner_id@ && k == args.token_id@))
    &&& new_c.token_metadata_by_id == old_c.token_metadata_by_id
    &&& new_c.collections_by_id == old_c.collections_by_id
    &&& new_c.collections_by_url == old_c.collections_by_url
    &&& new_c.next_collection_id == old_c.next_collection_id
    &&& new_c.owner_id == old_c.owner_id
    &&& new_c.metadata == old_c.metadata
}

/// A transfer call that the receiver does not accept is undone: once
/// resolved, the token is owned again by its previous owner, with the
/// approvals it had, in the same collection and with the same royalties and
/// next approval id; every account owns what it owned before the call, and
/// the collections are unchanged.
pub proof fn lemma_refused_transfer_call_is_undone(
    c0: NftContract,
    c1: NftContract,
    c2: NftContract,
    receiver: Seq<char>,
    args: ResolveTransferArgs,
    result: CallResult<bool>,
)
    requires
        c0.wf(),
        c1.wf(),
        c0.tokens_by_id@.contains_key(args.token_id@),
        c0.tokens_by_id@[args.token_id@].owner_id@ != receiver,
        is_transferred(c0, c1, receiver, args.token_id@),
        args.receiver_id@ == receiver,
        args.previous_owner_id@ == c0.tokens_by_id@[args.token_id@].owner_id@,
        args.previous_approved_account_ids@ == c0.tokens_by_id@[args.token_id@].approved_account_ids@,
        !(result matches CallResult::Successful(Some(false))),
        is_returned(c1, c2, args),
    ensures
        !transfer_stands(c1, args, result),
        c2.tokens_by_id@.dom() == c0.tokens_by_id@.dom(),
        c2.tokens_by_id@[args.token_id@].owner_id@ == c0.tokens_by_id@[args.token_id@].owner_id@,
        c2.tokens_by_id@[args.token_id@].approved_account_ids@ == c0.tokens_by_id@[args.token_id@].approved_account_ids@,
        c2.tokens_by_id@[args.token_id@].collection_id == c0.tokens_by_id@[args.token_id@].collection_id,
        c2.tokens_by_id@[args.token_id@].royalty@ == c0.tokens_by_id@[args.token_id@].royalty@,
        c2.tokens_by_id@[args.token_id@].next_approval_id == c0.tokens_by_id@[args.token_id@].next_approval_id,
        forall|k: Seq<char>| k != args.token_id@ && #[trigger] c0.tokens_by_id@.contains_key(k) ==> c2.tokens_by_id@[k]
            == c0.tokens_by_id@[k],
        forall|o: Seq<char>, k: Seq<char>|
            #![trigger owns(c2.tokens_per_owner@, o, k)]
            owns(c2.tokens_per_owner@, o, k) <==> owns(c0.tokens_per_owner@, o, k),
        c2.token_metadata_by_id == c0.token_metadata_by_id,
        c2.collections_by_id == c0.collections_by_id,
        c2.collections_by_url == c0.collections_by_url,
{
    let t = args.token_id@;
    assert(c1.tokens_by_id@.contains_key(t));
    assert(c2.tokens_by_id@.dom() =~= c0.tokens_by_id@.dom());
    assert forall|o: Seq<char>, k: Seq<char>|
        #![trigger owns(c2.tokens_per_owner@, o, k)]
        owns(c2.tokens_per_owner@, o, k) <==> owns(c0.tokens_per_owner@, o, k) by {
        assert(owns(c0.tokens_per_owner@, o, k) <==> (c0.tokens_by_id@.contains_key(k) && c0.tokens_by_id@[k].owner_id@
            == o));
        assert(owns(c1.tokens_per_owner@, o, k) <==> (c1.tokens_by_id@.contains_key(k) && c1.tokens_by_id@[k].owner_id@
            == o));
    }
}

/// How a transfer call ended: whether the receiver kept the token, and the
/// refund of the approvals that were released.
pub struct ResolveTransferOutcome {
    pub transferred: bool,
    pub refund: Transfer,
}

/// Whether a transfer call stands: the receiver asked to keep the token, or
/// the token is gone or no longer the receiver's, so it cannot be returned.
pub open spec fn transfer_stands(c: NftContract, args: ResolveTransferArgs, result: CallResult<bool>) -> bool {
    ||| result matches CallResult::Successful(Some(false))
    ||| !c.tokens_by_id@.contains_key(args.token_id@)
    ||| c.tokens_by_id@[args.token_id@].owner_id@ != args.receiver_id@
}

/// The refund of the storage of `approvals` to `account`, or why it cannot
/// be computed.
pub open spec fn approvals_refund(account: Seq<char>, approvals: Seq<Seq<char>>, byte_cost: u128) -> Result<
    (Seq<char>, int),
    NftError,
> {
    let bytes = approvals_bytes(approvals);
    if bytes > u128::MAX || bytes * byte_cost > u128::MAX {
        Err(NftError::ArithmeticOverflow)
    } else {
        Ok((account, bytes * byte_cost))
    }
}

pub open spec fn is_refund(t: Transfer, r: (Seq<char>, int)) -> bool {
    t.receiver_id@ == r.0 && t.amount_yocto == r.1
}

impl NftContract {
    /// Checks a transfer without making it.
    pub fn check_transfer(
        &self,
        sender_id: &String,
        receiver_id: &String,
        token_id: &String,
        approval_id: Option<u64>,
    ) -> (r: Option<NftError>)
        requires
            self.wf(),
        ensures
            r == transfer_error(*self, sender_id@, receiver_id@, token_id@, approval_id),
    {
        let token = match self.tokens_by_id.get(token_id) {
            Some(t) => t,
            None => {
                return Some(NftError::TokenNotFound);
            },
        };
        if *sender_id != token.owner_id {
            let actual = match token.approved_account_ids.get(sender_id) {
                Some(a) => *a,
                None => {
                    return Some(NftError::Unauthorized);
                },
            };
            if let Some(enforced) = approval_id {
                if actual != enforced {
                    return Some(NftError::ApprovalIdMismatch);
                }
            }
        }
        if token.owner_id == *receiver_id {
            return Some(NftError::ReceiverIsOwner);
        }
        None
    }

    /// Resolves a transfer call once the receiver answered: the transfer
    /// stands when the receiver keeps the token (or the token can no longer
    /// be returned), and the previous owner is refunded the approvals it
    /// released; otherwise the token goes back to its previous owner with its
    /// previous approvals, and the receiver is refunded the approvals it
    /// added meanwhile. Only the contract itself may call it.
    pub fn nft_resolve_transfer(
        &mut self,
        ctx: &CallContext,
        args: ResolveTransferArgs,
        result: CallResult<bool>,
    ) -> (r: Result<ResolveTransferOutcome, NftError>)
        requires
            old(self).wf(),
            args.previous_approved_account_ids.wf(),
        ensures
            final(self).wf(),
            ctx.predecessor_account_id@ != ctx.current_account_id@ ==> r == Err::<
                ResolveTransferOutcome,
                NftError,
            >(NftError::NotSelfCall),
            r is Err ==> *final(self) == *old(self),
            ctx.predecessor_account_id@ == ctx.current_account_id@ && transfer_stands(*old(self), args, result) ==> ({
                let refund = approvals_refund(
                    args.previous_owner_id@,
                    args.previous_approved_account_ids.keys(),
                    ctx.storage_byte_cost,
                );
                &&& refund is Err ==> r == Err::<ResolveTransferOutcome, NftError>(refund->Err_0)
                &&& refund is Ok ==> (r matches Ok(o) && o.transferred && is_refund(o.refund, refund->Ok_0))
                &&& *final(self) == *old(self)
            }),
            ctx.predecessor_account_id@ == ctx.current_account_id@ && !transfer_stands(*old(self), args, result) ==> ({
                let t = old(self).tokens_by_id@[args.token_id@];
                let n = final(self).tokens_by_id@[args.token_id@];
                let refund = approvals_refund(args.receiver_id@, t.approved_account_ids.keys(), ctx.storage_byte_cost);
                &&& refund is Err ==> r == Err::<ResolveTransferOutcome, NftError>(refund->Err_0)
                &&& refund is Ok ==> (r matches Ok(o) && !o.transferred && is_refund(o.refund, refund->Ok_0))
                    && is_returned(*old(self), *final(self), args)
            }),
    {
        if ctx.predecessor_account_id != ctx.current_account_id {
            return Err(NftError::NotSelfCall);
        }
        let kept = match result {
            CallResult::Successful(Some(false)) => true,
            _ => false,
        };
        let i = if kept {
            None
        } else {
            match self.tokens_by_id.find(&args.token_id) {
                None => None,
                Some(i) => {
                    proof {
                        self.tokens_by_id.lemma_view_at(i as int);
                    }
                    if self.tokens_by_id.value_at(i).owner_id != args.receiver_id {
                        None
                    } else {
                        Some(i)
                    }
                },
            }
        };
        let i = match i {
            None => {
                let refund = refund_approved_account_ids(
                    &args.previous_owner_id,
                    &args.previous_approved_account_ids,
                    ctx.storage_byte_cost,
                )?;
                return Ok(ResolveTransferOutcome { transferred: true, refund });
            },
            Some(i) => i,
        };
        let refund = refund_approved_account_ids(
            &args.receiver_id,
            &self.tokens_by_id.value_at(i).approved_account_ids,
            ctx.storage_byte_cost,
        )?;
        let ghost old_self = *self;
        let (k, token) = self.tokens_by_id.remove_at(i);
        proof {
            assert(owns(self.tokens_per_owner@, args.receiver_id@, args.token_id@));
        }
        let removed = remove_token_from_owner(&mut self.tokens_per_owner, &args.receiver_id, &args.token_id);
        add_token_to_owner(&mut self.tokens_per_owner, &args.previous_owner_id, &args.token_id);
        let restored = Nft {
            owner_id: args.previous_owner_id,
            collection_id: token.collection_id,
            approved_account_ids: args.previous_approved_account_ids,
            next_approval_id: token.next_approval_id,
            royalty: token.royalty,
        };
        self.tokens_by_id.insert(k, restored);
        proof {
            assert(removed is Ok);
            assert(self.tokens_by_id@ == old_self.tokens_by_id@.insert(args.token_id@, self.tokens_by_id@[args.token_id@]));
            assert(self.token_metadata_by_id@.dom() =~= self.tokens_by_id@.dom());
            assert forall|t: Seq<char>| #[trigger] self.tokens_by_id@.contains_key(t) implies self.tokens_by_id@[t].wf() by {
                if t != args.token_id@ {
                    assert(old_self.tokens_by_id@.contains_key(t));
                }
            }
            assert forall|o: Seq<char>, t: Seq<char>|
                #![trigger owns(self.tokens_per_owner@, o, t)]
                owns(self.tokens_per_owner@, o, t) <==> (self.tokens_by_id@.contains_key(t)
                    && self.tokens_by_id@[t].owner_id@ == o) by {
                assert(owns(old_self.tokens_per_owner@, o, t) <==> (old_self.tokens_by_id@.contains_key(t)
                    && old_self.tokens_by_id@[t].owner_id@ == o));
            }
        }
        Ok(ResolveTransferOutcome { transferred: false, refund })
    }
}

/// The core of NEP-171: transferring tokens and looking them up.
pub trait NonFungibleTokenCore: Sized {
    /// The invariant the contract keeps between calls.
    spec fn core_wf(&self) -> bool;

    /// Transfers a token to `receiver_id`; exactly one yoctoNear must be
    /// attached. Gives back the refund of the approvals the transfer
    /// released.
    fn nft_transfer(
        &mut self,
        ctx: &CallContext,
        receiver_id: String,
        token_id: String,
        approval_id: u64,
        memo: Option<String>,
    ) -> (r: Result<Transfer, NftError>)
        requires
            old(self).core_wf(),
        ensures
            final(self).core_wf(),
    ;

    /// Transfers a token to a contract and calls it; exactly one yoctoNear
    /// and enough gas must be attached.
    fn nft_transfer_call(
        &mut self,
        ctx: &CallContext,
        receiver_id: String,
        token_id: String,
        approval_id: u64,
        memo: Option<String>,
        msg: String,
    ) -> (r: Result<TransferCallOutcome, NftError>)
        requires
            old(self).core_wf(),
        ensures
            final(self).core_wf(),
    ;

    /// A token as clients see it, if it exists.
    fn nft_token(&self, token_id: String) -> (r: Option<JsonNft>)
        requires
            self.core_wf(),
    ;
}

/// A token as clients see it: its id, owner, collection, metadata,
/// approvals and royalties.
pub open spec fn is_json_nft(j: JsonNft, c: NftContract, token_id: Seq<char>) -> bool {
    let t = c.tokens_by_id@[token_id];
    &&& j.token_id@ == token_id
    &&& j.owner_id@ == t.owner_id@
    &&& j.collection_id == t.collection_id
    &&& j.metadata == c.token_metadata_by_id@[token_id]
    &&& j.approved_account_ids@ == t.approved_account_ids@
    &&& j.royalty@ == t.royalty@
}

impl NonFungibleTokenCore for NftContract {
    open spec fn core_wf(&self) -> bool {
        self.wf()
    }

    fn nft_transfer(
        &mut self,
        ctx: &CallContext,
        receiver_id: String,
        token_id: String,
        approval_id: u64,
        memo: Option<String>,
    ) -> (r: Result<Transfer, NftError>)
        ensures
            r is Err ==> *final(self) == *old(self),
            ctx.attached_deposit != 1 ==> r == Err::<Transfer, NftError>(NftError::RequiresOneYocto),
            ctx.attached_deposit == 1 ==> match transfer_error(
                *old(self),
                ctx.predecessor_account_id@,
                receiver_id@,
                token_id@,
                Some(approval_id),
            ) {
                Some(e) => r == Err::<Transfer, NftError>(e),
                None => {
                    let prev = old(self).tokens_by_id@[token_id@];
                    let refund = approvals_refund(prev.owner_id@, prev.approved_account_ids.keys(), ctx.storage_byte_cost);
                    &&& refund is Err ==> r == Err::<Transfer, NftError>(refund->Err_0)
                    &&& refund is Ok ==> (r matches Ok(t) && is_refund(t, refund->Ok_0))
                        && is_transferred(*old(self), *final(self), receiver_id@, token_id@)
                },
            },
    {
        if ctx.attached_deposit != 1 {
            return Err(NftError::RequiresOneYocto);
        }
        let sender_id = &ctx.predecessor_account_id;
        if let Some(e) = self.check_transfer(sender_id, &receiver_id, &token_id, Some(approval_id)) {
            return Err(e);
        }
        let refund = match self.tokens_by_id.get(&token_id) {
            Some(t) => refund_approved_account_ids(&t.owner_id, &t.approved_account_ids, ctx.storage_byte_cost)?,
            None => {
                return Err(NftError::TokenNotFound);
            },
        };
        match self.internal_transfer(sender_id, &receiver_id, &token_id, Some(approval_id)) {
            Ok(_) => Ok(refund),
            Err(e) => Err(e),
        }
    }

    fn nft_transfer_call(
        &mut self,
        ctx: &CallContext,
        receiver_id: String,
        token_id: String,
        approval_id: u64,
        memo: Option<String>,
        msg: String,
    ) -> (r: Result<TransferCallOutcome, NftError>)
        ensures
            r is Err ==> *final(self) == *old(self),
            ctx.attached_deposit != 1 ==> r == Err::<TransferCallOutcome, NftError>(NftError::RequiresOneYocto),
            ctx.attached_deposit == 1 && ctx.prepaid_gas < MIN_GAS_FOR_NFT_TRANSFER_CALL ==> r == Err::<
                TransferCallOutcome,
                NftError,
            >(NftError::NotEnoughGas),
            ctx.attached_deposit == 1 && ctx.prepaid_gas >= MIN_GAS_FOR_NFT_TRANSFER_CALL ==> match transfer_error(
                *old(self),
                ctx.predecessor_account_id@,
                receiver_id@,
                token_id@,
                Some(approval_id),
            ) {
                Some(e) => r == Err::<TransferCallOutcome, NftError>(e),
                None => {
                    let prev = old(self).tokens_by_id@[token_id@];
                    let sender = ctx.predecessor_account_id@;
                    &&& is_transferred(*old(self), *final(self), receiver_id@, token_id@)
                    &&& r matches Ok(o) && {
                        &&& o.on_transfer.receiver_contract_id@ == receiver_id@
                        &&& o.on_transfer.sender_id@ == sender
                        &&& o.on_transfer.previous_owner_id@ == prev.owner_id@
                        &&& o.on_transfer.token_id@ == token_id@
                        &&& o.on_transfer.msg@ == msg@
                        &&& o.on_transfer.gas == ctx.prepaid_gas - GAS_FOR_NFT_TRANSFER_CALL
                        &&& (sender != prev.owner_id@ ==> (o.resolve.authorized_id matches Some(a) && a@ == sender))
                        &&& (sender == prev.owner_id@ ==> o.resolve.authorized_id is None)
                        &&& o.resolve.previous_owner_id@ == prev.owner_id@
                        &&& o.resolve.receiver_id@ == receiver_id@
                        &&& o.resolve.token_id@ == token_id@
                        &&& o.resolve.previous_approved_account_ids == prev.approved_account_ids
                        &&& o.resolve.memo == memo
                        &&& o.resolve_gas == GAS_FOR_RESOLVE_TRANSFER
                    }
                },
            },
    {
        if ctx.attached_deposit != 1 {
            return Err(NftError::RequiresOneYocto);
        }
        if ctx.prepaid_gas < MIN_GAS_FOR_NFT_TRANSFER_CALL {
            return Err(NftError::NotEnoughGas);
        }
        let sender_id = ctx.predecessor_account_id.clone();
        let previous_token = self.internal_transfer(&sender_id, &receiver_id, &token_id, Some(approval_id))?;
        let authorized_id = if sender_id != previous_token.owner_id {
            Some(sender_id.clone())
        } else {
            None
        };
        let on_transfer = NftOnTransferCall {
            receiver_contract_id: receiver_id.clone(),
            sender_id,
            previous_owner_id: previous_token.owner_id.clone(),
            token_id: token_id.clone(),
            msg,
            gas: ctx.prepaid_gas - GAS_FOR_NFT_TRANSFER_CALL,
        };
        let resolve = ResolveTransferArgs {
            authorized_id,
            previous_owner_id: previous_token.owner_id,
            receiver_id,
            token_id,
            previous_approved_account_ids: previous_token.approved_account_ids,
            memo,
        };
        Ok(TransferCallOutcome { on_transfer, resolve, resolve_gas: GAS_FOR_RESOLVE_TRANSFER })
    }

    fn nft_token(&self, token_id: String) -> (r: Option<JsonNft>)
        ensures
            r is None <==> !self.tokens_by_id@.contains_key(token_id@),
            r matches Some(j) ==> is_json_nft(j, *self, token_id@),
    {
        let token = match self.tokens_by_id.get(&token_id) {
            Some(t) => t,
            None => {
                return None;
            },
        };
        let metadata = match self.token_metadata_by_id.get(&token_id) {
            Some(m) => m.clone_metadata(),
            None => {
                proof {
                    assert(self.token_metadata_by_id@.dom().contains(token_id@));
                }
                return None;
            },
        };
        Some(JsonNft {
            token_id,
            owner_id: token.owner_id.clone(),
            collection_id: token.collection_id,
            metadata,
            approved_account_ids: token.approved_account_ids.copy_table(),
            royalty: token.royalty.copy_table(),
        })
    }
}

} // verus!
