use vstd::prelude::*;
use crate::marketplace::bid::Bid;
use crate::table::{TableKey, LookupTable};
use crate::marketplace::book::ListingBook;
use crate::context::{CallContext, Transfer};
use crate::marketplace::constants::MIN_DEPOSIT;
use crate::marketplace::errors::MarketError;
use crate::marketplace::primary::{PrimaryListing, PrimaryListingId};
use crate::marketplace::secondary::{SecondaryListing, SecondaryListingId};
use crate::fpo::offering::{FixedPriceOffering, OfferingId};

verus! {

broadcast use vstd::string::group_string_axioms;

/// The marketplace: its primary and secondary listings, its fixed-price
/// offerings and the storage deposits of its users.
pub struct MarketplaceContract {
    pub owner_id: String,
    pub primary_listings: ListingBook<PrimaryListingId, PrimaryListing>,
    pub secondary_listings: ListingBook<SecondaryListingId, SecondaryListing>,
    pub fpos: ListingBook<OfferingId, FixedPriceOffering>,
    pub storage_deposits: LookupTable<String, u128>,
}

/// The deposit an account holds, 0 for an account without a record.
pub open spec fn deposit_of(deposits: Map<Seq<char>, u128>, account: Seq<char>) -> u128 {
    if deposits.contains_key(account) {
        deposits[account]
    } else {
        0
    }
}

/// The deposits once each released bid's bidder, when it has a deposit
/// record, is credited `amount` (the cost of the storage its bid freed), in
/// the order the bids were released; a credit stops at the largest `u128`.
pub open spec fn credit_bidders(d: Map<Seq<char>, u128>, bs: Seq<Bid>, amount: u128) -> Map<Seq<char>, u128>
    decreases bs.len(),
{
    if bs.len() == 0 {
        d
    } else {
        let d1 = credit_bidders(d, bs.drop_last(), amount);
        let a = bs.last().bidder_id@;
        if !d1.contains_key(a) {
            d1
        } else if d1[a] + amount > u128::MAX {
            d1.insert(a, u128::MAX)
        } else {
            d1.insert(a, (d1[a] + amount) as u128)
        }
    }
}

/// Crediting bidders opens no record: the accounts with a deposit stay the same.
pub proof fn lemma_credit_bidders_keeps_accounts(d: Map<Seq<char>, u128>, bs: Seq<Bid>, amount: u128)
    ensures
        credit_bidders(d, bs, amount).dom() == d.dom(),
    decreases bs.len(),
{
    if bs.len() > 0 {
        lemma_credit_bidders_keeps_accounts(d, bs.drop_last(), amount);
        let d1 = credit_bidders(d, bs.drop_last(), amount);
        let a = bs.last().bidder_id@;
        if d1.contains_key(a) {
            assert(d1.insert(a, 0u128).dom() =~= d1.dom());
            assert(credit_bidders(d, bs, amount).dom() =~= d1.dom());
        }
    }
}

impl MarketplaceContract {
    /// Credits each released bid's bidder that has a deposit record with
    /// `amount`, the cost of the storage its bid freed.
    pub fn credit_released_bidders(&mut self, released: &Vec<Bid>, amount: u128)
        requires
            old(self).wf(),
        ensures
            final(self).wf(),
            final(self).deposits() == credit_bidders(old(self).deposits(), released@, amount),
            final(self).primary_listings == old(self).primary_listings,
            final(self).secondary_listings == old(self).secondary_listings,
            final(self).fpos == old(self).fpos,
            final(self).owner_id == old(self).owner_id,
    {
        let n = released.len();
        let mut i: usize = 0;
        while i < n
            invariant
                n == released@.len(),
                i <= n,
                self.wf(),
                self.deposits() == credit_bidders(old(self).deposits(), released@.take(i as int), amount),
                self.primary_listings == old(self).primary_listings,
                self.secondary_listings == old(self).secondary_listings,
                self.fpos == old(self).fpos,
                self.owner_id == old(self).owner_id,
            decreases n - i,
        {
            proof {
                assert(released@.take(i + 1).drop_last() =~= released@.take(i as int));
                assert(released@.take(i + 1).last() == released@[i as int]);
            }
            let bidder = released[i].bidder_id.clone();
            match self.storage_deposits.get(&bidder) {
                None => {},
                Some(d) => {
                    let updated = match d.checked_add(amount) {
                        Some(u) => u,
                        None => u128::MAX,
                    };
                    self.storage_deposits.insert(bidder, updated);
                },
            }
            i += 1;
        }
        proof {
            assert(released@.take(n as int) =~= released@);
        }
    }

    /// The deposit `account` would hold once the bidders of `bids`, from the
    /// last bid to the first, were each credited `amount`.
    pub fn deposit_after_crediting(&self, bids: &Vec<Bid>, amount: u128, account: &String) -> (d: u128)
        requires
            self.wf(),
        ensures
            d == deposit_of(credit_bidders(self.deposits(), bids@.reverse(), amount), account@),
    {
        let has_record = self.storage_deposits.get(account).is_some();
        let mut d: u128 = self.deposit_or_zero(account);
        let n = bids.len();
        let mut i = n;
        proof {
            assert(bids@.reverse().take(0) =~= Seq::<Bid>::empty());
        }
        while i > 0
            invariant
                i <= n == bids@.len(),
                self.wf(),
                has_record == self.deposits().contains_key(account@),
                d == deposit_of(
                    credit_bidders(self.deposits(), bids@.reverse().take((n - i) as int), amount),
                    account@,
                ),
            decreases i,
        {
            i -= 1;
            proof {
                let rs = bids@.reverse();
                assert(rs.take((n - i) as int).drop_last() =~= rs.take((n - i - 1) as int));
                assert(rs.take((n - i) as int).last() == bids@[i as int]);
                lemma_credit_bidders_keeps_accounts(self.deposits(), rs.take((n - i - 1) as int), amount);
            }
            if has_record && bids[i].bidder_id == *account {
                d = match d.checked_add(amount) {
                    Some(u) => u,
                    None => u128::MAX,
                };
            }
        }
        proof {
            assert(bids@.reverse().take(n as int) =~= bids@.reverse());
        }
        d
    }

    pub open spec fn wf(&self) -> bool {
        &&& self.primary_listings.wf()
        &&& self.secondary_listings.wf()
        &&& self.storage_deposits.wf()
        &&& forall|k: (Seq<char>, u64)| #[trigger]
            self.primary_listings.by_id@.contains_key(k) ==> self.primary_listings.by_id@[k].wf()
        &&& forall|k: (Seq<char>, Seq<char>)| #[trigger]
            self.secondary_listings.by_id@.contains_key(k) ==> self.secondary_listings.by_id@[k].wf()
        &&& self.fpos.wf()
        &&& forall|k: (Seq<char>, u64)| #[trigger] self.fpos.by_id@.contains_key(k) ==> self.fpos.by_id@[k].wf()
    }

    pub open spec fn deposits(&self) -> Map<Seq<char>, u128> {
        self.storage_deposits@
    }

    /// A marketplace with no listings and no deposits.
    pub fn new(owner_id: String) -> (c: MarketplaceContract)
        ensures
            c.wf(),
            c.owner_id == owner_id,
            c.primary_listings.by_id@ == Map::<(Seq<char>, u64), PrimaryListing>::empty(),
            c.secondary_listings.by_id@ == Map::<(Seq<char>, Seq<char>), SecondaryListing>::empty(),
            c.fpos.by_id@ == Map::<(Seq<char>, u64), FixedPriceOffering>::empty(),
            c.deposits() == Map::<Seq<char>, u128>::empty(),
    {
        MarketplaceContract {
            owner_id,
            primary_listings: ListingBook::new(),
            secondary_listings: ListingBook::new(),
            fpos: ListingBook::new(),
            storage_deposits: LookupTable::new(),
        }
    }

    /// The deposit of `account`, 0 when it has none.
    pub fn deposit_or_zero(&self, account: &String) -> (d: u128)
        requires
            self.wf(),
        ensures
            d == deposit_of(self.deposits(), account@),
    {
        match self.storage_deposits.get(account) {
            Some(d) => *d,
            None => 0,
        }
    }

    /// The deposit of `account` and whether it has a deposit record.
    pub fn deposit(&self, account_id: &String) -> (r: (u128, bool))
        requires
            self.wf(),
        ensures
            r.1 == self.deposits().contains_key(account_id@),
            r.0 == deposit_of(self.deposits(), account_id@),
    {
        match self.storage_deposits.get(account_id) {
            Some(d) => (*d, true),
            None => (0, false),
        }
    }

    /// Adds the attached deposit to the caller's storage deposit, then
    /// charges the storage its deposit record took (`record_storage_bytes`,
    /// as the runtime measured it). The total must reach [`MIN_DEPOSIT`] and
    /// cover that storage.
    pub fn place_deposit(&mut self, ctx: &CallContext, record_storage_bytes: u64) -> (r: Result<
        (),
        MarketError,
    >)
        requires
            old(self).wf(),
        ensures
            final(self).wf(),
            ({
                let current = deposit_of(old(self).deposits(), ctx.predecessor_account_id@);
                let total = current + ctx.attached_deposit;
                let cost = record_storage_bytes * ctx.storage_byte_cost;
                if total > u128::MAX {
                    r == Err::<(), MarketError>(MarketError::ArithmeticOverflow)
                } else if total < MIN_DEPOSIT {
                    r == Err::<(), MarketError>(MarketError::DepositBelowMinimum)
                } else if cost > u128::MAX {
                    r == Err::<(), MarketError>(MarketError::ArithmeticOverflow)
                } else if total < cost {
                    r == Err::<(), MarketError>(MarketError::DepositCannotCoverStorage)
                } else {
                    &&& r is Ok
                    &&& final(self).deposits() == old(self).deposits().insert(
                        ctx.predecessor_account_id@,
                        (total - cost) as u128,
                    )
                }
            }),
            r is Err ==> *final(self) == *old(self),
            final(self).primary_listings == old(self).primary_listings,
            final(self).secondary_listings == old(self).secondary_listings,
            final(self).fpos == old(self).fpos,
            final(self).owner_id == old(self).owner_id,
    {
        let account = ctx.predecessor_account_id.clone();
        let current = self.deposit_or_zero(&account);
        let total = match current.checked_add(ctx.attached_deposit) {
            Some(t) => t,
            None => {
                return Err(MarketError::ArithmeticOverflow);
            },
        };
        if total < MIN_DEPOSIT {
            return Err(MarketError::DepositBelowMinimum);
        }
        let cost = match (record_storage_bytes as u128).checked_mul(ctx.storage_byte_cost) {
            Some(c) => c,
            None => {
                return Err(MarketError::ArithmeticOverflow);
            },
        };
        if total < cost {
            return Err(MarketError::DepositCannotCoverStorage);
        }
        self.storage_deposits.insert(account, total - cost);
        Ok(())
    }

    /// Pays `withdrawn_amount_yocto` of the caller's storage deposit back to it.
    pub fn withdraw_deposit(&mut self, ctx: &CallContext, withdrawn_amount_yocto: u128) -> (r: Result<
        Transfer,
        MarketError,
    >)
        requires
            old(self).wf(),
        ensures
            final(self).wf(),
            ({
                let current = deposit_of(old(self).deposits(), ctx.predecessor_account_id@);
                if withdrawn_amount_yocto > current {
                    r == Err::<Transfer, MarketError>(MarketError::WithdrawalExceedsDeposit)
                } else {
                    &&& r matches Ok(t) && t.receiver_id@ == ctx.predecessor_account_id@
                        && t.amount_yocto == withdrawn_amount_yocto
                    &&& final(self).deposits() == old(self).deposits().insert(
                        ctx.predecessor_account_id@,
                        (current - withdrawn_amount_yocto) as u128,
                    )
                }
            }),
            r is Err ==> *final(self) == *old(self),
            final(self).primary_listings == old(self).primary_listings,
            final(self).secondary_listings == old(self).secondary_listings,
            final(self).fpos == old(self).fpos,
            final(self).owner_id == old(self).owner_id,
    {
        let account = ctx.predecessor_account_id.clone();
        let current = self.deposit_or_zero(&account);
        if withdrawn_amount_yocto > current {
            return Err(MarketError::WithdrawalExceedsDeposit);
        }
        self.storage_deposits.insert(account, current - withdrawn_amount_yocto);
        Ok(Transfer { receiver_id: ctx.predecessor_account_id.clone(), amount_yocto: withdrawn_amount_yocto })
    }
}

} // verus!
