use vstd::prelude::*;
use crate::table::{TableKey, LookupTable};
use crate::marketplace::errors::MarketError;
use crate::marketplace::primary::{PrimaryListing, PrimaryListingId};
use crate::marketplace::secondary::{SecondaryListing, SecondaryListingId};

verus! {

/// A listing kept in a [`ListingBook`]: it knows its key and its seller.
pub trait Listing<K: TableKey>: Sized {
    spec fn listing_key(&self) -> K::KeyView;

    spec fn seller(&self) -> Seq<char>;

    fn key(&self) -> (k: &K)
        ensures
            k.key_view() == self.listing_key(),
    ;

    fn seller_id(&self) -> (s: &String)
        ensures
            s@ == self.seller(),
    ;
}

impl Listing<PrimaryListingId> for PrimaryListing {
    open spec fn listing_key(&self) -> (Seq<char>, u64) {
        self.id.key_view()
    }

    open spec fn seller(&self) -> Seq<char> {
        self.seller_id@
    }

    fn key(&self) -> (k: &PrimaryListingId) {
        &self.id
    }

    fn seller_id(&self) -> (s: &String) {
        &self.seller_id
    }
}

impl Listing<SecondaryListingId> for SecondaryListing {
    open spec fn listing_key(&self) -> (Seq<char>, Seq<char>) {
        self.id.key_view()
    }

    open spec fn seller(&self) -> Seq<char> {
        self.seller_id@
    }

    fn key(&self) -> (k: &SecondaryListingId) {
        &self.id
    }

    fn seller_id(&self) -> (s: &String) {
        &self.seller_id
    }
}

/// Listings by id, with an index of the ids each seller has listed.
pub struct ListingBook<K, L> {
    pub by_id: LookupTable<K, L>,
    pub by_seller_id: LookupTable<String, LookupTable<K, ()>>,
}

impl<K: TableKey, L: Listing<K>> ListingBook<K, L> {
    /// Every listing is stored under its own key and appears in the index of
    /// its seller; every index entry is a non-empty set.
    pub open spec fn wf(&self) -> bool {
        &&& self.by_id.wf()
        &&& self.by_seller_id.wf()
        &&& forall|k: K::KeyView| #[trigger]
            self.by_id@.contains_key(k) ==> {
                &&& self.by_id@[k].listing_key() == k
                &&& self.by_seller_id@.contains_key(self.by_id@[k].seller())
                &&& self.by_seller_id@[self.by_id@[k].seller()]@.contains_key(k)
            }
        &&& forall|s: Seq<char>| #[trigger]
            self.by_seller_id@.contains_key(s) ==> {
                &&& self.by_seller_id@[s].wf()
                &&& self.by_seller_id@[s].keys().len() > 0
            }
    }

    /// `new_b` is `old_b` without the listing under `k`: the key leaves its
    /// seller's index, and a seller left with no listings leaves the index.
    pub open spec fn key_removed(old_b: Self, new_b: Self, k: K::KeyView) -> bool {
        let s = old_b.by_id@[k].seller();
        let rest = old_b.by_seller_id@[s]@.remove(k);
        &&& new_b.by_id@ == old_b.by_id@.remove(k)
        &&& rest.dom().is_empty() ==> new_b.by_seller_id@ == old_b.by_seller_id@.remove(s)
        &&& !rest.dom().is_empty() ==> new_b.by_seller_id@.dom() == old_b.by_seller_id@.dom()
            && new_b.by_seller_id@[s]@ == rest && forall|s2: Seq<char>|
            s2 != s && #[trigger] old_b.by_seller_id@.contains_key(s2) ==> new_b.by_seller_id@[s2]
                == old_b.by_seller_id@[s2]
    }

    /// `new_b` is `old_b` with `listing` stored under its key and the key in
    /// its seller's index; the other sellers' indexes are unchanged.
    pub open spec fn listing_added(old_b: Self, new_b: Self, listing: L) -> bool {
        let s = listing.seller();
        &&& new_b.by_id@ == old_b.by_id@.insert(listing.listing_key(), listing)
        &&& new_b.by_seller_id@.dom() == old_b.by_seller_id@.dom().insert(s)
        &&& new_b.by_seller_id@[s]@ == (if old_b.by_seller_id@.contains_key(s) {
            old_b.by_seller_id@[s]@
        } else {
            Map::empty()
        }).insert(listing.listing_key(), ())
        &&& forall|s2: Seq<char>|
            s2 != s && #[trigger] old_b.by_seller_id@.contains_key(s2) ==> new_b.by_seller_id@[s2]
                == old_b.by_seller_id@[s2]
    }

    /// Removing a listing that was just added restores the book: the
    /// listings by id, and each seller's index (a seller whose only listing
    /// it was leaves the index again), provided its key was neither stored
    /// nor in its seller's index before.
    pub proof fn lemma_remove_undoes_add(b0: Self, b1: Self, b2: Self, listing: L)
        requires
            b0.wf(),
            !b0.by_id@.contains_key(listing.listing_key()),
            !(b0.by_seller_id@.contains_key(listing.seller())
                && b0.by_seller_id@[listing.seller()]@.contains_key(listing.listing_key())),
            Self::listing_added(b0, b1, listing),
            Self::key_removed(b1, b2, listing.listing_key()),
        ensures
            b2.by_id@ == b0.by_id@,
            b2.by_seller_id@.dom() == b0.by_seller_id@.dom(),
            forall|s: Seq<char>| #[trigger] b0.by_seller_id@.contains_key(s) ==> b2.by_seller_id@[s]@
                == b0.by_seller_id@[s]@,
    {
        let k = listing.listing_key();
        let s = listing.seller();
        assert(b1.by_id@[k] == listing);
        assert(b2.by_id@ =~= b0.by_id@);
        let before = if b0.by_seller_id@.contains_key(s) {
            b0.by_seller_id@[s]@
        } else {
            Map::<K::KeyView, ()>::empty()
        };
        let rest = b1.by_seller_id@[s]@.remove(k);
        assert(rest =~= before);
        if b0.by_seller_id@.contains_key(s) {
            assert(b0.by_seller_id@[s].keys().len() > 0);
            let k0 = b0.by_seller_id@[s].keys()[0];
            b0.by_seller_id@[s].lemma_view_at(0);
            assert(rest.contains_key(k0));
            assert(b2.by_seller_id@.dom() =~= b0.by_seller_id@.dom());
        } else {
            assert(rest.dom() =~= Set::empty());
            assert(b2.by_seller_id@ == b1.by_seller_id@.remove(s));
            assert(b2.by_seller_id@.dom() =~= b0.by_seller_id@.dom());
        }
    }

    /// Every key in a seller's index is a stored listing of that seller.
    pub open spec fn index_exact(&self) -> bool {
        forall|s: Seq<char>, k: K::KeyView|
            #![trigger self.by_seller_id@[s]@.contains_key(k)]
            self.by_seller_id@.contains_key(s) && self.by_seller_id@[s]@.contains_key(k) ==> {
                &&& self.by_id@.contains_key(k)
                &&& self.by_id@[k].seller() == s
            }
    }

    /// Removing a listing keeps every key of the sellers' indexes a stored
    /// listing of its seller.
    pub proof fn lemma_removal_keeps_index_exact(b1: Self, b2: Self, k: K::KeyView)
        requires
            b1.wf(),
            b1.index_exact(),
            b1.by_id@.contains_key(k),
            Self::key_removed(b1, b2, k),
        ensures
            b2.index_exact(),
    {
        let s = b1.by_id@[k].seller();
        let rest = b1.by_seller_id@[s]@.remove(k);
        assert forall|s2: Seq<char>, k2: K::KeyView|
            b2.by_seller_id@.contains_key(s2) && #[trigger] b2.by_seller_id@[s2]@.contains_key(k2) implies {
                &&& b2.by_id@.contains_key(k2)
                &&& b2.by_id@[k2].seller() == s2
            } by {
            if rest.dom().is_empty() {
                assert(b2.by_seller_id@[s2] == b1.by_seller_id@[s2]);
                assert(b1.by_seller_id@[s2]@.contains_key(k2));
                if k2 == k {
                    assert(b1.by_id@[k].seller() == s2);
                }
            } else if s2 == s {
                assert(rest.contains_key(k2));
                assert(b1.by_seller_id@[s]@.contains_key(k2));
            } else {
                assert(b1.by_seller_id@.contains_key(s2));
                assert(b2.by_seller_id@[s2] == b1.by_seller_id@[s2]);
                assert(b1.by_seller_id@[s2]@.contains_key(k2));
                if k2 == k {
                    assert(b1.by_id@[k].seller() == s2);
                }
            }
        }
    }

    /// Adding a listing keeps every key of the sellers' indexes a stored
    /// listing of its seller, unless it replaces a listing of another seller
    /// (whose index then still names the key).
    pub proof fn lemma_add_keeps_index_exact(b0: Self, b1: Self, listing: L)
        requires
            b0.index_exact(),
            b0.by_id@.contains_key(listing.listing_key()) ==> b0.by_id@[listing.listing_key()].seller()
                == listing.seller(),
            Self::listing_added(b0, b1, listing),
        ensures
            b1.index_exact(),
    {
        let k = listing.listing_key();
        let s = listing.seller();
        assert forall|s2: Seq<char>, k2: K::KeyView|
            b1.by_seller_id@.contains_key(s2) && #[trigger] b1.by_seller_id@[s2]@.contains_key(k2) implies {
                &&& b1.by_id@.contains_key(k2)
                &&& b1.by_id@[k2].seller() == s2
            } by {
            if s2 == s {
                if k2 != k {
                    assert(b0.by_seller_id@.contains_key(s));
                    assert(b0.by_seller_id@[s]@.contains_key(k2));
                }
            } else {
                assert(b0.by_seller_id@.contains_key(s2));
                assert(b0.by_seller_id@[s2]@.contains_key(k2));
            }
        }
    }

    /// A book with no listings.
    pub fn new() -> (b: Self)
        ensures
            b.wf(),
            b.by_id@ == Map::<K::KeyView, L>::empty(),
            b.by_seller_id@ == Map::<Seq<char>, LookupTable<K, ()>>::empty(),
    {
        ListingBook { by_id: LookupTable::new(), by_seller_id: LookupTable::new() }
    }

    /// Stores a listing under its key (replacing any listing stored there)
    /// and adds the key to its seller's index.
    pub fn add(&mut self, listing: L)
        requires
            old(self).wf(),
        ensures
            final(self).wf(),
            Self::listing_added(*old(self), *final(self), listing),
    {
        let key = listing.key().key_clone();
        let seller = listing.seller_id().clone();
        let ghost lk = listing.listing_key();
        let ghost ls = listing.seller();
        let ghost old_b = *self;
        let mut set = match self.by_seller_id.remove(&seller) {
            Some(s) => s,
            None => LookupTable::new(),
        };
        let ghost old_set = set;
        set.insert(key, ());
        self.by_seller_id.insert(seller, set);
        self.by_id.insert(listing.key().key_clone(), listing);
        proof {
            assert(self.by_seller_id@ == old_b.by_seller_id@.insert(ls, set));
            assert(set@ == old_set@.insert(lk, ()));
            assert forall|k: K::KeyView| #[trigger] self.by_id@.contains_key(k) implies {
                &&& self.by_id@[k].listing_key() == k
                &&& self.by_seller_id@.contains_key(self.by_id@[k].seller())
                &&& self.by_seller_id@[self.by_id@[k].seller()]@.contains_key(k)
            } by {
                if k != lk {
                    assert(old_b.by_id@.contains_key(k));
                }
            }
            assert forall|s: Seq<char>| #[trigger] self.by_seller_id@.contains_key(s) implies {
                &&& self.by_seller_id@[s].wf()
                &&& self.by_seller_id@[s].keys().len() > 0
            } by {
                if s == ls {
                    assert(set@.contains_key(lk));
                    set.lemma_key_at(lk);
                } else {
                    assert(old_b.by_seller_id@.contains_key(s));
                }
            }
            assert(self.by_seller_id@.dom() =~= old_b.by_seller_id@.dom().insert(ls));
        }
    }

    /// The listing stored under `key`, if any.
    pub fn get(&self, key: &K) -> (r: Option<&L>)
        requires
            self.wf(),
        ensures
            r is None <==> !self.by_id@.contains_key(key.key_view()),
            r matches Some(l) ==> *l == self.by_id@[key.key_view()],
    {
        self.by_id.get(key)
    }

    /// Takes a listing out of the book to be changed; the index is left as
    /// it was, so that [`ListingBook::put_back`] restores the book.
    pub fn take(&mut self, key: &K) -> (r: Result<(usize, K, L), MarketError>)
        requires
            old(self).wf(),
        ensures
            final(self).wf(),
            !old(self).by_id@.contains_key(key.key_view()) ==> r == Err::<(usize, K, L), MarketError>(
                MarketError::ListingNotFound,
            ) && *final(self) == *old(self),
            old(self).by_id@.contains_key(key.key_view()) ==> (r matches Ok((i, k, l)) && {
                &&& k.key_view() == key.key_view()
                &&& l == old(self).by_id@[key.key_view()]
                &&& i == old(self).by_id.keys().index_of(key.key_view())
                &&& i < old(self).by_id.keys().len()
                &&& final(self).by_id@ == old(self).by_id@.remove(key.key_view())
                &&& final(self).by_id.keys() == old(self).by_id.keys().remove(i as int)
                &&& final(self).by_id.values() == old(self).by_id.values().remove(i as int)
                &&& final(self).by_seller_id == old(self).by_seller_id
            }),
    {
        let ghost old_b = *self;
        match self.by_id.find(key) {
            None => Err(MarketError::ListingNotFound),
            Some(i) => {
                proof {
                    old_b.by_id.lemma_view_at(i as int);
                }
                let (k, l) = self.by_id.remove_keep_order(i);
                proof {
                    assert forall|k2: K::KeyView| #[trigger] self.by_id@.contains_key(k2) implies {
                        &&& self.by_id@[k2].listing_key() == k2
                        &&& self.by_seller_id@.contains_key(self.by_id@[k2].seller())
                        &&& self.by_seller_id@[self.by_id@[k2].seller()]@.contains_key(k2)
                    } by {
                        assert(old_b.by_id@.contains_key(k2));
                    }
                }
                Ok((i, k, l))
            },
        }
    }

    /// Puts a listing taken out by [`ListingBook::take`] back in its place;
    /// its key and seller are those it had.
    pub fn put_back(&mut self, i: usize, k: K, listing: L)
        requires
            old(self).wf(),
            i <= old(self).by_id.keys().len(),
            k.key_view() == listing.listing_key(),
            !old(self).by_id@.contains_key(k.key_view()),
            old(self).by_seller_id@.contains_key(listing.seller()),
            old(self).by_seller_id@[listing.seller()]@.contains_key(k.key_view()),
        ensures
            final(self).wf(),
            final(self).by_id@ == old(self).by_id@.insert(k.key_view(), listing),
            final(self).by_id.keys() == old(self).by_id.keys().insert(i as int, k.key_view()),
            final(self).by_id.values() == old(self).by_id.values().insert(i as int, listing),
            final(self).by_seller_id == old(self).by_seller_id,
    {
        let ghost old_b = *self;
        let ghost kv = k.key_view();
        self.by_id.insert_at(i, k, listing);
        proof {
            assert forall|k2: K::KeyView| #[trigger] self.by_id@.contains_key(k2) implies {
                &&& self.by_id@[k2].listing_key() == k2
                &&& self.by_seller_id@.contains_key(self.by_id@[k2].seller())
                &&& self.by_seller_id@[self.by_id@[k2].seller()]@.contains_key(k2)
            } by {
                if k2 != kv {
                    assert(old_b.by_id@.contains_key(k2));
                }
            }
        }
    }

    /// Replaces a stored listing by one with the same key and seller.
    pub fn update(&mut self, listing: L)
        requires
            old(self).wf(),
            old(self).by_id@.contains_key(listing.listing_key()),
            old(self).by_id@[listing.listing_key()].seller() == listing.seller(),
        ensures
            final(self).wf(),
            final(self).by_id@ == old(self).by_id@.insert(listing.listing_key(), listing),
            final(self).by_id.keys() == old(self).by_id.keys(),
            final(self).by_seller_id == old(self).by_seller_id,
    {
        let ghost old_b = *self;
        let ghost lk = listing.listing_key();
        self.by_id.insert(listing.key().key_clone(), listing);
        proof {
            assert forall|k: K::KeyView| #[trigger] self.by_id@.contains_key(k) implies {
                &&& self.by_id@[k].listing_key() == k
                &&& self.by_seller_id@.contains_key(self.by_id@[k].seller())
                &&& self.by_seller_id@[self.by_id@[k].seller()]@.contains_key(k)
            } by {
                assert(old_b.by_id@.contains_key(k));
            }
        }
    }

    /// Removes a listing and its key from its seller's index; a seller left
    /// with no listings leaves the index.
    pub fn remove(&mut self, key: &K) -> (r: Result<L, MarketError>)
        requires
            old(self).wf(),
        ensures
            final(self).wf(),
            !old(self).by_id@.contains_key(key.key_view()) ==> r == Err::<L, MarketError>(
                MarketError::ListingNotFound,
            ) && *final(self) == *old(self),
            old(self).by_id@.contains_key(key.key_view()) ==> {
                let l = old(self).by_id@[key.key_view()];
                let s = l.seller();
                let rest = old(self).by_seller_id@[s]@.remove(key.key_view());
                &&& r == Ok::<L, MarketError>(l)
                &&& final(self).by_id@ == old(self).by_id@.remove(key.key_view())
                &&& rest.dom().is_empty() ==> final(self).by_seller_id@ == old(
                    self,
                ).by_seller_id@.remove(s)
                &&& !rest.dom().is_empty() ==> final(self).by_seller_id@.dom() == old(
                    self,
                ).by_seller_id@.dom() && final(self).by_seller_id@[s]@ == rest
                    && forall|s2: Seq<char>|
                    s2 != s && #[trigger] old(self).by_seller_id@.contains_key(s2)
                        ==> final(self).by_seller_id@[s2] == old(self).by_seller_id@[s2]
            },
    {
        let ghost old_b = *self;
        let ghost kv = key.key_view();
        let listing = match self.by_id.remove(key) {
            Some(l) => l,
            None => {
                return Err(MarketError::ListingNotFound);
            },
        };
        let ghost s = listing.seller();
        assert(old_b.by_id@.contains_key(kv));
        let seller = listing.seller_id().clone();
        let mut set = match self.by_seller_id.remove(&seller) {
            Some(set) => set,
            None => {
                assert(false);
                return Err(MarketError::SellerIndexMissing);
            },
        };
        let ghost old_set = set;
        let removed = set.remove(key);
        if set.len() == 0 {
            proof {
                assert forall|k: K::KeyView| #[trigger] self.by_id@.contains_key(k) implies {
                    &&& self.by_id@[k].listing_key() == k
                    &&& self.by_seller_id@.contains_key(self.by_id@[k].seller())
                    &&& self.by_seller_id@[self.by_id@[k].seller()]@.contains_key(k)
                } by {
                    assert(old_b.by_id@.contains_key(k));
                    if self.by_id@[k].seller() == s {
                        old_set.lemma_key_at(k);
                        assert(set@.contains_key(k));
                        set.lemma_key_at(k);
                    }
                }
                assert forall|s2: Seq<char>| #[trigger] self.by_seller_id@.contains_key(s2) implies {
                    &&& self.by_seller_id@[s2].wf()
                    &&& self.by_seller_id@[s2].keys().len() > 0
                } by {
                    assert(old_b.by_seller_id@.contains_key(s2));
                }
                assert(set@.dom() =~= Set::empty()) by {
                    assert forall|k: K::KeyView| !set@.contains_key(k) by {
                        if set@.contains_key(k) {
                            set.lemma_key_at(k);
                        }
                    }
                }
            }
        } else {
            self.by_seller_id.insert(seller, set);
            proof {
                assert forall|k: K::KeyView| #[trigger] self.by_id@.contains_key(k) implies {
                    &&& self.by_id@[k].listing_key() == k
                    &&& self.by_seller_id@.contains_key(self.by_id@[k].seller())
                    &&& self.by_seller_id@[self.by_id@[k].seller()]@.contains_key(k)
                } by {
                    assert(old_b.by_id@.contains_key(k));
                }
                assert forall|s2: Seq<char>| #[trigger] self.by_seller_id@.contains_key(s2) implies {
                    &&& self.by_seller_id@[s2].wf()
                    &&& self.by_seller_id@[s2].keys().len() > 0
                } by {
                    if s2 != s {
                        assert(old_b.by_seller_id@.contains_key(s2));
                    }
                }
                assert(self.by_seller_id@.dom() =~= old_b.by_seller_id@.dom());
                assert(set@.contains_key(set.keys()[0]));
            }
        }
        Ok(listing)
    }
}

} // verus!
