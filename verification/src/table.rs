use vstd::prelude::*;

verus! {

/// A key of a [`LookupTable`]: it has a mathematical value, can be compared
/// with another key and copied.
pub trait TableKey: Sized {
    type KeyView;

    spec fn key_view(&self) -> Self::KeyView;

    fn key_eq(&self, other: &Self) -> (b: bool)
        ensures
            b == (self.key_view() == other.key_view()),
    ;

    fn key_clone(&self) -> (c: Self)
        ensures
            c.key_view() == self.key_view(),
    ;
}

impl TableKey for String {
    type KeyView = Seq<char>;

    open spec fn key_view(&self) -> Seq<char> {
        self@
    }

    fn key_eq(&self, other: &Self) -> (b: bool) {
        *self == *other
    }

    fn key_clone(&self) -> (c: Self) {
        self.clone()
    }
}

impl TableKey for u128 {
    type KeyView = u128;

    open spec fn key_view(&self) -> u128 {
        *self
    }

    fn key_eq(&self, other: &Self) -> (b: bool) {
        *self == *other
    }

    fn key_clone(&self) -> (c: Self) {
        *self
    }
}

impl TableKey for u64 {
    type KeyView = u64;

    open spec fn key_view(&self) -> u64 {
        *self
    }

    fn key_eq(&self, other: &Self) -> (b: bool) {
        *self == *other
    }

    fn key_clone(&self) -> (c: Self) {
        *self
    }
}

/// An insertion-ordered key/value table. New keys are appended, updated keys
/// keep their place and a removed entry is replaced by the last one, so that
/// enumeration follows the order of a persistent unordered map.
pub struct LookupTable<K, V> {
    entries: Vec<(K, V)>,
}

/// The map whose keys are `ks` and whose value at `ks[i]` is `vs[i]`.
pub open spec fn seq_map<KV, V>(ks: Seq<KV>, vs: Seq<V>) -> Map<KV, V> {
    Map::new(|k: KV| ks.contains(k), |k: KV| vs[ks.index_of(k)])
}

/// In a sequence without duplicates the position of an element is unique.
pub proof fn lemma_index_of_unique<KV>(ks: Seq<KV>, i: int)
    requires
        ks.no_duplicates(),
        0 <= i < ks.len(),
    ensures
        ks.contains(ks[i]),
        ks.index_of(ks[i]) == i,
{
    assert(ks[i] == ks[i]);
    assert(ks.contains(ks[i]));
}

impl<K: TableKey, V> LookupTable<K, V> {
    /// The keys, in enumeration order.
    pub closed spec fn keys(&self) -> Seq<K::KeyView> {
        Seq::new(self.entries@.len(), |i: int| self.entries@[i].0.key_view())
    }

    /// The values, in enumeration order.
    pub closed spec fn values(&self) -> Seq<V> {
        Seq::new(self.entries@.len(), |i: int| self.entries@[i].1)
    }

    /// No key occurs twice.
    pub open spec fn wf(&self) -> bool {
        &&& self.keys().no_duplicates()
        &&& self.keys().len() == self.values().len()
    }

    /// The table as a map from keys to values.
    pub open spec fn view(&self) -> Map<K::KeyView, V> {
        seq_map(self.keys(), self.values())
    }

    /// A well-formed table has as many entries as keys.
    pub proof fn lemma_map_len(&self)
        requires
            self.wf(),
        ensures
            self@.len() == self.keys().len(),
    {
        self.keys().unique_seq_to_set();
        assert(self@.dom() =~= self.keys().to_set());
    }

    pub proof fn lemma_lens(&self)
        ensures
            self.keys().len() == self.values().len(),
    {
    }

    /// The value stored at a position is the one the map gives for its key.
    pub proof fn lemma_view_at(&self, i: int)
        requires
            self.wf(),
            0 <= i < self.keys().len(),
        ensures
            self@.contains_key(self.keys()[i]),
            self@[self.keys()[i]] == self.values()[i],
    {
        lemma_index_of_unique(self.keys(), i);
    }

    /// A key of the map stands at some position.
    pub proof fn lemma_key_at(&self, k: K::KeyView)
        requires
            self.wf(),
            self@.contains_key(k),
        ensures
            0 <= self.keys().index_of(k) < self.keys().len(),
            self.keys()[self.keys().index_of(k)] == k,
            self@[k] == self.values()[self.keys().index_of(k)],
    {
    }

    /// An empty table.
    pub fn new() -> (t: Self)
        ensures
            t.wf(),
            t@ == Map::<K::KeyView, V>::empty(),
            t.keys() == Seq::<K::KeyView>::empty(),
            t.values() == Seq::<V>::empty(),
    {
        let t = LookupTable { entries: Vec::new() };
        assert(t@ =~= Map::<K::KeyView, V>::empty());
        assert(t.keys() =~= Seq::<K::KeyView>::empty());
        assert(t.values() =~= Seq::<V>::empty());
        t
    }

    /// The number of entries.
    pub fn len(&self) -> (n: usize)
        ensures
            n == self.keys().len(),
            n == self.values().len(),
    {
        self.entries.len()
    }

    /// The position of `k`, if it is a key.
    pub fn find(&self, k: &K) -> (r: Option<usize>)
        requires
            self.wf(),
        ensures
            r is None <==> !self@.contains_key(k.key_view()),
            r matches Some(i) ==> i < self.keys().len() && self.keys()[i as int] == k.key_view()
                && self.keys().index_of(k.key_view()) == i,
    {
        let n = self.entries.len();
        let mut i: usize = 0;
        while i < n
            invariant
                self.wf(),
                n == self.entries@.len(),
                i <= n,
                forall|j: int| 0 <= j < i ==> self.keys()[j] != k.key_view(),
            decreases n - i,
        {
            if self.entries[i].0.key_eq(k) {
                proof {
                    lemma_index_of_unique(self.keys(), i as int);
                }
                return Some(i);
            }
            i += 1;
        }
        None
    }

    /// Whether an entry has key `k`.
    pub fn contains_key(&self, k: &K) -> (b: bool)
        requires
            self.wf(),
        ensures
            b == self@.contains_key(k.key_view()),
    {
        self.find(k).is_some()
    }

    /// The value stored under `k`, if any.
    pub fn get(&self, k: &K) -> (r: Option<&V>)
        requires
            self.wf(),
        ensures
            r is None <==> !self@.contains_key(k.key_view()),
            r matches Some(v) ==> *v == self@[k.key_view()],
    {
        match self.find(k) {
            Some(i) => Some(&self.entries[i].1),
            None => None,
        }
    }

    /// The key of the `i`-th entry.
    pub fn key_at(&self, i: usize) -> (k: &K)
        requires
            i < self.keys().len(),
        ensures
            k.key_view() == self.keys()[i as int],
    {
        &self.entries[i].0
    }

    /// The value of the `i`-th entry.
    pub fn value_at(&self, i: usize) -> (v: &V)
        requires
            i < self.keys().len(),
        ensures
            *v == self.values()[i as int],
    {
        &self.entries[i].1
    }

    /// Replaces the value at position `i`, keeping its key and place.
    pub fn replace_at(&mut self, i: usize, v: V) -> (old_v: V)
        requires
            old(self).wf(),
            i < old(self).keys().len(),
        ensures
            final(self).wf(),
            old_v == old(self).values()[i as int],
            final(self).keys() == old(self).keys(),
            final(self).values() == old(self).values().update(i as int, v),
            final(self)@ == old(self)@.insert(old(self).keys()[i as int], v),
    {
        let ghost old_t = *self;
        let mut v = v;
        std::mem::swap(&mut self.entries[i].1, &mut v);
        proof {
            assert(self.keys() =~= old_t.keys());
            assert(self.values() =~= old_t.values().update(i as int, self.values()[i as int]));
            let kv = old_t.keys()[i as int];
            assert forall|k: K::KeyView| #![auto] self@.contains_key(k) implies self@[k] == old_t@.insert(kv, self.values()[i as int])[k] by {
                if k != kv {
                    old_t.lemma_key_at(k);
                }
                lemma_index_of_unique(self.keys(), i as int);
            }
            assert(self@ =~= old_t@.insert(kv, self.values()[i as int]));
        }
        v
    }

    /// Sets `k` to `v`: an existing key keeps its place, a new one is appended.
    pub fn insert(&mut self, k: K, v: V) -> (prev: Option<V>)
        requires
            old(self).wf(),
        ensures
            final(self).wf(),
            final(self)@ == old(self)@.insert(k.key_view(), v),
            prev is None <==> !old(self)@.contains_key(k.key_view()),
            prev matches Some(p) ==> p == old(self)@[k.key_view()],
            old(self)@.contains_key(k.key_view()) ==> final(self).keys() == old(self).keys()
                && final(self).values() == old(self).values().update(
                old(self).keys().index_of(k.key_view()),
                v,
            ),
            !old(self)@.contains_key(k.key_view()) ==> final(self).keys() == old(self).keys().push(
                k.key_view(),
            ) && final(self).values() == old(self).values().push(v),
    {
        match self.find(&k) {
            Some(i) => {
                proof {
                    self.lemma_view_at(i as int);
                }
                let p = self.replace_at(i, v);
                Some(p)
            },
            None => {
                let ghost old_t = *self;
                let ghost kv = k.key_view();
                self.entries.push((k, v));
                proof {
                    assert(self.keys() =~= old_t.keys().push(kv));
                    assert(self.values() =~= old_t.values().push(v));
                    assert forall|a: int, b: int|
                        0 <= a < self.keys().len() && 0 <= b < self.keys().len() && a != b
                        implies self.keys()[a] != self.keys()[b] by {
                        if a < old_t.keys().len() && b < old_t.keys().len() {
                        } else if a < old_t.keys().len() {
                            assert(old_t.keys().contains(old_t.keys()[a]));
                        } else {
                            assert(old_t.keys().contains(old_t.keys()[b]));
                        }
                    }
                    let n = old_t.keys().len() as int;
                    assert forall|k2: K::KeyView| #![auto] self@.contains_key(k2) <==> old_t@.insert(kv, v).contains_key(k2) by {
                        if self@.contains_key(k2) && k2 != kv {
                            let j = choose|j: int| 0 <= j < self.keys().len() && self.keys()[j] == k2;
                            assert(j < n);
                            assert(old_t.keys()[j] == k2);
                        }
                        if old_t@.contains_key(k2) {
                            old_t.lemma_key_at(k2);
                            assert(self.keys()[old_t.keys().index_of(k2)] == k2);
                        }
                        if k2 == kv {
                            assert(self.keys()[n] == kv);
                        }
                    }
                    assert forall|k2: K::KeyView| #![auto] self@.contains_key(k2) implies self@[k2] == old_t@.insert(kv, v)[k2] by {
                        if k2 == kv {
                            lemma_index_of_unique(self.keys(), n);
                        } else {
                            old_t.lemma_key_at(k2);
                            lemma_index_of_unique(self.keys(), old_t.keys().index_of(k2));
                        }
                    }
                    assert(self@ =~= old_t@.insert(kv, v));
                }
                None
            },
        }
    }

    /// Removes the entry at position `i`; the last entry takes its place.
    pub fn remove_at(&mut self, i: usize) -> (entry: (K, V))
        requires
            old(self).wf(),
            i < old(self).keys().len(),
        ensures
            final(self).wf(),
            entry.0.key_view() == old(self).keys()[i as int],
            entry.1 == old(self).values()[i as int],
            final(self)@ == old(self)@.remove(old(self).keys()[i as int]),
            final(self).keys() == old(self).keys().update(i as int, old(self).keys().last()).drop_last(),
            final(self).values() == old(self).values().update(i as int, old(self).values().last()).drop_last(),
    {
        let ghost old_t = *self;
        let e = self.entries.swap_remove(i);
        proof {
            let ok = old_t.keys();
            let n = ok.len() as int;
            assert(self.keys() =~= ok.update(i as int, ok.last()).drop_last());
            assert(self.values() =~= old_t.values().update(i as int, old_t.values().last()).drop_last());
            let kv = ok[i as int];
            assert forall|a: int, b: int|
                0 <= a < self.keys().len() && 0 <= b < self.keys().len() && a != b
                implies self.keys()[a] != self.keys()[b] by {
                let oa = if a == i { n - 1 } else { a };
                let ob = if b == i { n - 1 } else { b };
                assert(self.keys()[a] == ok[oa]);
                assert(self.keys()[b] == ok[ob]);
            }
            assert forall|k2: K::KeyView| #![auto] self@.contains_key(k2) <==> old_t@.remove(kv).contains_key(k2) by {
                if self@.contains_key(k2) {
                    let j = choose|j: int| 0 <= j < self.keys().len() && self.keys()[j] == k2;
                    let oj = if j == i { n - 1 } else { j };
                    assert(ok[oj] == k2);
                    assert(ok.contains(k2));
                    if k2 == kv {
                        assert(oj != i);
                    }
                }
                if old_t@.remove(kv).contains_key(k2) {
                    old_t.lemma_key_at(k2);
                    let oj = ok.index_of(k2);
                    let j = if oj == n - 1 { i as int } else { oj };
                    assert(self.keys()[j] == k2);
                }
            }
            assert forall|k2: K::KeyView| #![auto] self@.contains_key(k2) implies self@[k2] == old_t@[k2] by {
                let j = choose|j: int| 0 <= j < self.keys().len() && self.keys()[j] == k2;
                lemma_index_of_unique(self.keys(), j);
                let oj = if j == i { n - 1 } else { j };
                lemma_index_of_unique(ok, oj);
            }
            assert(self@ =~= old_t@.remove(kv));
        }
        e
    }

    /// Removes the entry at position `i`, keeping the order of the others.
    pub fn remove_keep_order(&mut self, i: usize) -> (entry: (K, V))
        requires
            old(self).wf(),
            i < old(self).keys().len(),
        ensures
            final(self).wf(),
            entry.0.key_view() == old(self).keys()[i as int],
            entry.1 == old(self).values()[i as int],
            final(self)@ == old(self)@.remove(old(self).keys()[i as int]),
            final(self).keys() == old(self).keys().remove(i as int),
            final(self).values() == old(self).values().remove(i as int),
    {
        let ghost old_t = *self;
        let e = self.entries.remove(i);
        proof {
            let ok = old_t.keys();
            let kv = ok[i as int];
            assert(self.keys() =~= ok.remove(i as int));
            assert(self.values() =~= old_t.values().remove(i as int));
            assert forall|a: int, b: int|
                0 <= a < self.keys().len() && 0 <= b < self.keys().len() && a != b
                implies self.keys()[a] != self.keys()[b] by {
                let oa = if a < i { a } else { a + 1 };
                let ob = if b < i { b } else { b + 1 };
                assert(self.keys()[a] == ok[oa]);
                assert(self.keys()[b] == ok[ob]);
            }
            assert forall|k2: K::KeyView| #![auto] self@.contains_key(k2) <==> old_t@.remove(kv).contains_key(k2) by {
                if self@.contains_key(k2) {
                    let j = choose|j: int| 0 <= j < self.keys().len() && self.keys()[j] == k2;
                    let oj = if j < i { j } else { j + 1 };
                    assert(ok[oj] == k2);
                    assert(ok.contains(k2));
                    lemma_index_of_unique(ok, i as int);
                    if k2 == kv {
                        assert(oj != i);
                    }
                }
                if old_t@.remove(kv).contains_key(k2) {
                    old_t.lemma_key_at(k2);
                    let oj = ok.index_of(k2);
                    let j = if oj < i { oj } else { oj - 1 };
                    assert(self.keys()[j] == k2);
                }
            }
            assert forall|k2: K::KeyView| #![auto] self@.contains_key(k2) implies self@[k2] == old_t@[k2] by {
                let j = choose|j: int| 0 <= j < self.keys().len() && self.keys()[j] == k2;
                lemma_index_of_unique(self.keys(), j);
                let oj = if j < i { j } else { j + 1 };
                lemma_index_of_unique(ok, oj);
            }
            assert(self@ =~= old_t@.remove(kv));
        }
        e
    }

    /// Puts an entry with a new key back at position `i`.
    pub fn insert_at(&mut self, i: usize, k: K, v: V)
        requires
            old(self).wf(),
            i <= old(self).keys().len(),
            !old(self)@.contains_key(k.key_view()),
        ensures
            final(self).wf(),
            final(self)@ == old(self)@.insert(k.key_view(), v),
            final(self).keys() == old(self).keys().insert(i as int, k.key_view()),
            final(self).values() == old(self).values().insert(i as int, v),
    {
        let ghost old_t = *self;
        let ghost kv = k.key_view();
        self.entries.insert(i, (k, v));
        proof {
            let ok = old_t.keys();
            assert(self.keys() =~= ok.insert(i as int, kv));
            assert(self.values() =~= old_t.values().insert(i as int, v));
            assert forall|a: int, b: int|
                0 <= a < self.keys().len() && 0 <= b < self.keys().len() && a != b
                implies self.keys()[a] != self.keys()[b] by {
                if a != i && b != i {
                    let oa = if a < i { a } else { a - 1 };
                    let ob = if b < i { b } else { b - 1 };
                    assert(self.keys()[a] == ok[oa]);
                    assert(self.keys()[b] == ok[ob]);
                } else if a == i {
                    let ob = if b < i { b } else { b - 1 };
                    assert(self.keys()[b] == ok[ob]);
                    assert(ok.contains(ok[ob]));
                } else {
                    let oa = if a < i { a } else { a - 1 };
                    assert(self.keys()[a] == ok[oa]);
                    assert(ok.contains(ok[oa]));
                }
            }
            assert forall|k2: K::KeyView| #![auto] self@.contains_key(k2) <==> old_t@.insert(kv, v).contains_key(k2) by {
                if self@.contains_key(k2) && k2 != kv {
                    let j = choose|j: int| 0 <= j < self.keys().len() && self.keys()[j] == k2;
                    let oj = if j < i { j } else { j - 1 };
                    assert(ok[oj] == k2);
                    assert(ok.contains(k2));
                }
                if old_t@.contains_key(k2) {
                    old_t.lemma_key_at(k2);
                    let oj = ok.index_of(k2);
                    let j = if oj < i { oj } else { oj + 1 };
                    assert(self.keys()[j] == k2);
                }
                if k2 == kv {
                    assert(self.keys()[i as int] == kv);
                }
            }
            assert forall|k2: K::KeyView| #![auto] self@.contains_key(k2) implies self@[k2] == old_t@.insert(kv, v)[k2] by {
                let j = choose|j: int| 0 <= j < self.keys().len() && self.keys()[j] == k2;
                lemma_index_of_unique(self.keys(), j);
                if j != i {
                    let oj = if j < i { j } else { j - 1 };
                    lemma_index_of_unique(ok, oj);
                }
            }
            assert(self@ =~= old_t@.insert(kv, v));
        }
    }

    /// Removes `k`, giving back its value if it was a key.
    pub fn remove(&mut self, k: &K) -> (r: Option<V>)
        requires
            old(self).wf(),
        ensures
            final(self).wf(),
            final(self)@ == old(self)@.remove(k.key_view()),
            r is None <==> !old(self)@.contains_key(k.key_view()),
            r matches Some(v) ==> v == old(self)@[k.key_view()],
            !old(self)@.contains_key(k.key_view()) ==> *final(self) == *old(self),
    {
        match self.find(k) {
            Some(i) => {
                proof {
                    self.lemma_view_at(i as int);
                }
                let (_, v) = self.remove_at(i);
                Some(v)
            },
            None => {
                proof {
                    assert(self@ =~= self@.remove(k.key_view()));
                }
                None
            },
        }
    }
}

impl<K: TableKey, V: Copy> LookupTable<K, V> {
    /// A copy of the table, entry for entry.
    pub fn copy_table(&self) -> (c: Self)
        ensures
            c.keys() == self.keys(),
            c.values() == self.values(),
            c@ == self@,
    {
        let mut entries: Vec<(K, V)> = Vec::new();
        let n = self.entries.len();
        let mut i: usize = 0;
        while i < n
            invariant
                n == self.entries@.len(),
                i <= n,
                entries@.len() == i,
                forall|j: int| 0 <= j < i ==> #[trigger] entries@[j].0.key_view() == self.entries@[j].0.key_view()
                    && entries@[j].1 == self.entries@[j].1,
            decreases n - i,
        {
            let k = self.entries[i].0.key_clone();
            let v = self.entries[i].1;
            entries.push((k, v));
            i += 1;
        }
        let c = LookupTable { entries };
        assert forall|j: int| 0 <= j < n implies c.values()[j] == self.values()[j] by {
            assert(entries@[j].0.key_view() == self.entries@[j].0.key_view());
        }
        assert(c.keys() =~= self.keys());
        assert(c.values() =~= self.values());
        c
    }
}

} // verus!
