use vstd::prelude::*;

verus! {

broadcast use {vstd::seq_lib::group_to_multiset_ensures, vstd::multiset::group_multiset_axioms};

/// Something priced that buyers put forward (a bid or a proposal): an amount
/// and an id given in submission order.
pub trait Offer: Sized {
    spec fn offer_amount(&self) -> u128;

    spec fn offer_id(&self) -> int;

    fn amount(&self) -> (r: u128)
        ensures
            r == self.offer_amount(),
    ;

    /// Whether this offer was submitted no later than `other`.
    fn id_at_most(&self, other: &Self) -> (r: bool)
        ensures
            r == (self.offer_id() <= other.offer_id()),
    ;
}

/// `a` comes before `b` in best-first order: a higher amount first, on equal
/// amounts the earlier submission first.
pub open spec fn best_first<T: Offer>(a: T, b: T) -> bool {
    ||| a.offer_amount() > b.offer_amount()
    ||| (a.offer_amount() == b.offer_amount() && a.offer_id() <= b.offer_id())
}

/// `a` comes before `b` in worst-first order: a lower amount first, on equal
/// amounts the later submission first.
pub open spec fn worst_first<T: Offer>(a: T, b: T) -> bool {
    best_first(b, a)
}

pub open spec fn sorted_best_first<T: Offer>(s: Seq<T>) -> bool {
    forall|i: int, j: int| 0 <= i < j < s.len() ==> best_first(#[trigger] s[i], #[trigger] s[j])
}

pub open spec fn sorted_worst_first<T: Offer>(s: Seq<T>) -> bool {
    forall|i: int, j: int| 0 <= i < j < s.len() ==> worst_first(#[trigger] s[i], #[trigger] s[j])
}

fn best_first_exec<T: Offer>(a: &T, b: &T) -> (r: bool)
    ensures
        r == best_first(*a, *b),
{
    let (aa, ba) = (a.amount(), b.amount());
    aa > ba || (aa == ba && a.id_at_most(b))
}

/// Inserts `x` after every element that goes before it in best-first order.
fn insert_best_first<T: Offer>(v: &mut Vec<T>, x: T)
    requires
        sorted_best_first(old(v)@),
    ensures
        sorted_best_first(final(v)@),
        final(v)@.to_multiset() == old(v)@.to_multiset().insert(x),
{
    let n = v.len();
    let mut p: usize = 0;
    while p < n && best_first_exec(&v[p], &x)
        invariant
            n == v@.len(),
            p <= n,
            forall|j: int| 0 <= j < p ==> best_first(#[trigger] v@[j], x),
        decreases n - p,
    {
        p += 1;
    }
    let ghost s = v@;
    v.insert(p, x);
    proof {
        assert(v@ == s.insert(p as int, x));
        assert forall|i: int, j: int| 0 <= i < j < v@.len() implies best_first(
            #[trigger] v@[i],
            #[trigger] v@[j],
        ) by {
            if j < p {
                assert(v@[i] == s[i] && v@[j] == s[j]);
            } else if j == p {
                assert(v@[i] == s[i]);
            } else if i == p {
                assert(v@[j] == s[j - 1]);
                assert(!best_first(s[p as int], x));
                assert(best_first(s[p as int], s[j - 1]) || p == j - 1);
            } else if i < p {
                assert(v@[i] == s[i] && v@[j] == s[j - 1]);
            } else {
                assert(v@[i] == s[i - 1] && v@[j] == s[j - 1]);
            }
        }
    }
}

/// Sorts `v` best-first; the result holds the same elements.
pub fn sort_best_first<T: Offer>(v: &mut Vec<T>)
    ensures
        sorted_best_first(final(v)@),
        final(v)@.to_multiset() == old(v)@.to_multiset(),
{
    let ghost orig = v@;
    let mut sorted: Vec<T> = Vec::new();
    while v.len() > 0
        invariant
            sorted_best_first(sorted@),
            sorted@.to_multiset().add(v@.to_multiset()) == orig.to_multiset(),
        decreases v@.len(),
    {
        let ghost before = v@;
        let ghost sorted_before = sorted@;
        let x = v.pop().unwrap();
        proof {
            assert(before == v@.push(x));
        }
        insert_best_first(&mut sorted, x);
        proof {
            assert(sorted@.to_multiset().add(v@.to_multiset()) =~= sorted_before.to_multiset().add(
                before.to_multiset(),
            ));
        }
    }
    proof {
        assert(v@.to_multiset() =~= vstd::multiset::Multiset::empty());
    }
    *v = sorted;
}

/// Inserts `x` after every element that goes before it in worst-first order;
/// gives back its position.
pub fn insert_worst_first<T: Offer>(v: &mut Vec<T>, x: T) -> (p: usize)
    requires
        sorted_worst_first(old(v)@),
    ensures
        sorted_worst_first(final(v)@),
        final(v)@.to_multiset() == old(v)@.to_multiset().insert(x),
        p <= old(v)@.len(),
        final(v)@ == old(v)@.insert(p as int, x),
{
    let n = v.len();
    let mut p: usize = 0;
    while p < n && best_first_exec(&x, &v[p])
        invariant
            n == v@.len(),
            p <= n,
            forall|j: int| 0 <= j < p ==> worst_first(#[trigger] v@[j], x),
        decreases n - p,
    {
        p += 1;
    }
    let ghost s = v@;
    v.insert(p, x);
    proof {
        assert(v@ == s.insert(p as int, x));
        assert forall|i: int, j: int| 0 <= i < j < v@.len() implies worst_first(
            #[trigger] v@[i],
            #[trigger] v@[j],
        ) by {
            if j < p {
                assert(v@[i] == s[i] && v@[j] == s[j]);
            } else if j == p {
                assert(v@[i] == s[i]);
            } else if i == p {
                assert(v@[j] == s[j - 1]);
                assert(!worst_first(s[p as int], x));
                assert(worst_first(s[p as int], s[j - 1]) || p == j - 1);
            } else if i < p {
                assert(v@[i] == s[i] && v@[j] == s[j - 1]);
            } else {
                assert(v@[i] == s[i - 1] && v@[j] == s[j - 1]);
            }
        }
    }
    p
}

/// Sorts `v` worst-first; the result holds the same elements.
pub fn sort_worst_first<T: Offer>(v: &mut Vec<T>)
    ensures
        sorted_worst_first(final(v)@),
        final(v)@.to_multiset() == old(v)@.to_multiset(),
{
    let ghost orig = v@;
    let mut sorted: Vec<T> = Vec::new();
    while v.len() > 0
        invariant
            sorted_worst_first(sorted@),
            sorted@.to_multiset().add(v@.to_multiset()) == orig.to_multiset(),
        decreases v@.len(),
    {
        let ghost before = v@;
        let ghost sorted_before = sorted@;
        let x = v.pop().unwrap();
        proof {
            assert(before == v@.push(x));
        }
        insert_worst_first(&mut sorted, x);
        proof {
            assert(sorted@.to_multiset().add(v@.to_multiset()) =~= sorted_before.to_multiset().add(
                before.to_multiset(),
            ));
        }
    }
    proof {
        assert(v@.to_multiset() =~= vstd::multiset::Multiset::empty());
    }
    *v = sorted;
}

/// Any two offers are ordered one way or the other.
pub proof fn lemma_best_first_total<T: Offer>(a: T, b: T)
    ensures
        best_first(a, b) || best_first(b, a),
{
}

/// Two offers that each go before the other have the same amount and id.
pub proof fn lemma_best_first_antisymmetric<T: Offer>(a: T, b: T)
    requires
        best_first(a, b),
        best_first(b, a),
    ensures
        a.offer_amount() == b.offer_amount(),
        a.offer_id() == b.offer_id(),
{
}

/// Best-first order is transitive.
pub proof fn lemma_best_first_transitive<T: Offer>(a: T, b: T, c: T)
    requires
        best_first(a, b),
        best_first(b, c),
    ensures
        best_first(a, c),
{
}

/// Read backwards, offers sorted best first are sorted worst first.
pub proof fn lemma_reverse_of_best_first<T: Offer>(s: Seq<T>)
    requires
        sorted_best_first(s),
    ensures
        sorted_worst_first(s.reverse()),
{
    assert forall|i: int, j: int| 0 <= i < j < s.reverse().len() implies worst_first(
        #[trigger] s.reverse()[i],
        #[trigger] s.reverse()[j],
    ) by {
        assert(s.reverse()[i] == s[s.len() - 1 - i]);
        assert(s.reverse()[j] == s[s.len() - 1 - j]);
    }
}

} // verus!
