use vstd::prelude::*;

verus! {

/// Where a page of `len` items starts: `from_index`, read as a `usize`,
/// kept within the items.
pub open spec fn page_start(len: int, from_index: usize) -> int {
    if from_index < len {
        from_index as int
    } else {
        len
    }
}

/// Where a page of `len` items ends: at most `limit` items after its start.
pub open spec fn page_end(len: int, from_index: usize, limit: usize) -> int {
    let s = page_start(len, from_index);
    if s + limit < len {
        s + limit
    } else {
        len
    }
}

/// The items of `s` from `from_index` on, at most `limit` of them, as
/// `iter().skip(from_index).take(limit)` yields them.
pub open spec fn page<T>(s: Seq<T>, from_index: usize, limit: usize) -> Seq<T> {
    s.subrange(page_start(s.len() as int, from_index), page_end(s.len() as int, from_index, limit))
}

/// The bounds of a page, as positions in the sequence.
pub fn page_bounds(len: usize, from_index: usize, limit: usize) -> (r: (usize, usize))
    ensures
        r.0 == page_start(len as int, from_index),
        r.1 == page_end(len as int, from_index, limit),
        r.0 <= r.1 <= len,
{
    let s = if from_index < len {
        from_index
    } else {
        len
    };
    let e = if limit < len - s {
        s + limit
    } else {
        len
    };
    (s, e)
}

/// The first error in a sequence of per-item outcomes, if any.
pub open spec fn first_error<E>(errs: Seq<Option<E>>) -> Option<E>
    decreases errs.len(),
{
    if errs.len() == 0 {
        None
    } else if errs[0] is Some {
        errs[0]
    } else {
        first_error(errs.drop_first())
    }
}

pub proof fn lemma_first_error_at<E>(errs: Seq<Option<E>>, k: int)
    requires
        0 <= k < errs.len(),
        errs[k] is Some,
        forall|j: int| 0 <= j < k ==> errs[j] is None,
    ensures
        first_error(errs) == errs[k],
    decreases k,
{
    if k > 0 {
        lemma_first_error_at(errs.drop_first(), k - 1);
    }
}

pub proof fn lemma_first_error_none<E>(errs: Seq<Option<E>>)
    requires
        forall|j: int| 0 <= j < errs.len() ==> errs[j] is None,
    ensures
        first_error(errs) is None,
    decreases errs.len(),
{
    if errs.len() > 0 {
        lemma_first_error_none(errs.drop_first());
    }
}

/// Two consecutive pages make up the page that spans both: the page of
/// `limit1` items from `from`, then the page of `limit2` items from where it
/// ended, is the page of `limit1 + limit2` items from `from`.
pub proof fn lemma_consecutive_pages<T>(s: Seq<T>, from: usize, limit1: usize, limit2: usize)
    requires
        from + limit1 <= usize::MAX,
        limit1 + limit2 <= usize::MAX,
    ensures
        page(s, from, limit1) + page(s, (from + limit1) as usize, limit2) == page(
            s,
            from,
            (limit1 + limit2) as usize,
        ),
{
    let n = s.len() as int;
    let a = page_start(n, from);
    let b = page_end(n, from, limit1);
    let b2 = page_start(n, (from + limit1) as usize);
    assert(b2 == b);
    assert(page_end(n, (from + limit1) as usize, limit2) == page_end(n, from, (limit1 + limit2) as usize));
    assert(s.subrange(a, b) + s.subrange(b, page_end(n, from, (limit1 + limit2) as usize)) =~= s.subrange(
        a,
        page_end(n, from, (limit1 + limit2) as usize),
    ));
}

/// A page holds at most `limit` items, each of them an item of the whole.
pub proof fn lemma_page_bounded<T>(s: Seq<T>, from: usize, limit: usize)
    ensures
        page(s, from, limit).len() <= limit,
        forall|i: int| 0 <= i < page(s, from, limit).len() ==> #[trigger] page(s, from, limit)[i] == s[from + i],
{
}

} // verus!
