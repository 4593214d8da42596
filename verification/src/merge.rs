//! The consumer-facing merge contract: the accumulated result list is ordered
//! by priority, descending, with a stable sort, so that results of equal
//! priority keep their arrival order.

use vstd::prelude::*;

use crate::response::QueryResponse;

verus! {

/// Ordered by priority, highest first.
pub open spec fn sorted_desc(s: Seq<QueryResponse>) -> bool {
    forall|i: int, j: int| 0 <= i < j < s.len() ==> s[i].priority >= s[j].priority
}

/// The subsequence of `s` with priority exactly `p`, in the order of `s`.
pub open spec fn with_priority(s: Seq<QueryResponse>, p: i64) -> Seq<QueryResponse> {
    s.filter(|r: QueryResponse| r.priority == p)
}

/// `x` placed into `s` directly after the last element whose priority is at
/// least `x`'s, so that a later arrival never overtakes an equal-priority
/// earlier one.
pub open spec fn insert_desc(x: QueryResponse, s: Seq<QueryResponse>) -> Seq<QueryResponse>
    decreases s.len(),
{
    if s.len() == 0 {
        seq![x]
    } else if s.last().priority >= x.priority {
        s.push(x)
    } else {
        insert_desc(x, s.drop_last()).push(s.last())
    }
}

/// The stable, descending-priority ordering of `s`: each element, in arrival
/// order, inserted after the existing elements of equal or higher priority.
pub open spec fn sort_desc(s: Seq<QueryResponse>) -> Seq<QueryResponse>
    decreases s.len(),
{
    if s.len() == 0 {
        Seq::empty()
    } else {
        insert_desc(s.last(), sort_desc(s.drop_last()))
    }
}

proof fn lemma_filter_push(s: Seq<QueryResponse>, x: QueryResponse, p: i64)
    ensures
        with_priority(s.push(x), p) == if x.priority == p {
            with_priority(s, p).push(x)
        } else {
            with_priority(s, p)
        },
{
    reveal(Seq::filter);
    assert(s.push(x).drop_last() =~= s);
    assert(s.push(x).last() == x);
}

proof fn lemma_insert_desc_filter(x: QueryResponse, s: Seq<QueryResponse>, p: i64)
    ensures
        with_priority(insert_desc(x, s), p) == with_priority(s.push(x), p),
    decreases s.len(),
{
    if s.len() == 0 {
        assert(s.push(x) =~= insert_desc(x, s));
    } else if s.last().priority >= x.priority {
    } else {
        let d = s.drop_last();
        let t = insert_desc(x, d);
        lemma_insert_desc_filter(x, d, p);
        lemma_filter_push(t, s.last(), p);
        lemma_filter_push(d, x, p);
        lemma_filter_push(s, x, p);
        lemma_filter_push(d, s.last(), p);
        assert(d.push(s.last()) =~= s);
    }
}

proof fn lemma_insert_desc_all_ge(x: QueryResponse, s: Seq<QueryResponse>, b: int)
    requires
        x.priority >= b,
        forall|i: int| 0 <= i < s.len() ==> s[i].priority >= b,
    ensures
        insert_desc(x, s).len() == s.len() + 1,
        forall|i: int| 0 <= i < s.len() + 1 ==> #[trigger] insert_desc(x, s)[i].priority >= b,
    decreases s.len(),
{
    if s.len() == 0 {
    } else if s.last().priority >= x.priority {
    } else {
        lemma_insert_desc_all_ge(x, s.drop_last(), b);
    }
}

proof fn lemma_insert_desc_sorted(x: QueryResponse, s: Seq<QueryResponse>)
    requires
        sorted_desc(s),
    ensures
        insert_desc(x, s).len() == s.len() + 1,
        sorted_desc(insert_desc(x, s)),
    decreases s.len(),
{
    if s.len() == 0 {
    } else if s.last().priority >= x.priority {
        let t = s.push(x);
        assert forall|i: int, j: int| 0 <= i < j < t.len() implies t[i].priority >= t[j].priority by {
            if j < s.len() {
            } else {
                assert(t[j] == x);
                if i < s.len() - 1 {
                    assert(s[i].priority >= s[s.len() - 1].priority);
                }
            }
        }
    } else {
        let d = s.drop_last();
        assert(sorted_desc(d)) by {
            assert forall|i: int, j: int| 0 <= i < j < d.len() implies d[i].priority >= d[j].priority by {
                assert(s[i].priority >= s[j].priority);
            }
        }
        lemma_insert_desc_sorted(x, d);
        let b = s.last().priority as int;
        assert forall|i: int| 0 <= i < d.len() implies d[i].priority >= b by {
            assert(s[i].priority >= s[s.len() - 1].priority);
        }
        lemma_insert_desc_all_ge(x, d, b);
        let t = insert_desc(x, d).push(s.last());
        assert forall|i: int, j: int| 0 <= i < j < t.len() implies t[i].priority >= t[j].priority by {
            if j < t.len() - 1 {
            } else {
                assert(t[j] == s.last());
                assert(insert_desc(x, d)[i].priority >= b);
            }
        }
    }
}

/// The stable sort orders by priority, descending.
pub proof fn lemma_sort_desc_sorted(s: Seq<QueryResponse>)
    ensures
        sorted_desc(sort_desc(s)),
        sort_desc(s).len() == s.len(),
    decreases s.len(),
{
    if s.len() > 0 {
        lemma_sort_desc_sorted(s.drop_last());
        lemma_insert_desc_sorted(s.last(), sort_desc(s.drop_last()));
    }
}

/// The stable sort keeps, for every priority, exactly the elements of that
/// priority in their arrival order: equal-priority elements never swap.
pub proof fn lemma_sort_desc_stable(s: Seq<QueryResponse>, p: i64)
    ensures
        with_priority(sort_desc(s), p) == with_priority(s, p),
    decreases s.len(),
{
    if s.len() > 0 {
        let d = s.drop_last();
        lemma_sort_desc_stable(d, p);
        lemma_insert_desc_filter(s.last(), sort_desc(d), p);
        lemma_filter_push(sort_desc(d), s.last(), p);
        lemma_filter_push(d, s.last(), p);
        assert(d.push(s.last()) =~= s);
    }
}

fn insert_response(v: &mut Vec<QueryResponse>, x: QueryResponse)
    ensures
        final(v)@ == insert_desc(x, old(v)@),
{
    let ghost orig = v@;
    let mut j: usize = v.len();
    proof {
        assert(orig.take(j as int) =~= orig);
        assert(insert_desc(x, orig.take(j as int)) + orig.skip(j as int) =~= insert_desc(x, orig));
    }
    while j > 0 && v[j - 1].priority < x.priority
        invariant
            j <= v@.len(),
            v@ == orig,
            insert_desc(x, orig) == insert_desc(x, orig.take(j as int)) + orig.skip(j as int),
        decreases j,
    {
        proof {
            let t = orig.take(j as int);
            assert(t.last() == orig[j - 1]);
            assert(t.drop_last() =~= orig.take(j - 1));
            assert(insert_desc(x, t) == insert_desc(x, orig.take(j - 1)).push(orig[j - 1]));
            assert(insert_desc(x, orig.take(j - 1)).push(orig[j - 1]) + orig.skip(j as int)
                =~= insert_desc(x, orig.take(j - 1)) + orig.skip(j - 1));
        }
        j -= 1;
    }
    proof {
        let t = orig.take(j as int);
        if j == 0 {
            assert(t =~= Seq::<QueryResponse>::empty());
            assert(insert_desc(x, t) == seq![x]);
        } else {
            assert(t.last() == orig[j - 1]);
            assert(t.last().priority >= x.priority);
            assert(insert_desc(x, t) == t.push(x));
        }
        assert(insert_desc(x, t) + orig.skip(j as int) =~= orig.insert(j as int, x)) by {
            assert(orig.take(j as int) =~= orig.subrange(0, j as int));
            assert(orig.skip(j as int) =~= orig.subrange(j as int, orig.len() as int));
        }
    }
    v.insert(j, x);
}

/// The merged, consumer-facing ordering of the accumulated result list: a
/// stable sort by priority, descending.  Results of equal priority keep
/// their relative arrival order.
pub fn sort_responses(items: Vec<QueryResponse>) -> (r: Vec<QueryResponse>)
    ensures
        r@ == sort_desc(items@),
        r@.len() == items@.len(),
        sorted_desc(r@),
        forall|p: i64| #[trigger] with_priority(r@, p) == with_priority(items@, p),
{
    let ghost all = items@;
    let mut rest = items;
    let n = rest.len();
    let mut out: Vec<QueryResponse> = Vec::with_capacity(n);
    let mut k: usize = 0;
    proof {
        assert(all.len() == n);
    }
    while rest.len() > 0
        invariant
            all.len() <= usize::MAX,
            k + rest@.len() == all.len(),
            rest@ == all.skip(k as int),
            out@ == sort_desc(all.take(k as int)),
        decreases rest@.len(),
    {
        let x = rest.remove(0);
        proof {
            assert(x == all[k as int]);
            assert(rest@ =~= all.skip(k + 1));
            let t = all.take(k + 1);
            assert(t.drop_last() =~= all.take(k as int));
            assert(t.last() == all[k as int]);
        }
        insert_response(&mut out, x);
        k += 1;
    }
    proof {
        assert(all.take(k as int) =~= all);
        lemma_sort_desc_sorted(all);
        assert forall|p: i64| #[trigger] with_priority(out@, p) == with_priority(all, p) by {
            lemma_sort_desc_stable(all, p);
        }
    }
    out
}

} // verus!
