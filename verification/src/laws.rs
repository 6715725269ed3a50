use vstd::prelude::*;

use crate::likes::{batch_misses, cached_hits, cached_misses, BatchCounts, BatchItem};

verus! {

/// Every item of a batch of `n` items is either counted from the cache or
/// left for the database, never both and never neither: the hits and the
/// positions left are `n` in all, the positions left are in increasing
/// order (so none twice), each one names an item whose count the cache did
/// not give, and every such item is among them.
pub proof fn lemma_batch_split_partitions(items: Seq<BatchItem>, cached: Seq<Option<i64>>, n: int)
    requires
        cached.len() <= n <= usize::MAX,
    ensures
        cached_hits(items, cached).len() + batch_misses(cached, n).len() == n,
        forall|k: int, l: int| 0 <= k < l < batch_misses(cached, n).len()
            ==> #[trigger] batch_misses(cached, n)[k] < #[trigger] batch_misses(cached, n)[l],
        forall|k: int| 0 <= k < batch_misses(cached, n).len() ==> {
            let i = #[trigger] batch_misses(cached, n)[k] as int;
            0 <= i < n && (i >= cached.len() || cached[i] is None)
        },
        forall|i: int| 0 <= i < n && (i >= cached.len() || cached[i] is None)
            ==> batch_misses(cached, n).contains(i as usize),
{
    lemma_answered_misses(items, cached);
    let m = cached_misses(cached);
    let b = batch_misses(cached, n);
    let tail = Seq::new((n - cached.len()) as nat, |k: int| (cached.len() + k) as usize);
    assert(b == m + tail);
    assert forall|k: int, l: int| 0 <= k < l < b.len() implies #[trigger] b[k] < #[trigger] b[l] by {
        if l < m.len() {
            assert(b[k] == m[k] && b[l] == m[l]);
        } else if k < m.len() {
            assert(b[k] == m[k]);
            assert(b[l] == tail[l - m.len()]);
        } else {
            assert(b[k] == tail[k - m.len()] && b[l] == tail[l - m.len()]);
        }
    }
    assert forall|k: int| 0 <= k < b.len() implies {
        let i = #[trigger] b[k] as int;
        0 <= i < n && (i >= cached.len() || cached[i] is None)
    } by {
        if k < m.len() {
            assert(b[k] == m[k]);
        } else {
            assert(b[k] == tail[k - m.len()]);
        }
    }
    assert forall|i: int| 0 <= i < n && (i >= cached.len() || cached[i] is None)
        implies b.contains(i as usize) by {
        if i < cached.len() {
            let k = choose|k: int| 0 <= k < m.len() && m[k] == i as usize;
            assert(b[k] == m[k]);
        } else {
            let k = i - cached.len();
            assert(b[m.len() + k] == tail[k]);
        }
    }
}

/// A batch counting that has counted every pending position holds exactly
/// one count per item of the batch: those the cache gave, then one for
/// each item left for the database, each naming that item.
pub proof fn lemma_finished_counting_covers_batch(c: BatchCounts, items: Seq<BatchItem>)
    requires
        c.tracks(items),
        c@.2 == c@.1.len(),
    ensures
        c@.0.len() == items.len(),
        forall|k: int| 0 <= k < c@.1.len() ==> {
            let item = items[#[trigger] c@.1[k] as int];
            c@.0[c@.3 + k].0 == item.content_type@ && c@.0[c@.3 + k].1 == item.content_id@
        },
{
}

/// Of the answered positions: hits and misses together are all the
/// answers, the misses increase, each names an empty answer, and every
/// empty answer is among them.
proof fn lemma_answered_misses(items: Seq<BatchItem>, cached: Seq<Option<i64>>)
    requires
        cached.len() <= usize::MAX,
    ensures
        cached_hits(items, cached).len() + cached_misses(cached).len() == cached.len(),
        forall|k: int, l: int| 0 <= k < l < cached_misses(cached).len()
            ==> #[trigger] cached_misses(cached)[k] < #[trigger] cached_misses(cached)[l],
        forall|k: int| 0 <= k < cached_misses(cached).len()
            ==> 0 <= #[trigger] cached_misses(cached)[k] < cached.len()
                && cached[cached_misses(cached)[k] as int] is None,
        forall|i: int| 0 <= i < cached.len() && cached[i] is None
            ==> exists|k: int| 0 <= k < cached_misses(cached).len() && cached_misses(cached)[k] == i as usize,
    decreases cached.len(),
{
    if cached.len() > 0 {
        let prev = cached.drop_last();
        lemma_answered_misses(items, prev);
        let m = cached_misses(prev);
        let last = (cached.len() - 1) as usize;
        if cached.last() is None {
            assert(cached_misses(cached) == m.push(last));
        } else {
            assert(cached_misses(cached) == m);
        }
        let c = cached_misses(cached);
        assert(c.len() > m.len() ==> cached.last() is None);
        assert forall|k: int| 0 <= k < c.len()
            implies 0 <= #[trigger] c[k] < cached.len() && cached[c[k] as int] is None by {
            if k < m.len() {
                assert(c[k] == m[k]);
                assert(0 <= m[k] < prev.len() && prev[m[k] as int] is None);
                assert(cached[m[k] as int] == prev[m[k] as int]);
            } else {
                assert(cached.last() is None);
                assert(c[k] == last);
                assert(cached[last as int] == cached.last());
            }
        }
        assert forall|k: int, l: int| 0 <= k < l < c.len() implies #[trigger] c[k] < #[trigger] c[l] by {
            assert(c[k] == m[k]);
            if l < m.len() {
                assert(c[l] == m[l]);
            } else {
                assert(c[l] == last);
                assert(m[k] < prev.len());
            }
        }
        assert forall|i: int| 0 <= i < cached.len() && cached[i] is None
            implies exists|k: int| 0 <= k < c.len() && c[k] == i as usize by {
            if i < prev.len() {
                assert(prev[i] == cached[i]);
                let k = choose|k: int| 0 <= k < m.len() && m[k] == i as usize;
                assert(c[k] == m[k]);
            } else {
                assert(cached.last() is None);
                assert(c[m.len() as int] == last);
            }
        }
    }
}

} // verus!
