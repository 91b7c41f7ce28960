//! Stable sorting of keyed items.

use vstd::prelude::*;

verus! {

/// A sort key: compared by its first part, then by its second.
pub type SortKey = (u64, u64);

pub open spec fn key_le(a: SortKey, b: SortKey) -> bool {
    a.0 < b.0 || (a.0 == b.0 && a.1 <= b.1)
}

/// Where a stable sort puts an item with key `k` among `s`: before the first
/// item whose key is greater than `k`.
pub open spec fn insert_pos<T>(s: Seq<(SortKey, T)>, k: SortKey) -> int
    decreases s.len(),
{
    if s.len() == 0 {
        0
    } else if key_le(s[0].0, k) {
        1 + insert_pos(s.drop_first(), k)
    } else {
        0
    }
}

/// The stable insertion sort of `s` by key, in increasing order.
pub open spec fn stable_sort<T>(s: Seq<(SortKey, T)>) -> Seq<(SortKey, T)>
    decreases s.len(),
{
    if s.len() == 0 {
        Seq::empty()
    } else {
        let sorted = stable_sort(s.drop_last());
        sorted.insert(insert_pos(sorted, s.last().0), s.last())
    }
}

proof fn lemma_insert_pos<T>(s: Seq<(SortKey, T)>, k: SortKey, p: int)
    requires
        0 <= p <= s.len(),
        forall|j: int| 0 <= j < p ==> key_le(#[trigger] s[j].0, k),
        p == s.len() || !key_le(s[p].0, k),
    ensures
        insert_pos(s, k) == p,
    decreases s.len(),
{
    if s.len() > 0 && p > 0 {
        assert forall|j: int| 0 <= j < p - 1 implies key_le(#[trigger] s.drop_first()[j].0, k) by {
            assert(s.drop_first()[j] == s[j + 1]);
        }
        lemma_insert_pos(s.drop_first(), k, p - 1);
    }
}

proof fn lemma_insert_pos_bound<T>(s: Seq<(SortKey, T)>, k: SortKey)
    ensures
        0 <= insert_pos(s, k) <= s.len(),
    decreases s.len(),
{
    if s.len() > 0 {
        lemma_insert_pos_bound(s.drop_first(), k);
    }
}

fn key_le_exec(a: SortKey, b: SortKey) -> (r: bool)
    ensures
        r == key_le(a, b),
{
    a.0 < b.0 || (a.0 == b.0 && a.1 <= b.1)
}

/// Sorts `items` by key, keeping items with equal keys in their order.
pub fn sort_by_key<T>(items: Vec<(SortKey, T)>) -> (r: Vec<(SortKey, T)>)
    ensures
        r@ == stable_sort(items@),
{
    let ghost original = items@;
    let mut rest = items;
    let mut out: Vec<(SortKey, T)> = Vec::new();
    let mut i: usize = 0;
    let n = rest.len();
    while rest.len() > 0
        invariant
            n == original.len(),
            i + rest@.len() == n,
            rest@ == original.skip(i as int),
            out@ == stable_sort(original.take(i as int)),
        decreases rest@.len(),
    {
        let item = rest.remove(0);
        let k = item.0;
        let mut p: usize = 0;
        while p < out.len() && key_le_exec(out[p].0, k)
            invariant
                p <= out@.len(),
                forall|j: int| 0 <= j < p ==> key_le(#[trigger] out@[j].0, k),
            decreases out@.len() - p,
        {
            p = p + 1;
        }
        proof {
            lemma_insert_pos(out@, k, p as int);
            assert(original.take(i + 1).drop_last() =~= original.take(i as int));
            assert(original.take(i + 1).last() == item);
        }
        out.insert(p, item);
        i = i + 1;
        proof {
            assert(rest@ =~= original.skip(i as int));
        }
    }
    assert(original.take(n as int) =~= original);
    out
}


/// Where `insert_pos` puts `k` in `s`: after the leading items whose keys are
/// at most `k`, before the first one whose key is above it.
proof fn lemma_insert_pos_props<T>(s: Seq<(SortKey, T)>, k: SortKey)
    ensures
        0 <= insert_pos(s, k) <= s.len(),
        forall|j: int| 0 <= j < insert_pos(s, k) ==> key_le(#[trigger] s[j].0, k),
        insert_pos(s, k) < s.len() ==> !key_le(s[insert_pos(s, k)].0, k),
    decreases s.len(),
{
    if s.len() > 0 && key_le(s[0].0, k) {
        lemma_insert_pos_props(s.drop_first(), k);
        assert forall|j: int| 0 <= j < insert_pos(s, k) implies key_le(#[trigger] s[j].0, k) by {
            if j > 0 {
                assert(s[j] == s.drop_first()[j - 1]);
            }
        }
        if insert_pos(s, k) < s.len() {
            assert(s[insert_pos(s, k)] == s.drop_first()[insert_pos(s, k) - 1]);
        }
    }
}

/// Sorting orders the items by key, smallest first.
pub proof fn lemma_stable_sort_ordered<T>(s: Seq<(SortKey, T)>)
    ensures
        forall|i: int, j: int|
            0 <= i < j < stable_sort(s).len() ==> key_le(#[trigger] stable_sort(s)[i].0, #[trigger] stable_sort(s)[j].0),
    decreases s.len(),
{
    if s.len() > 0 {
        let sorted = stable_sort(s.drop_last());
        let k = s.last().0;
        let p = insert_pos(sorted, k);
        lemma_stable_sort_ordered(s.drop_last());
        lemma_insert_pos_props(sorted, k);
        let ins = sorted.insert(p, s.last());
        assert(stable_sort(s) == ins);
        assert forall|i: int, j: int| 0 <= i < j < ins.len() implies key_le(#[trigger] ins[i].0, #[trigger] ins[j].0) by {
            if j < p {
                assert(ins[i] == sorted[i] && ins[j] == sorted[j]);
            } else if j == p {
                assert(ins[i] == sorted[i]);
            } else if i < p {
                assert(ins[i] == sorted[i] && ins[j] == sorted[j - 1]);
                assert(key_le(sorted[i].0, sorted[j - 1].0));
            } else if i == p {
                assert(ins[j] == sorted[j - 1]);
                assert(!key_le(sorted[p].0, k));
                if j - 1 > p {
                    assert(key_le(sorted[p].0, sorted[j - 1].0));
                }
            } else {
                assert(ins[i] == sorted[i - 1] && ins[j] == sorted[j - 1]);
                assert(key_le(sorted[i - 1].0, sorted[j - 1].0));
            }
        }
    }
}

/// Sorting keeps the items: as many, and the same ones.
pub proof fn lemma_stable_sort_items<T>(s: Seq<(SortKey, T)>)
    ensures
        stable_sort(s).len() == s.len(),
        forall|x: (SortKey, T)| stable_sort(s).contains(x) <==> s.contains(x),
    decreases s.len(),
{
    if s.len() > 0 {
        lemma_stable_sort_items(s.drop_last());
        let sorted = stable_sort(s.drop_last());
        let p = insert_pos(sorted, s.last().0);
        lemma_insert_pos_bound(sorted, s.last().0);
        assert forall|x: (SortKey, T)| stable_sort(s).contains(x) <==> s.contains(x) by {
            let ins = sorted.insert(p, s.last());
            if ins.contains(x) {
                let i = choose|i: int| 0 <= i < ins.len() && ins[i] == x;
                if i < p {
                    assert(sorted[i] == x);
                    assert(sorted.contains(x));
                } else if i > p {
                    assert(sorted[i - 1] == x);
                    assert(sorted.contains(x));
                }
                if x != s.last() {
                    assert(s.drop_last().contains(x));
                    let j = choose|j: int| 0 <= j < s.drop_last().len() && s.drop_last()[j] == x;
                    assert(s[j] == x);
                } else {
                    assert(s[s.len() - 1] == x);
                }
            }
            if s.contains(x) {
                let j = choose|j: int| 0 <= j < s.len() && s[j] == x;
                if j == s.len() - 1 {
                    assert(ins[p] == x);
                } else {
                    assert(s.drop_last()[j] == x);
                    assert(s.drop_last().contains(x));
                    assert(sorted.contains(x));
                    let k = choose|k: int| 0 <= k < sorted.len() && sorted[k] == x;
                    if k < p {
                        assert(ins[k] == x);
                    } else {
                        assert(ins[k + 1] == x);
                    }
                }
            }
        }
    }
}

} // verus!
