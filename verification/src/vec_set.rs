//! An insertion-ordered set backed by a vector.

use vstd::prelude::*;

verus! {

/// Items that can be compared for equality in executable code.
pub trait SetItem: Copy + Sized {
    fn same(&self, other: &Self) -> (r: bool)
        ensures
            r == (*self == *other),
    ;
}

/// The sequence `s` with later repeats of an element removed.
pub open spec fn dedup<T>(s: Seq<T>) -> Seq<T>
    decreases s.len(),
{
    if s.len() == 0 {
        Seq::empty()
    } else {
        let d = dedup(s.drop_last());
        if d.contains(s.last()) {
            d
        } else {
            d.push(s.last())
        }
    }
}

/// A sequence's elements are those before its last one, and its last one.
pub proof fn lemma_contains_drop_last<T>(s: Seq<T>, x: T)
    requires
        s.len() > 0,
    ensures
        s.contains(x) <==> (s.drop_last().contains(x) || x == s.last()),
{
    if s.contains(x) && x != s.last() {
        let i = choose|i: int| 0 <= i < s.len() && s[i] == x;
        assert(s.drop_last()[i] == x);
    }
    if s.drop_last().contains(x) {
        let j = choose|j: int| 0 <= j < s.drop_last().len() && s.drop_last()[j] == x;
        assert(s[j] == x);
    }
    if x == s.last() {
        assert(s[s.len() - 1] == x);
    }
}

/// `dedup` keeps exactly the elements of its input, once each.
pub proof fn lemma_dedup<T>(s: Seq<T>)
    ensures
        dedup(s).no_duplicates(),
        forall|x: T| dedup(s).contains(x) <==> s.contains(x),
        dedup(s).len() <= s.len(),
    decreases s.len(),
{
    broadcast use vstd::seq_lib::group_seq_properties;
    if s.len() > 0 {
        lemma_dedup(s.drop_last());
        let d = dedup(s.drop_last());
        assert forall|x: T| dedup(s).contains(x) <==> s.contains(x) by {
            lemma_contains_drop_last(s, x);
        }
    }
}

/// A sequence without repeats is its own `dedup`.
pub proof fn lemma_dedup_no_duplicates<T>(s: Seq<T>)
    requires
        s.no_duplicates(),
    ensures
        dedup(s) == s,
    decreases s.len(),
{
    if s.len() > 0 {
        lemma_dedup_no_duplicates(s.drop_last());
        assert(!s.drop_last().contains(s.last())) by {
            if s.drop_last().contains(s.last()) {
                let j = choose|j: int| 0 <= j < s.drop_last().len() && s.drop_last()[j] == s.last();
                assert(s[j] == s[s.len() - 1]);
            }
        }
        assert(s.drop_last().push(s.last()) =~= s);
    }
}

/// A collection of distinct items that remembers the order in which they
/// were first added.
#[derive(Debug)]
pub struct VecSet<T> {
    vec: Vec<T>,
}

impl<T> View for VecSet<T> {
    type V = Seq<T>;

    closed spec fn view(&self) -> Seq<T> {
        self.vec@
    }
}

impl<T: SetItem> VecSet<T> {
    pub fn new() -> (r: VecSet<T>)
        ensures
            r@ == Seq::<T>::empty(),
    {
        VecSet { vec: Vec::new() }
    }

    /// A set holding one item.
    pub fn with_first(item: T) -> (r: VecSet<T>)
        ensures
            r@ == seq![item],
    {
        let mut vec = Vec::new();
        vec.push(item);
        VecSet { vec }
    }

    pub fn len(&self) -> (r: usize)
        ensures
            r == self@.len(),
    {
        self.vec.len()
    }

    pub fn is_empty(&self) -> (r: bool)
        ensures
            r == (self@.len() == 0),
    {
        self.vec.len() == 0
    }

    pub fn contains(&self, item: &T) -> (r: bool)
        ensures
            r == self@.contains(*item),
    {
        let mut i: usize = 0;
        while i < self.vec.len()
            invariant
                i <= self.vec@.len(),
                forall|j: int| 0 <= j < i ==> self.vec@[j] != *item,
            decreases self.vec@.len() - i,
        {
            if self.vec[i].same(item) {
                return true;
            }
            i = i + 1;
        }
        false
    }

    /// Adds `item` at the end unless it is already present.
    pub fn insert(&mut self, item: T)
        ensures
            old(self)@.contains(item) ==> final(self)@ == old(self)@,
            !old(self)@.contains(item) ==> final(self)@ == old(self)@.push(item),
            old(self)@.no_duplicates() ==> final(self)@.no_duplicates(),
    {
        if !self.contains(&item) {
            self.vec.push(item);
        }
    }

    /// Removes every occurrence of `item`.
    pub fn remove(&mut self, item: &T)
        ensures
            final(self)@ == old(self)@.filter(|x: T| x != *item),
            old(self)@.no_duplicates() ==> final(self)@.no_duplicates(),
    {
        let ghost old_seq = self.vec@;
        let mut kept: Vec<T> = Vec::new();
        let mut i: usize = 0;
        while i < self.vec.len()
            invariant
                i <= self.vec@.len(),
                self.vec@ == old_seq,
                kept@ == old_seq.take(i as int).filter(|x: T| x != *item),
            decreases self.vec@.len() - i,
        {
            let x = self.vec[i];
            proof {
                old_seq.take(i as int).lemma_filter_push(x, |x: T| x != *item);
                assert(old_seq.take(i as int).push(x) =~= old_seq.take(i + 1));
            }
            if !x.same(item) {
                kept.push(x);
            }
            i = i + 1;
        }
        assert(old_seq.take(old_seq.len() as int) =~= old_seq);
        proof {
            if old_seq.no_duplicates() {
                lemma_filter_no_duplicates(old_seq, |x: T| x != *item);
            }
        }
        self.vec = kept;
    }

    /// The items in insertion order.
    pub fn as_vec(&self) -> (r: &Vec<T>)
        ensures
            r@ == self@,
    {
        &self.vec
    }

    /// Whether the two sets hold the same items in the same order.
    pub fn same_as(&self, other: &VecSet<T>) -> (r: bool)
        ensures
            r == (self@ == other@),
    {
        if self.vec.len() != other.vec.len() {
            return false;
        }
        let mut i: usize = 0;
        while i < self.vec.len()
            invariant
                i <= self.vec@.len(),
                self.vec@.len() == other.vec@.len(),
                forall|j: int| 0 <= j < i ==> self.vec@[j] == other.vec@[j],
            decreases self.vec@.len() - i,
        {
            if !self.vec[i].same(&other.vec[i]) {
                return false;
            }
            i = i + 1;
        }
        assert(self.vec@ =~= other.vec@);
        true
    }

    /// A copy of the set.
    pub fn duplicate(&self) -> (r: VecSet<T>)
        ensures
            r@ == self@,
    {
        let mut vec: Vec<T> = Vec::new();
        let mut i: usize = 0;
        while i < self.vec.len()
            invariant
                i <= self.vec@.len(),
                vec@ =~= self.vec@.take(i as int),
            decreases self.vec@.len() - i,
        {
            vec.push(self.vec[i]);
            i = i + 1;
        }
        VecSet { vec }
    }

    /// Collects `vec`, keeping the first occurrence of each item.
    pub fn from_vec(vec: Vec<T>) -> (r: VecSet<T>)
        ensures
            r@ == dedup(vec@),
            r@.no_duplicates(),
    {
        let mut out = VecSet::new();
        let mut i: usize = 0;
        while i < vec.len()
            invariant
                i <= vec@.len(),
                out@ == dedup(vec@.take(i as int)),
            decreases vec@.len() - i,
        {
            assert(vec@.take(i + 1).drop_last() =~= vec@.take(i as int));
            out.insert(vec[i]);
            i = i + 1;
        }
        assert(vec@.take(vec@.len() as int) =~= vec@);
        proof {
            lemma_dedup(vec@);
        }
        out
    }
}

/// Filtering keeps a sequence free of repeats.
pub proof fn lemma_filter_no_duplicates<T>(s: Seq<T>, p: spec_fn(T) -> bool)
    requires
        s.no_duplicates(),
    ensures
        s.filter(p).no_duplicates(),
    decreases s.len(),
{
    broadcast use vstd::seq_lib::group_seq_properties;
    if s.len() > 0 {
        lemma_filter_no_duplicates(s.drop_last(), p);
        s.drop_last().lemma_filter_push(s.last(), p);
        assert(s.drop_last().push(s.last()) =~= s);
        if p(s.last()) {
            assert(!s.drop_last().filter(p).contains(s.last())) by {
                if s.drop_last().filter(p).contains(s.last()) {
                    s.drop_last().lemma_filter_contains_rev(p, s.last());
                    let j = choose|j: int| 0 <= j < s.drop_last().len() && s.drop_last()[j] == s.last();
                    assert(s[j] == s[s.len() - 1]);
                }
            }
        }
    }
}

/// What a set holds after an insertion or a removal: an inserted item is
/// held and a removed one is not, and every other item is held after either
/// exactly when it was held before.
pub proof fn lemma_insert_remove_membership<T>(s: Seq<T>, item: T, other: T)
    requires
        other != item,
    ensures
        (if s.contains(item) { s } else { s.push(item) }).contains(item),
        !s.filter(|x: T| x != item).contains(item),
        (if s.contains(item) { s } else { s.push(item) }).contains(other) <==> s.contains(other),
        s.filter(|x: T| x != item).contains(other) <==> s.contains(other),
{
    broadcast use vstd::seq_lib::group_seq_properties;
    let keep = |x: T| x != item;
    if !s.contains(item) {
        assert(s.push(item)[s.len() as int] == item);
    }
    if s.filter(keep).contains(other) {
        s.lemma_filter_contains_rev(keep, other);
    }
    if s.contains(other) {
        let i = choose|i: int| 0 <= i < s.len() && s[i] == other;
        s.lemma_filter_contains(keep, i);
    }
    if s.filter(keep).contains(item) {
        let j = choose|j: int| 0 <= j < s.filter(keep).len() && s.filter(keep)[j] == item;
        s.lemma_filter_pred(keep, j);
    }
}

} // verus!
