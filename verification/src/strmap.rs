//! A string-keyed map that keeps its entries in insertion order.

use vstd::prelude::*;

verus! {

/// A map from strings to values. Each key occurs at most once; entries keep
/// the order in which their keys were first inserted.
#[derive(Clone, Debug)]
pub struct StrMap<V> {
    entries: Vec<(String, V)>,
}

/// Number of indices below `n` whose value satisfies `p`.
pub open spec fn count_prefix<V>(vals: Seq<V>, n: int, p: spec_fn(V) -> bool) -> nat
    decreases n,
{
    if n <= 0 {
        0
    } else if p(vals[n - 1]) {
        count_prefix(vals, n - 1, p) + 1
    } else {
        count_prefix(vals, n - 1, p)
    }
}

/// Number of keys of `m` whose value satisfies `p`.
pub open spec fn count_where<V>(m: Map<Seq<char>, V>, p: spec_fn(V) -> bool) -> nat {
    m.dom().filter(|k: Seq<char>| p(m[k])).len()
}

impl<V> StrMap<V> {
    /// Number of entries.
    pub closed spec fn size(self) -> nat {
        self.entries@.len()
    }

    /// Key of the entry at position `i`.
    pub closed spec fn key(self, i: int) -> Seq<char> {
        self.entries@[i].0@
    }

    /// Value of the entry at position `i`.
    pub closed spec fn value(self, i: int) -> V {
        self.entries@[i].1
    }

    /// Values in entry order.
    pub open spec fn values(self) -> Seq<V> {
        Seq::new(self.size(), |i: int| self.value(i))
    }

    /// Keys in entry order.
    pub open spec fn keys(self) -> Seq<Seq<char>> {
        Seq::new(self.size(), |i: int| self.key(i))
    }

    /// No key occurs twice.
    pub open spec fn wf(self) -> bool {
        forall|i: int, j: int| 0 <= i < j < self.size() ==> #[trigger] self.key(i) != #[trigger] self.key(j)
    }

    pub open spec fn has_key(self, k: Seq<char>) -> bool {
        exists|i: int| 0 <= i < self.size() && self.key(i) == k
    }

    pub open spec fn index_of(self, k: Seq<char>) -> int {
        choose|i: int| 0 <= i < self.size() && self.key(i) == k
    }

    /// The map from keys to values.
    pub open spec fn view(&self) -> Map<Seq<char>, V> {
        Map::new(|k: Seq<char>| self.has_key(k), |k: Seq<char>| self.value(self.index_of(k)))
    }

    /// The entry at position `i` is what the map holds for its key.
    pub proof fn lemma_view_at(self, i: int)
        requires
            self.wf(),
            0 <= i < self.size(),
        ensures
            self@.contains_key(self.key(i)),
            self@[self.key(i)] == self.value(i),
            self.index_of(self.key(i)) == i,
    {
        assert(self.has_key(self.key(i)));
        let j = self.index_of(self.key(i));
        if j != i {
            if j < i {
                assert(self.key(j) != self.key(i));
            } else {
                assert(self.key(i) != self.key(j));
            }
        }
    }

    /// The domain is the set of keys, and has as many elements as entries.
    pub proof fn lemma_len(self)
        requires
            self.wf(),
        ensures
            self@.dom() == self.keys().to_set(),
            self@.dom().finite(),
            self@.dom().len() == self.size(),
            self@.len() == self.size(),
    {
        let ks = self.keys();
        assert forall|k: Seq<char>| self@.dom().contains(k) <==> ks.to_set().contains(k) by {
            if self@.dom().contains(k) {
                let i = self.index_of(k);
                assert(ks[i] == k);
            }
            if ks.to_set().contains(k) {
                let i = choose|i: int| 0 <= i < ks.len() && ks[i] == k;
                assert(self.key(i) == k);
            }
        }
        assert(self@.dom() =~= ks.to_set());
        assert(ks.no_duplicates()) by {
            assert forall|i: int, j: int| 0 <= i < ks.len() && 0 <= j < ks.len() && i != j implies ks[i] != ks[j] by {
                if i < j {
                    assert(self.key(i) != self.key(j));
                } else {
                    assert(self.key(j) != self.key(i));
                }
            }
        }
        ks.unique_seq_to_set();
    }

    /// Counting values by position agrees with counting keys of the map.
    pub proof fn lemma_count(self, p: spec_fn(V) -> bool)
        requires
            self.wf(),
        ensures
            count_prefix(self.values(), self.size() as int, p) == count_where(self@, p),
    {
        self.lemma_count_prefix(p, self.size() as int);
        self.lemma_len();
        let s = Set::new(|k: Seq<char>| exists|i: int| 0 <= i < self.size() && self.key(i) == k && p(self.value(i)));
        assert(s =~= self@.dom().filter(|k: Seq<char>| p(self@[k]))) by {
            assert forall|k: Seq<char>| s.contains(k) <==> self@.dom().filter(|k: Seq<char>| p(self@[k])).contains(k) by {
                if s.contains(k) {
                    let i = choose|i: int| 0 <= i < self.size() && self.key(i) == k && p(self.value(i));
                    self.lemma_view_at(i);
                }
                if self@.dom().filter(|k: Seq<char>| p(self@[k])).contains(k) {
                    let i = self.index_of(k);
                    self.lemma_view_at(i);
                }
            }
        }
    }

    proof fn lemma_count_prefix(self, p: spec_fn(V) -> bool, n: int)
        requires
            self.wf(),
            0 <= n <= self.size(),
        ensures
            ({
                let s = Set::new(|k: Seq<char>| exists|i: int| 0 <= i < n && self.key(i) == k && p(self.value(i)));
                s.finite() && s.len() == count_prefix(self.values(), n, p)
            }),
        decreases n,
    {
        let s = Set::new(|k: Seq<char>| exists|i: int| 0 <= i < n && self.key(i) == k && p(self.value(i)));
        if n == 0 {
            assert(s =~= Set::empty());
        } else {
            self.lemma_count_prefix(p, n - 1);
            let t = Set::new(|k: Seq<char>| exists|i: int| 0 <= i < n - 1 && self.key(i) == k && p(self.value(i)));
            let last = self.key(n - 1);
            assert(!t.contains(last)) by {
                if t.contains(last) {
                    let i = choose|i: int| 0 <= i < n - 1 && self.key(i) == last && p(self.value(i));
                    assert(self.key(i) != self.key(n - 1));
                }
            }
            assert(self.values()[n - 1] == self.value(n - 1));
            if p(self.value(n - 1)) {
                assert(s =~= t.insert(last));
            } else {
                assert(s =~= t) by {
                    assert forall|k: Seq<char>| s.contains(k) implies t.contains(k) by {
                        let i = choose|i: int| 0 <= i < n && self.key(i) == k && p(self.value(i));
                        assert(i != n - 1);
                    }
                }
            }
        }
    }

    pub fn new() -> (m: Self)
        ensures
            m.wf(),
            m.size() == 0,
            m@ == Map::<Seq<char>, V>::empty(),
    {
        let m = StrMap { entries: Vec::new() };
        assert(m@ =~= Map::<Seq<char>, V>::empty());
        m
    }

    pub fn is_empty(&self) -> (b: bool)
        ensures
            b == (self.size() == 0),
            self.wf() ==> (b == (self@ == Map::<Seq<char>, V>::empty())),
    {
        proof {
            if self.wf() {
                self.lemma_len();
                if self@ == Map::<Seq<char>, V>::empty() {
                    assert(self@.dom().len() == 0);
                }
                if self.size() == 0 {
                    assert(self@ =~= Map::<Seq<char>, V>::empty());
                }
            }
        }
        self.entries.len() == 0
    }

    pub fn len(&self) -> (n: usize)
        ensures
            n == self.size(),
            self.wf() ==> n == self@.len(),
    {
        proof {
            if self.wf() {
                self.lemma_len();
            }
        }
        self.entries.len()
    }

    /// The key at position `i`.
    pub fn key_at(&self, i: usize) -> (k: &String)
        requires
            i < self.size(),
        ensures
            k@ == self.key(i as int),
    {
        &self.entries[i].0
    }

    /// The value at position `i`.
    pub fn value_at(&self, i: usize) -> (v: &V)
        requires
            i < self.size(),
        ensures
            *v == self.value(i as int),
    {
        &self.entries[i].1
    }

    /// Position of the entry with key `k`, if any.
    pub fn find(&self, k: &str) -> (r: Option<usize>)
        requires
            self.wf(),
        ensures
            match r {
                Some(i) => i < self.size() && self.key(i as int) == k@ && self@.contains_key(k@)
                    && self@[k@] == self.value(i as int),
                None => !self@.contains_key(k@),
            },
    {
        let key = k.to_owned();
        let mut i: usize = 0;
        while i < self.entries.len()
            invariant
                self.wf(),
                0 <= i <= self.size(),
                key@ == k@,
                forall|j: int| 0 <= j < i ==> self.key(j) != k@,
            decreases self.size() - i,
        {
            if self.entries[i].0 == key {
                proof {
                    self.lemma_view_at(i as int);
                }
                return Some(i);
            }
            i = i + 1;
        }
        None
    }

    pub fn contains_key(&self, k: &str) -> (b: bool)
        requires
            self.wf(),
        ensures
            b == self@.contains_key(k@),
    {
        self.find(k).is_some()
    }

    pub fn get(&self, k: &str) -> (r: Option<&V>)
        requires
            self.wf(),
        ensures
            match r {
                Some(v) => self@.contains_key(k@) && *v == self@[k@],
                None => !self@.contains_key(k@),
            },
    {
        match self.find(k) {
            Some(i) => Some(&self.entries[i].1),
            None => None,
        }
    }

    /// Replaces the value at position `i`.
    pub fn set_value_at(&mut self, i: usize, v: V)
        requires
            old(self).wf(),
            i < old(self).size(),
        ensures
            final(self).wf(),
            final(self).size() == old(self).size(),
            final(self).keys() == old(self).keys(),
            final(self).values() == old(self).values().update(i as int, v),
            final(self)@ == old(self)@.insert(old(self).key(i as int), v),
    {
        let _ = self.replace_value_at(i, v);
    }

    /// Replaces the value at position `i` and hands back the value it held.
    pub fn replace_value_at(&mut self, i: usize, v: V) -> (prev: V)
        requires
            old(self).wf(),
            i < old(self).size(),
        ensures
            prev == old(self).value(i as int),
            final(self).wf(),
            final(self).size() == old(self).size(),
            final(self).keys() == old(self).keys(),
            final(self).values() == old(self).values().update(i as int, v),
            final(self)@ == old(self)@.insert(old(self).key(i as int), v),
    {
        let ghost pre = *self;
        let k = self.entries[i].0.clone();
        let mut pair = (k, v);
        self.entries.set_and_swap(i, &mut pair);
        proof {
            let post = *self;
            assert forall|a: int, b: int| 0 <= a < b < post.size() implies #[trigger] post.key(a) != #[trigger] post.key(b) by {
                assert(pre.key(a) != pre.key(b));
            }
            assert(post.keys() =~= pre.keys());
            assert(post.values() =~= pre.values().update(i as int, v));
            assert forall|kk: Seq<char>| #[trigger] post@.contains_key(kk) <==> pre@.insert(pre.key(i as int), v).contains_key(kk) by {
                if post@.contains_key(kk) {
                    let j = post.index_of(kk);
                    assert(pre.key(j) == kk);
                }
                if pre@.contains_key(kk) {
                    let j = pre.index_of(kk);
                    assert(post.key(j) == kk);
                }
                if kk == pre.key(i as int) {
                    assert(post.key(i as int) == kk);
                }
            }
            assert forall|kk: Seq<char>| post@.contains_key(kk) implies post@[kk] == pre@.insert(pre.key(i as int), v)[kk] by {
                let j = post.index_of(kk);
                post.lemma_view_at(j);
                if j != i {
                    pre.lemma_view_at(j);
                }
            }
            assert(post@ =~= pre@.insert(pre.key(i as int), v));
        }
        pair.1
    }

    /// Removes the entry with key `k`, if any; the others keep their order.
    pub fn remove(&mut self, k: &str)
        requires
            old(self).wf(),
        ensures
            final(self).wf(),
            final(self)@ == old(self)@.remove(k@),
            old(self)@.contains_key(k@) ==> final(self).size() == old(self).size() - 1
                && final(self).keys() == old(self).keys().remove(old(self).index_of(k@))
                && final(self).values() == old(self).values().remove(old(self).index_of(k@)),
            !old(self)@.contains_key(k@) ==> *final(self) == *old(self),
    {
        match self.find(k) {
            Some(i) => {
                let ghost pre = *self;
                proof {
                    pre.lemma_view_at(i as int);
                }
                self.entries.remove(i);
                proof {
                    let post = *self;
                    let n = pre.size() as int;
                    assert forall|j: int| 0 <= j < post.size() implies #[trigger] post.key(j) == pre.key(if j < i { j } else { j + 1 }) && post.value(j) == pre.value(if j < i { j } else { j + 1 }) by {
                    }
                    assert forall|a: int, b: int| 0 <= a < b < post.size() implies #[trigger] post.key(a) != #[trigger] post.key(b) by {
                        let a2 = if a < i { a } else { a + 1 };
                        let b2 = if b < i { b } else { b + 1 };
                        assert(post.key(a) == pre.key(a2));
                        assert(post.key(b) == pre.key(b2));
                        assert(pre.key(a2) != pre.key(b2));
                    }
                    assert(post.keys() =~= pre.keys().remove(i as int));
                    assert(post.values() =~= pre.values().remove(i as int));
                    assert forall|kk: Seq<char>| #[trigger] post@.contains_key(kk) <==> pre@.remove(k@).contains_key(kk) by {
                        if post@.contains_key(kk) {
                            let j = post.index_of(kk);
                            let j2 = if j < i { j } else { j + 1 };
                            assert(post.key(j) == pre.key(j2));
                            assert(pre.has_key(kk));
                            if kk == k@ {
                                assert(pre.key(j2) != pre.key(i as int));
                            }
                        }
                        if pre@.remove(k@).contains_key(kk) {
                            let j = pre.index_of(kk);
                            assert(j != i);
                            let j2 = if j < i { j } else { j - 1 };
                            assert(post.key(j2) == pre.key(j));
                        }
                    }
                    assert forall|kk: Seq<char>| post@.contains_key(kk) implies post@[kk] == pre@.remove(k@)[kk] by {
                        let j = post.index_of(kk);
                        let j2 = if j < i { j } else { j + 1 };
                        post.lemma_view_at(j);
                        assert(post.key(j) == pre.key(j2));
                        pre.lemma_view_at(j2);
                    }
                    assert(post@ =~= pre@.remove(k@));
                }
            },
            None => {
                proof {
                    assert(self@ =~= self@.remove(k@));
                }
            },
        }
    }

    /// Sets the value for key `k`, adding a new entry at the end when the
    /// key is not present yet.
    pub fn insert(&mut self, k: &str, v: V)
        requires
            old(self).wf(),
        ensures
            final(self).wf(),
            final(self)@ == old(self)@.insert(k@, v),
            old(self)@.contains_key(k@) ==> final(self).size() == old(self).size()
                && final(self).keys() == old(self).keys()
                && final(self).values() == old(self).values().update(old(self).index_of(k@), v),
            !old(self)@.contains_key(k@) ==> final(self).size() == old(self).size() + 1
                && final(self).keys() == old(self).keys().push(k@)
                && final(self).values() == old(self).values().push(v),
    {
        match self.find(k) {
            Some(i) => {
                proof {
                    self.lemma_view_at(i as int);
                }
                self.set_value_at(i, v);
            },
            None => {
                let ghost pre = *self;
                let key = k.to_owned();
                self.entries.push((key, v));
                proof {
                    let post = *self;
                    let n = pre.size() as int;
                    assert(post.key(n) == k@);
                    assert forall|a: int, b: int| 0 <= a < b < post.size() implies #[trigger] post.key(a) != #[trigger] post.key(b) by {
                        if b < n {
                            assert(pre.key(a) != pre.key(b));
                        } else {
                            assert(pre.key(a) == post.key(a));
                            assert(!pre.has_key(k@));
                        }
                    }
                    assert(post.keys() =~= pre.keys().push(k@));
                    assert(post.values() =~= pre.values().push(v));
                    assert forall|kk: Seq<char>| #[trigger] post@.contains_key(kk) <==> pre@.insert(k@, v).contains_key(kk) by {
                        if post@.contains_key(kk) {
                            let j = post.index_of(kk);
                            if j < n {
                                assert(pre.key(j) == kk);
                            }
                        }
                        if pre@.contains_key(kk) {
                            let j = pre.index_of(kk);
                            assert(post.key(j) == kk);
                        }
                    }
                    assert forall|kk: Seq<char>| post@.contains_key(kk) implies post@[kk] == pre@.insert(k@, v)[kk] by {
                        let j = post.index_of(kk);
                        post.lemma_view_at(j);
                        if j < n {
                            assert(pre.key(j) == post.key(j));
                            pre.lemma_view_at(j);
                        }
                    }
                    assert(post@ =~= pre@.insert(k@, v));
                }
            },
        }
    }
}


impl<V: Copy> StrMap<V> {
    /// A copy with the same entries in the same order.
    pub fn copied(&self) -> (r: Self)
        ensures
            r.size() == self.size(),
            r.keys() == self.keys(),
            r.values() == self.values(),
            r.wf() == self.wf(),
            self.wf() ==> r@ == self@,
    {
        let mut entries: Vec<(String, V)> = Vec::new();
        let mut i: usize = 0;
        while i < self.entries.len()
            invariant
                i <= self.entries@.len(),
                entries@.len() == i,
                forall|j: int| 0 <= j < i ==> (#[trigger] entries@[j]).0@ == self.entries@[j].0@ && entries@[j].1 == self.entries@[j].1,
            decreases self.entries@.len() - i,
        {
            let k = self.entries[i].0.clone();
            let v = self.entries[i].1;
            entries.push((k, v));
            i = i + 1;
        }
        let r = StrMap { entries };
        assert(r.keys() =~= self.keys());
        assert(r.values() =~= self.values());
        assert(forall|j: int| 0 <= j < r.size() ==> r.key(j) == self.key(j) && r.value(j) == self.value(j));
        proof {
            if self.wf() {
                assert forall|k: Seq<char>| #[trigger] r@.contains_key(k) == self@.contains_key(k) by {
                    if r.has_key(k) {
                        let i = choose|i: int| 0 <= i < r.size() && r.key(i) == k;
                        assert(self.key(i) == k);
                    }
                    if self.has_key(k) {
                        let i = choose|i: int| 0 <= i < self.size() && self.key(i) == k;
                        assert(r.key(i) == k);
                    }
                }
                assert forall|k: Seq<char>| self@.contains_key(k) implies r@[k] == #[trigger] self@[k] by {
                    let i = self.index_of(k);
                    self.lemma_view_at(i);
                    r.lemma_view_at(i);
                }
                assert(r@ =~= self@);
            }
        }
        r
    }
}


impl StrMap<String> {
    /// A copy of a map of strings, with the same entries in the same order.
    pub fn cloned_strings(&self) -> (r: Self)
        ensures
            r.size() == self.size(),
            r.keys() == self.keys(),
            r.wf() == self.wf(),
            self.wf() ==> r@.dom() == self@.dom(),
            self.wf() ==> forall|k: Seq<char>| #[trigger] self@.contains_key(k) ==> r@[k]@ == self@[k]@,
    {
        let mut entries: Vec<(String, String)> = Vec::new();
        let mut i: usize = 0;
        while i < self.entries.len()
            invariant
                i <= self.entries@.len(),
                entries@.len() == i,
                forall|j: int| 0 <= j < i ==> (#[trigger] entries@[j]).0@ == self.entries@[j].0@ && entries@[j].1@ == self.entries@[j].1@,
            decreases self.entries@.len() - i,
        {
            let k = self.entries[i].0.clone();
            let v = self.entries[i].1.clone();
            entries.push((k, v));
            i = i + 1;
        }
        let r = StrMap { entries };
        assert(r.keys() =~= self.keys());
        assert(forall|j: int| 0 <= j < r.size() ==> r.key(j) == self.key(j) && r.value(j)@ == self.value(j)@);
        proof {
            if self.wf() {
                assert forall|k: Seq<char>| #[trigger] r@.contains_key(k) == self@.contains_key(k) by {
                    if r.has_key(k) {
                        let i = choose|i: int| 0 <= i < r.size() && r.key(i) == k;
                        assert(self.key(i) == k);
                    }
                    if self.has_key(k) {
                        let i = choose|i: int| 0 <= i < self.size() && self.key(i) == k;
                        assert(r.key(i) == k);
                    }
                }
                assert(r@.dom() =~= self@.dom());
                assert forall|k: Seq<char>| #[trigger] self@.contains_key(k) implies r@[k]@ == self@[k]@ by {
                    let i = self.index_of(k);
                    self.lemma_view_at(i);
                    r.lemma_view_at(i);
                }
            }
        }
        r
    }
}

} // verus!
