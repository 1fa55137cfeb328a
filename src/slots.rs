use vstd::prelude::*;

verus! {

/// One named slot: a key and the single value currently held under it.
pub struct Slot<T> {
    pub key: String,
    pub value: T,
}

/// The keys of a sequence of slots are pairwise distinct.
pub open spec fn keys_unique<T>(s: Seq<Slot<T>>) -> bool {
    forall|i: int, j: int|
        0 <= i < s.len() && 0 <= j < s.len() && i != j ==> #[trigger] s[i].key@ != #[trigger] s[j].key@
}

/// The map that a sequence of slots stands for; a later slot wins over an
/// earlier one with the same key.
pub open spec fn slots_map<T>(s: Seq<Slot<T>>) -> Map<Seq<char>, T>
    decreases s.len(),
{
    if s.len() == 0 {
        Map::empty()
    } else {
        slots_map(s.drop_last()).insert(s.last().key@, s.last().value)
    }
}

proof fn lemma_slots_map<T>(s: Seq<Slot<T>>)
    requires
        keys_unique(s),
    ensures
        forall|k: Seq<char>| #[trigger]
            slots_map(s).contains_key(k) ==> exists|i: int| 0 <= i < s.len() && s[i].key@ == k,
        forall|i: int|
            0 <= i < s.len() ==> slots_map(s).contains_key(#[trigger] s[i].key@) && slots_map(s)[s[i].key@]
                == s[i].value,
    decreases s.len(),
{
    if s.len() > 0 {
        let p = s.drop_last();
        assert forall|i: int, j: int|
            0 <= i < p.len() && 0 <= j < p.len() && i != j implies #[trigger] p[i].key@ != #[trigger] p[j].key@ by {
            assert(s[i] == p[i] && s[j] == p[j]);
        }
        lemma_slots_map(p);
        let n = s.len() - 1;
        assert forall|k: Seq<char>| #[trigger] slots_map(s).contains_key(k) implies exists|i: int|
            0 <= i < s.len() && s[i].key@ == k by {
            if k != s[n].key@ {
                assert(slots_map(p).contains_key(k));
                let i = choose|i: int| 0 <= i < p.len() && p[i].key@ == k;
                assert(s[i] == p[i]);
                assert(0 <= i < s.len() && s[i].key@ == k);
            } else {
                assert(0 <= n < s.len() && s[n].key@ == k);
            }
        }
        assert forall|i: int| 0 <= i < s.len() implies slots_map(s).contains_key(#[trigger] s[i].key@)
            && slots_map(s)[s[i].key@] == s[i].value by {
            if i < n {
                assert(s[i] == p[i]);
                assert(s[i].key@ != s[n].key@);
            }
        }
    }
}

/// A table of named single-value slots: each key holds at most one value,
/// and storing under a key replaces what it held.
pub struct Slots<T> {
    entries: Vec<Slot<T>>,
}

impl<T: Copy> View for Slots<T> {
    type V = Map<Seq<char>, T>;

    closed spec fn view(&self) -> Map<Seq<char>, T> {
        slots_map(self.entries@)
    }
}

impl<T: Copy> Slots<T> {
    /// Well-formedness: no key appears twice.
    pub closed spec fn wf(&self) -> bool {
        keys_unique(self.entries@)
    }

    /// An empty table.
    pub fn new() -> (r: Self)
        ensures
            r.wf(),
            r@ == Map::<Seq<char>, T>::empty(),
    {
        Slots { entries: Vec::new() }
    }

    /// The number of keys held.
    pub fn len(&self) -> (r: usize)
        requires
            self.wf(),
        ensures
            r == self@.len(),
    {
        proof {
            lemma_dom_len_seq(self.entries@);
        }
        self.entries.len()
    }

    fn find(&self, key: &String) -> (r: Option<usize>)
        requires
            self.wf(),
        ensures
            match r {
                Some(i) => i < self.entries@.len() && self.entries@[i as int].key@ == key@,
                None => !self@.contains_key(key@),
            },
    {
        let mut i: usize = 0;
        while i < self.entries.len()
            invariant
                i <= self.entries@.len(),
                forall|j: int| 0 <= j < i ==> self.entries@[j].key@ != key@,
            decreases self.entries@.len() - i,
        {
            if self.entries[i].key == *key {
                return Some(i);
            }
            i = i + 1;
        }
        proof {
            lemma_slots_map(self.entries@);
        }
        None
    }

    /// The value held under `key`, if any.
    pub fn get(&self, key: &String) -> (r: Option<T>)
        requires
            self.wf(),
        ensures
            r == (if self@.contains_key(key@) {
                Some(self@[key@])
            } else {
                None
            }),
    {
        match self.find(key) {
            Some(i) => {
                proof {
                    lemma_slots_map(self.entries@);
                }
                Some(self.entries[i].value)
            },
            None => None,
        }
    }

    /// Stores `value` under `key`, replacing what the key held.
    pub fn put(&mut self, key: &String, value: T)
        requires
            old(self).wf(),
        ensures
            final(self).wf(),
            final(self)@ == old(self)@.insert(key@, value),
    {
        match self.find(key) {
            Some(i) => {
                let ghost s = self.entries@;
                let k = self.entries[i].key.clone();
                self.entries.set(i, Slot { key: k, value });
                proof {
                    let t = self.entries@;
                    assert(t == s.update(i as int, Slot { key: k, value }));
                    assert forall|a: int, b: int|
                        0 <= a < t.len() && 0 <= b < t.len() && a != b implies #[trigger] t[a].key@
                        != #[trigger] t[b].key@ by {
                        assert(s[a].key@ == t[a].key@ && s[b].key@ == t[b].key@);
                    }
                    lemma_slots_map(s);
                    lemma_slots_map(t);
                    assert forall|q: Seq<char>|
                        #[trigger] slots_map(t).contains_key(q) == slots_map(s).insert(key@, value).contains_key(q)
                        by {
                        if slots_map(t).contains_key(q) {
                            let j = choose|j: int| 0 <= j < t.len() && t[j].key@ == q;
                            assert(s[j].key@ == q);
                        }
                        if slots_map(s).contains_key(q) {
                            let j = choose|j: int| 0 <= j < s.len() && s[j].key@ == q;
                            assert(t[j].key@ == q);
                        }
                    }
                    assert forall|q: Seq<char>| #[trigger] slots_map(t).contains_key(q) implies slots_map(t)[q]
                        == slots_map(s).insert(key@, value)[q] by {
                        let j = choose|j: int| 0 <= j < t.len() && t[j].key@ == q;
                        if j != i {
                            assert(s[j] == t[j]);
                        }
                    }
                    assert(slots_map(t) =~= slots_map(s).insert(key@, value));
                }
            },
            None => {
                let ghost s = self.entries@;
                self.entries.push(Slot { key: key.clone(), value });
                proof {
                    let t = self.entries@;
                    assert(t.drop_last() =~= s);
                    lemma_slots_map(s);
                    assert forall|a: int, b: int|
                        0 <= a < t.len() && 0 <= b < t.len() && a != b implies #[trigger] t[a].key@
                        != #[trigger] t[b].key@ by {
                        if a < s.len() && b < s.len() {
                            assert(s[a] == t[a] && s[b] == t[b]);
                        } else if a < s.len() {
                            assert(s[a] == t[a]);
                        } else {
                            assert(s[b] == t[b]);
                        }
                    }
                }
            },
        }
    }
}

proof fn lemma_dom_len_seq<T>(s: Seq<Slot<T>>)
    requires
        keys_unique(s),
    ensures
        slots_map(s).dom().len() == s.len(),
        slots_map(s).dom().finite(),
    decreases s.len(),
{
    if s.len() > 0 {
        let p = s.drop_last();
        assert forall|i: int, j: int|
            0 <= i < p.len() && 0 <= j < p.len() && i != j implies #[trigger] p[i].key@ != #[trigger] p[j].key@ by {
            assert(s[i] == p[i] && s[j] == p[j]);
        }
        lemma_dom_len_seq(p);
        lemma_slots_map(p);
        if slots_map(p).contains_key(s.last().key@) {
            let i = choose|i: int| 0 <= i < p.len() && p[i].key@ == s.last().key@;
            assert(s[i] == p[i]);
        }
    }
}

} // verus!
