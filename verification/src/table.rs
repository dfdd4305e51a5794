//! A small table keyed by strings, viewed as a mathematical map.

use vstd::prelude::*;

verus! {

/// A finite map from strings to values. No key occurs twice.
pub struct Table<V> {
    keys: Vec<String>,
    values: Vec<V>,
    model: Ghost<Map<Seq<char>, V>>,
}

impl<V> View for Table<V> {
    type V = Map<Seq<char>, V>;

    closed spec fn view(&self) -> Map<Seq<char>, V> {
        self.model@
    }
}

impl<V> Table<V> {
    /// The invariant of the representation: no key twice, and the entries
    /// are exactly those of the view.
    pub closed spec fn wf(&self) -> bool {
        &&& self.keys.len() == self.values.len()
        &&& forall|i: int, j: int|
            0 <= i < j < self.keys.len() ==> self.keys[i]@ != self.keys[j]@
        &&& forall|i: int|
            0 <= i < self.keys.len() ==> #[trigger] self.model@.contains_key(self.keys[i]@)
                && self.model@[self.keys[i]@] == self.values[i]
        &&& forall|k: Seq<char>| #[trigger]
            self.model@.contains_key(k) ==> exists|i: int|
                0 <= i < self.keys.len() && self.keys[i]@ == k
    }

    /// The empty table.
    pub fn new() -> (t: Table<V>)
        ensures
            t.wf(),
            t@ == Map::<Seq<char>, V>::empty(),
    {
        Table { keys: Vec::new(), values: Vec::new(), model: Ghost(Map::empty()) }
    }

    /// Where `key` stands among the keys, if it does.
    fn position(&self, key: &str) -> (r: Option<usize>)
        requires
            self.wf(),
        ensures
            match r {
                Some(i) => i < self.keys.len() && self.keys[i as int]@ == key@,
                None => forall|j: int| 0 <= j < self.keys.len() ==> self.keys[j]@ != key@,
            },
    {
        let wanted = key.to_owned();
        let mut i: usize = 0;
        while i < self.keys.len()
            invariant
                i <= self.keys.len(),
                wanted@ == key@,
                forall|j: int| 0 <= j < i ==> self.keys[j]@ != key@,
            decreases self.keys.len() - i,
        {
            if self.keys[i] == wanted {
                return Some(i);
            }
            i = i + 1;
        }
        None
    }

    /// Whether the table has an entry for `key`.
    pub fn contains_key(&self, key: &str) -> (b: bool)
        requires
            self.wf(),
        ensures
            b == self@.contains_key(key@),
    {
        let found = self.position(key);
        proof {
            if let Some(i) = found {
                assert(self.model@.contains_key(self.keys[i as int]@));
            }
        }
        found.is_some()
    }

    /// The value stored for `key`.
    pub fn get(&self, key: &str) -> (r: Option<&V>)
        requires
            self.wf(),
        ensures
            match r {
                Some(v) => self@.contains_key(key@) && *v == self@[key@],
                None => !self@.contains_key(key@),
            },
    {
        match self.position(key) {
            Some(i) => {
                assert(self.model@.contains_key(self.keys[i as int]@));
                Some(&self.values[i])
            },
            None => None,
        }
    }

    /// Number of entries.
    pub fn len(&self) -> (n: usize)
        requires
            self.wf(),
        ensures
            n == self@.dom().len(),
            self@.dom().finite(),
    {
        proof {
            self.lemma_len();
        }
        self.keys.len()
    }

    /// Stores `value` under `key`, in place of what was stored there.
    pub fn insert(&mut self, key: String, value: V)
        requires
            old(self).wf(),
        ensures
            final(self).wf(),
            final(self)@ == old(self)@.insert(key@, value),
    {
        let ghost at: int;
        match self.position(key.as_str()) {
            Some(i) => {
                self.values.set(i, value);
                proof {
                    self.model = Ghost(self.model@.insert(key@, value));
                    at = i as int;
                }
            },
            None => {
                proof {
                    self.model = Ghost(self.model@.insert(key@, value));
                    at = self.keys.len() as int;
                }
                self.keys.push(key);
                self.values.push(value);
            },
        }
        proof {
            assert(0 <= at < self.keys.len() && self.keys[at]@ == key@);
            assert forall|k: Seq<char>| #[trigger] self.model@.contains_key(k) implies exists|
                i: int,
            | 0 <= i < self.keys.len() && self.keys[i]@ == k by {
                if k != key@ {
                    assert(old(self).model@.contains_key(k));
                    let i = choose|i: int| 0 <= i < old(self).keys.len() && old(self).keys[i]@ == k;
                    assert(self.keys[i]@ == k);
                }
            }
            assert forall|i: int| 0 <= i < self.keys.len() implies #[trigger] self.model@.contains_key(
                self.keys[i]@,
            ) && self.model@[self.keys[i]@] == self.values[i] by {
                if i < old(self).keys.len() {
                    assert(old(self).model@.contains_key(old(self).keys[i]@));
                }
            }
        }
    }

    /// Drops the entry of `key`, if there is one.
    pub fn remove(&mut self, key: &str)
        requires
            old(self).wf(),
        ensures
            final(self).wf(),
            final(self)@ == old(self)@.remove(key@),
    {
        match self.position(key) {
            Some(i) => {
                self.keys.remove(i);
                self.values.remove(i);
                proof {
                    self.model = Ghost(self.model@.remove(key@));
                    assert forall|k: Seq<char>| #[trigger]
                        self.model@.contains_key(k) implies exists|j: int|
                        0 <= j < self.keys.len() && self.keys[j]@ == k by {
                        assert(old(self).model@.contains_key(k));
                        let j = choose|j: int|
                            0 <= j < old(self).keys.len() && old(self).keys[j]@ == k;
                        if j < i {
                            assert(self.keys[j]@ == k);
                        } else {
                            assert(self.keys[j - 1]@ == k);
                        }
                    }
                    assert forall|j: int| 0 <= j < self.keys.len() implies #[trigger] self.model@.contains_key(
                        self.keys[j]@,
                    ) && self.model@[self.keys[j]@] == self.values[j] by {
                        if j < i {
                            assert(old(self).model@.contains_key(old(self).keys[j]@));
                        } else {
                            assert(old(self).model@.contains_key(old(self).keys[j + 1]@));
                        }
                    }
                }
            },
            None => {
                proof {
                    assert(!self.model@.contains_key(key@)) by {
                        if self.model@.contains_key(key@) {
                            let j = choose|j: int|
                                0 <= j < self.keys.len() && self.keys[j]@ == key@;
                        }
                    }
                    assert(self.model@ =~= self.model@.remove(key@));
                }
            },
        }
    }

    /// The keys of the table, each once.
    pub fn keys(&self) -> (r: Vec<String>)
        requires
            self.wf(),
        ensures
            r@.len() == self@.dom().len(),
            self@.dom().finite(),
            forall|i: int, j: int| 0 <= i < j < r@.len() ==> r@[i]@ != r@[j]@,
            forall|i: int| 0 <= i < r@.len() ==> self@.contains_key(#[trigger] r@[i]@),
            forall|k: Seq<char>| #[trigger]
                self@.contains_key(k) ==> exists|i: int| 0 <= i < r@.len() && r@[i]@ == k,
    {
        proof {
            self.lemma_len();
        }
        let mut r: Vec<String> = Vec::new();
        let mut i: usize = 0;
        while i < self.keys.len()
            invariant
                i <= self.keys.len(),
                r@.len() == i,
                forall|j: int| 0 <= j < i ==> r@[j]@ == self.keys[j]@,
            decreases self.keys.len() - i,
        {
            r.push(self.keys[i].clone());
            i = i + 1;
        }
        proof {
            assert forall|i: int| 0 <= i < r@.len() implies self@.contains_key(
                #[trigger] r@[i]@,
            ) by {
                assert(self.model@.contains_key(self.keys[i]@));
            }
            assert forall|k: Seq<char>| #[trigger] self@.contains_key(k) implies exists|i: int|
                0 <= i < r@.len() && r@[i]@ == k by {
                let i = choose|i: int| 0 <= i < self.keys.len() && self.keys[i]@ == k;
                assert(r@[i]@ == k);
            }
        }
        r
    }

    proof fn lemma_len(&self)
        requires
            self.wf(),
        ensures
            self.model@.dom().finite(),
            self.model@.dom().len() == self.keys.len(),
    {
        Self::lemma_len_rec(self.keys@, self.model@.dom());
    }

    proof fn lemma_len_rec(keys: Seq<String>, dom: Set<Seq<char>>)
        requires
            forall|i: int, j: int| 0 <= i < j < keys.len() ==> keys[i]@ != keys[j]@,
            forall|i: int| 0 <= i < keys.len() ==> #[trigger] dom.contains(keys[i]@),
            forall|k: Seq<char>| #[trigger]
                dom.contains(k) ==> exists|i: int| 0 <= i < keys.len() && keys[i]@ == k,
        ensures
            dom.finite(),
            dom.len() == keys.len(),
        decreases keys.len(),
    {
        if keys.len() == 0 {
            assert(dom =~= Set::empty());
        } else {
            let last = keys.last()@;
            let rest = keys.drop_last();
            let sub = dom.remove(last);
            assert forall|k: Seq<char>| #[trigger] sub.contains(k) implies exists|i: int|
                0 <= i < rest.len() && rest[i]@ == k by {
                let i = choose|i: int| 0 <= i < keys.len() && keys[i]@ == k;
                assert(rest[i]@ == k);
            }
            assert forall|i: int| 0 <= i < rest.len() implies #[trigger] sub.contains(
                rest[i]@,
            ) by {
                assert(dom.contains(keys[i]@));
            }
            Self::lemma_len_rec(rest, sub);
            assert(dom.contains(keys[keys.len() - 1]@));
            assert(dom =~= sub.insert(last));
        }
    }
}

} // verus!
