use vstd::prelude::*;

verus! {

/// No two entries of `s` carry the same key text.
pub open spec fn keys_unique<V>(s: Seq<(String, V)>) -> bool {
    forall|i: int, j: int|
        0 <= i < s.len() && 0 <= j < s.len() && i != j ==> #[trigger] s[i].0@ != #[trigger] s[j].0@
}

/// `s` holds an entry whose key text is `k`.
pub open spec fn has_key<V>(s: Seq<(String, V)>, k: Seq<char>) -> bool {
    exists|i: int| 0 <= i < s.len() && #[trigger] s[i].0@ == k
}

/// The map from key text to value that the entries `s` stand for.
pub open spec fn entries_map<V>(s: Seq<(String, V)>) -> Map<Seq<char>, V> {
    Map::new(
        |k: Seq<char>| has_key(s, k),
        |k: Seq<char>| s[choose|i: int| 0 <= i < s.len() && #[trigger] s[i].0@ == k].1,
    )
}

/// With unique keys, the entry at `i` is what the map holds for its key.
pub proof fn lemma_entry_in_map<V>(s: Seq<(String, V)>, i: int)
    requires
        keys_unique(s),
        0 <= i < s.len(),
    ensures
        entries_map(s).contains_key(s[i].0@),
        entries_map(s)[s[i].0@] == s[i].1,
{
    let k = s[i].0@;
    assert(has_key(s, k));
    let j = choose|j: int| 0 <= j < s.len() && #[trigger] s[j].0@ == k;
    if j != i {
        assert(s[i].0@ != s[j].0@);
    }
}

/// A table from device token to the value kept for that device: at most one
/// entry per token, as in a hash map keyed by the token.
pub struct TokenMap<V> {
    entries: Vec<(String, V)>,
}

impl<V> TokenMap<V> {
    #[verifier::type_invariant]
    spec fn unique(self) -> bool {
        keys_unique(self.entries@)
    }

    /// The table as a map from token text to value.
    pub closed spec fn view(&self) -> Map<Seq<char>, V> {
        entries_map(self.entries@)
    }

    /// An empty table.
    pub fn new() -> (m: Self)
        ensures
            m@ == Map::<Seq<char>, V>::empty(),
    {
        let m = TokenMap { entries: Vec::new() };
        assert(m@ =~= Map::<Seq<char>, V>::empty());
        m
    }

    /// The position of the entry for `key`, if there is one.
    fn find(&self, key: &String) -> (r: Option<usize>)
        ensures
            match r {
                Some(i) => i < self.entries@.len() && self.entries@[i as int].0@ == key@,
                None => !has_key(self.entries@, key@),
            },
    {
        let mut i: usize = 0;
        while i < self.entries.len()
            invariant
                i <= self.entries@.len(),
                forall|j: int| 0 <= j < i ==> #[trigger] self.entries@[j].0@ != key@,
            decreases self.entries@.len() - i,
        {
            if self.entries[i].0 == *key {
                return Some(i);
            }
            i = i + 1;
        }
        None
    }

    /// Whether the table holds an entry for `key`.
    pub fn contains_key(&self, key: &str) -> (b: bool)
        ensures
            b == self@.contains_key(key@),
    {
        let k: String = key.to_owned();
        let r = self.find(&k);
        r.is_some()
    }

    /// The value kept for `key`, if any.
    pub fn get(&self, key: &str) -> (r: Option<&V>)
        ensures
            match r {
                Some(v) => self@.contains_key(key@) && *v == self@[key@],
                None => !self@.contains_key(key@),
            },
    {
        proof {
            use_type_invariant(self);
        }
        let k: String = key.to_owned();
        match self.find(&k) {
            Some(i) => {
                proof {
                    lemma_entry_in_map(self.entries@, i as int);
                }
                Some(&self.entries[i].1)
            },
            None => None,
        }
    }

    /// Stores `value` for `key`, replacing what was kept for it before.
    pub fn insert(&mut self, key: &str, value: V)
        ensures
            final(self)@ == old(self)@.insert(key@, value),
    {
        proof {
            use_type_invariant(&*self);
        }
        let k: String = key.to_owned();
        let ghost old_s = self.entries@;
        match self.find(&k) {
            Some(i) => {
                let mut entries = Vec::new();
                std::mem::swap(&mut entries, &mut self.entries);
                entries.set(i, (k, value));
                let ghost new_s = entries@;
                assert(new_s =~= old_s.update(i as int, new_s[i as int]));
                assert(keys_unique(new_s));
                self.entries = entries;
                proof {
                    assert forall|q: Seq<char>|
                        #[trigger] entries_map(new_s).contains_key(q)
                            == old(self)@.insert(key@, value).contains_key(q) by {
                        if has_key(old_s, q) {
                            let j = choose|j: int| 0 <= j < old_s.len() && #[trigger] old_s[j].0@ == q;
                            assert(new_s[j].0@ == q);
                        }
                        if has_key(new_s, q) {
                            let j = choose|j: int| 0 <= j < new_s.len() && #[trigger] new_s[j].0@ == q;
                            assert(old_s[j].0@ == q);
                        }
                    }
                    assert forall|q: Seq<char>| #[trigger] entries_map(new_s).contains_key(q)
                        implies entries_map(new_s)[q] == old(self)@.insert(key@, value)[q] by {
                        let j = choose|j: int| 0 <= j < new_s.len() && #[trigger] new_s[j].0@ == q;
                        lemma_entry_in_map(new_s, j);
                        if j != i as int {
                            lemma_entry_in_map(old_s, j);
                        }
                    }
                    assert(entries_map(new_s) =~= old(self)@.insert(key@, value));
                }
            },
            None => {
                let mut entries = Vec::new();
                std::mem::swap(&mut entries, &mut self.entries);
                entries.push((k, value));
                let ghost new_s = entries@;
                assert(new_s =~= old_s.push(new_s[old_s.len() as int]));
                assert(keys_unique(new_s)) by {
                    assert forall|a: int, b: int|
                        0 <= a < new_s.len() && 0 <= b < new_s.len() && a != b
                        implies #[trigger] new_s[a].0@ != #[trigger] new_s[b].0@ by {
                        if a == old_s.len() {
                            assert(old_s[b].0@ == new_s[b].0@);
                        } else if b == old_s.len() {
                            assert(old_s[a].0@ == new_s[a].0@);
                        }
                    }
                }
                self.entries = entries;
                proof {
                    assert forall|q: Seq<char>|
                        #[trigger] entries_map(new_s).contains_key(q)
                            == old(self)@.insert(key@, value).contains_key(q) by {
                        if has_key(old_s, q) {
                            let j = choose|j: int| 0 <= j < old_s.len() && #[trigger] old_s[j].0@ == q;
                            assert(new_s[j].0@ == q);
                        }
                        if q == key@ {
                            assert(new_s[old_s.len() as int].0@ == q);
                        }
                        if has_key(new_s, q) {
                            let j = choose|j: int| 0 <= j < new_s.len() && #[trigger] new_s[j].0@ == q;
                            if j < old_s.len() {
                                assert(old_s[j].0@ == q);
                            }
                        }
                    }
                    assert forall|q: Seq<char>| #[trigger] entries_map(new_s).contains_key(q)
                        implies entries_map(new_s)[q] == old(self)@.insert(key@, value)[q] by {
                        let j = choose|j: int| 0 <= j < new_s.len() && #[trigger] new_s[j].0@ == q;
                        lemma_entry_in_map(new_s, j);
                        if j < old_s.len() {
                            lemma_entry_in_map(old_s, j);
                        }
                    }
                    assert(entries_map(new_s) =~= old(self)@.insert(key@, value));
                }
            },
        }
    }

    /// Takes the entry for `key` out of the table and hands back its value.
    pub fn remove(&mut self, key: &str) -> (r: Option<V>)
        ensures
            match r {
                Some(v) => old(self)@.contains_key(key@) && v == old(self)@[key@]
                    && final(self)@ == old(self)@.remove(key@),
                None => !old(self)@.contains_key(key@) && final(self)@ == old(self)@,
            },
    {
        proof {
            use_type_invariant(&*self);
        }
        let k: String = key.to_owned();
        let ghost old_s = self.entries@;
        match self.find(&k) {
            Some(i) => {
                proof {
                    lemma_entry_in_map(old_s, i as int);
                }
                let mut entries = Vec::new();
                std::mem::swap(&mut entries, &mut self.entries);
                let (_, v) = entries.remove(i);
                let ghost new_s = entries@;
                assert(new_s =~= old_s.remove(i as int));
                assert(keys_unique(new_s)) by {
                    assert forall|a: int, b: int|
                        0 <= a < new_s.len() && 0 <= b < new_s.len() && a != b
                        implies #[trigger] new_s[a].0@ != #[trigger] new_s[b].0@ by {
                        let oa = if a < i { a } else { a + 1 };
                        let ob = if b < i { b } else { b + 1 };
                        assert(new_s[a] == old_s[oa]);
                        assert(new_s[b] == old_s[ob]);
                    }
                }
                self.entries = entries;
                proof {
                    assert forall|q: Seq<char>|
                        #[trigger] entries_map(new_s).contains_key(q)
                            == old(self)@.remove(key@).contains_key(q) by {
                        if has_key(old_s, q) && q != key@ {
                            let j = choose|j: int| 0 <= j < old_s.len() && #[trigger] old_s[j].0@ == q;
                            if j < i {
                                assert(new_s[j].0@ == q);
                            } else {
                                assert(j != i);
                                assert(new_s[j - 1].0@ == q);
                            }
                        }
                        if has_key(new_s, q) {
                            let j = choose|j: int| 0 <= j < new_s.len() && #[trigger] new_s[j].0@ == q;
                            let oj = if j < i { j } else { j + 1 };
                            assert(old_s[oj].0@ == q);
                            assert(oj != i);
                        }
                    }
                    assert forall|q: Seq<char>| #[trigger] entries_map(new_s).contains_key(q)
                        implies entries_map(new_s)[q] == old(self)@.remove(key@)[q] by {
                        let j = choose|j: int| 0 <= j < new_s.len() && #[trigger] new_s[j].0@ == q;
                        let oj = if j < i { j } else { j + 1 };
                        assert(new_s[j] == old_s[oj]);
                        lemma_entry_in_map(new_s, j);
                        lemma_entry_in_map(old_s, oj);
                    }
                    assert(entries_map(new_s) =~= old(self)@.remove(key@));
                }
                Some(v)
            },
            None => None,
        }
    }
}

} // verus!
