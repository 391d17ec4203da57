use vstd::prelude::*;

verus! {

/// Do any two distinct entries carry distinct tokens?
pub open spec fn tokens_unique<V>(s: Seq<(String, V)>) -> bool {
    forall|i: int, j: int| 0 <= i < j < s.len() ==> s[i].0@ != s[j].0@
}

/// Does some entry of `s` carry the token `t`?
pub open spec fn has_token<V>(s: Seq<(String, V)>, t: Seq<char>) -> bool {
    exists|i: int| 0 <= i < s.len() && s[i].0@ == t
}

/// The index of the entry carrying `t` (meaningful when `has_token` holds
/// and tokens are unique).
pub open spec fn token_index<V>(s: Seq<(String, V)>, t: Seq<char>) -> int {
    choose|i: int| 0 <= i < s.len() && s[i].0@ == t
}

/// The mathematical map described by a list of token/value entries.
pub open spec fn entry_view<V>(s: Seq<(String, V)>) -> Map<Seq<char>, V> {
    Map::new(|t: Seq<char>| has_token(s, t), |t: Seq<char>| s[token_index(s, t)].1)
}

proof fn lemma_at_index<V>(s: Seq<(String, V)>, i: int)
    requires
        tokens_unique(s),
        0 <= i < s.len(),
    ensures
        has_token(s, s[i].0@),
        token_index(s, s[i].0@) == i,
        entry_view(s).contains_key(s[i].0@),
        entry_view(s)[s[i].0@] == s[i].1,
{
    assert(has_token(s, s[i].0@));
    let j = token_index(s, s[i].0@);
    assert(0 <= j < s.len() && s[j].0@ == s[i].0@);
    if i < j {
        assert(s[i].0@ != s[j].0@);
    } else if j < i {
        assert(s[j].0@ != s[i].0@);
    }
}

proof fn lemma_remove_at<V>(s: Seq<(String, V)>, i: int)
    requires
        tokens_unique(s),
        0 <= i < s.len(),
    ensures
        tokens_unique(s.remove(i)),
        entry_view(s.remove(i)) =~= entry_view(s).remove(s[i].0@),
{
    let s2 = s.remove(i);
    s.remove_ensures(i);
    assert forall|a: int, b: int| 0 <= a < b < s2.len() implies s2[a].0@ != s2[b].0@ by {
        let a2: int = if a < i { a } else { a + 1 };
        let b2: int = if b < i { b } else { b + 1 };
        assert(s2[a] == s[a2]);
        assert(s2[b] == s[b2]);
    }
    assert forall|t: Seq<char>| entry_view(s2).contains_key(t) implies (entry_view(s).remove(
        s[i].0@,
    ).contains_key(t) && entry_view(s2)[t] == entry_view(s).remove(s[i].0@)[t]) by {
        let j = token_index(s2, t);
        assert(0 <= j < s2.len() && s2[j].0@ == t);
        let j2: int = if j < i { j } else { j + 1 };
        assert(s2[j] == s[j2]);
        lemma_at_index(s, j2);
        lemma_at_index(s2, j);
        if j2 < i {
            assert(s[j2].0@ != s[i].0@);
        } else {
            assert(s[i].0@ != s[j2].0@);
        }
    }
    assert forall|t: Seq<char>|
        entry_view(s).remove(s[i].0@).contains_key(t) implies entry_view(s2).contains_key(t) by {
        let j = token_index(s, t);
        assert(0 <= j < s.len() && s[j].0@ == t);
        lemma_at_index(s, j);
        let j2: int = if j < i { j } else { j - 1 };
        assert(s2[j2] == s[j]);
        assert(has_token(s2, t));
    }
}

proof fn lemma_push<V>(s: Seq<(String, V)>, key: String, value: V)
    requires
        tokens_unique(s),
        !has_token(s, key@),
    ensures
        tokens_unique(s.push((key, value))),
        entry_view(s.push((key, value))) =~= entry_view(s).insert(key@, value),
{
    let s2 = s.push((key, value));
    assert forall|a: int, b: int| 0 <= a < b < s2.len() implies s2[a].0@ != s2[b].0@ by {
        if b < s.len() {
            assert(s2[a] == s[a]);
            assert(s2[b] == s[b]);
        } else {
            assert(s2[a] == s[a]);
            assert(s2[b] == (key, value));
            assert(!(s[a].0@ == key@));
        }
    }
    assert forall|t: Seq<char>| entry_view(s2).contains_key(t) implies (entry_view(s).insert(
        key@,
        value,
    ).contains_key(t) && entry_view(s2)[t] == entry_view(s).insert(key@, value)[t]) by {
        let j = token_index(s2, t);
        assert(0 <= j < s2.len() && s2[j].0@ == t);
        lemma_at_index(s2, j);
        if j < s.len() {
            assert(s2[j] == s[j]);
            lemma_at_index(s, j);
            assert(!(s[j].0@ == key@));
        } else {
            assert(s2[j] == (key, value));
        }
    }
    assert forall|t: Seq<char>|
        entry_view(s).insert(key@, value).contains_key(t) implies entry_view(s2).contains_key(
        t,
    ) by {
        if t == key@ {
            assert(s2[s.len() as int].0@ == t);
            assert(has_token(s2, t));
        } else {
            let j = token_index(s, t);
            assert(0 <= j < s.len() && s[j].0@ == t);
            assert(s2[j].0@ == t);
            assert(has_token(s2, t));
        }
    }
}

/// A mapping from opaque string tokens to values, kept as a list of entries
/// with pairwise distinct tokens. Both shared registries of the system (the
/// session map and the room map) are instances of it.
pub struct TokenMap<V> {
    entries: Vec<(String, V)>,
}

impl<V> View for TokenMap<V> {
    type V = Map<Seq<char>, V>;

    closed spec fn view(&self) -> Map<Seq<char>, V> {
        entry_view(self.entries@)
    }
}

impl<V> TokenMap<V> {
    /// Distinct entries carry distinct tokens.
    pub closed spec fn wf(&self) -> bool {
        tokens_unique(self.entries@)
    }

    /// How many entries the map holds.
    pub closed spec fn num_entries(&self) -> nat {
        self.entries@.len()
    }

    /// The token of the entry at position `i`.
    pub closed spec fn token_at(&self, i: int) -> Seq<char> {
        self.entries@[i].0@
    }

    /// The value of the entry at position `i`.
    pub closed spec fn spec_value_at(&self, i: int) -> V {
        self.entries@[i].1
    }

    /// Each stored entry is visible in the map view.
    pub proof fn lemma_entry_in_view(&self, i: int)
        requires
            self.wf(),
            0 <= i < self.num_entries(),
        ensures
            self@.contains_key(self.token_at(i)),
            self@[self.token_at(i)] == self.spec_value_at(i),
    {
        lemma_at_index(self.entries@, i);
    }

    /// Each token of the map view is carried by some stored entry.
    pub proof fn lemma_view_to_entry(&self, t: Seq<char>)
        requires
            self.wf(),
            self@.contains_key(t),
        ensures
            exists|i: int|
                0 <= i < self.num_entries() && self.token_at(i) == t && self.spec_value_at(i)
                    == self@[t],
    {
        let j = token_index(self.entries@, t);
        assert(0 <= j < self.entries@.len() && self.entries@[j].0@ == t);
        lemma_at_index(self.entries@, j);
        assert(self.token_at(j) == t && self.spec_value_at(j) == self@[t]);
    }

    pub fn new() -> (r: Self)
        ensures
            r.wf(),
            r@ == Map::<Seq<char>, V>::empty(),
            r.num_entries() == 0,
    {
        let r = TokenMap { entries: Vec::new() };
        proof {
            assert forall|t: Seq<char>| !r@.contains_key(t) by {
                assert(!has_token(r.entries@, t));
            }
            assert(r@ =~= Map::<Seq<char>, V>::empty());
        }
        r
    }

    fn find(&self, key: &String) -> (r: Option<usize>)
        ensures
            match r {
                Some(i) => i < self.entries@.len() && self.entries@[i as int].0@ == key@,
                None => forall|i: int|
                    0 <= i < self.entries@.len() ==> self.entries@[i].0@ != key@,
            },
    {
        let n = self.entries.len();
        let mut i: usize = 0;
        while i < n
            invariant
                n == self.entries@.len(),
                i <= n,
                forall|j: int| 0 <= j < i ==> self.entries@[j].0@ != key@,
            decreases n - i,
        {
            if self.entries[i].0 == *key {
                return Some(i);
            }
            i = i + 1;
        }
        None
    }

    pub fn get(&self, key: &String) -> (r: Option<&V>)
        requires
            self.wf(),
        ensures
            match r {
                Some(v) => self@.contains_key(key@) && *v == self@[key@],
                None => !self@.contains_key(key@),
            },
    {
        match self.find(key) {
            Some(i) => {
                proof {
                    lemma_at_index(self.entries@, i as int);
                }
                Some(&self.entries[i].1)
            },
            None => {
                proof {
                    assert(!has_token(self.entries@, key@));
                }
                None
            },
        }
    }

    /// Bind `key` to `value`, replacing any entry that carried the same token.
    pub fn insert(&mut self, key: String, value: V)
        requires
            old(self).wf(),
        ensures
            final(self).wf(),
            final(self)@ == old(self)@.insert(key@, value),
    {
        let ghost s0 = self.entries@;
        match self.find(&key) {
            Some(i) => {
                proof {
                    lemma_remove_at(s0, i as int);
                }
                self.entries.remove(i);
                let ghost s1 = self.entries@;
                proof {
                    if has_token(s1, key@) {
                        let j = token_index(s1, key@);
                        lemma_at_index(s1, j);
                        assert(entry_view(s1).contains_key(key@));
                        assert(!entry_view(s0).remove(s0[i as int].0@).contains_key(key@));
                    }
                    lemma_push(s1, key, value);
                }
                self.entries.push((key, value));
                proof {
                    assert(self@ =~= old(self)@.insert(key@, value));
                }
            },
            None => {
                proof {
                    assert(!has_token(s0, key@));
                    lemma_push(s0, key, value);
                }
                self.entries.push((key, value));
                proof {
                    assert(self@ =~= old(self)@.insert(key@, value));
                }
            },
        }
    }

    /// Drop the entry carrying `key`, if any; a removal of an absent token
    /// leaves the map as it was.
    pub fn remove(&mut self, key: &String) -> (r: Option<V>)
        requires
            old(self).wf(),
        ensures
            final(self).wf(),
            final(self)@ == old(self)@.remove(key@),
            match r {
                Some(v) => old(self)@.contains_key(key@) && v == old(self)@[key@],
                None => !old(self)@.contains_key(key@),
            },
    {
        let ghost s0 = self.entries@;
        match self.find(key) {
            Some(i) => {
                proof {
                    lemma_at_index(s0, i as int);
                    lemma_remove_at(s0, i as int);
                }
                let (_k, v) = self.entries.remove(i);
                Some(v)
            },
            None => {
                proof {
                    assert(!has_token(s0, key@));
                    assert(self@ =~= old(self)@.remove(key@));
                }
                None
            },
        }
    }

    /// Drop every entry at once.
    pub fn clear(&mut self)
        ensures
            final(self).wf(),
            final(self)@ == Map::<Seq<char>, V>::empty(),
            final(self).num_entries() == 0,
    {
        self.entries.clear();
        proof {
            assert forall|t: Seq<char>| !self@.contains_key(t) by {
                assert(!has_token(self.entries@, t));
            }
            assert(self@ =~= Map::<Seq<char>, V>::empty());
        }
    }

    pub fn entry_len(&self) -> (n: usize)
        ensures
            n == self.num_entries(),
    {
        self.entries.len()
    }

    pub fn value_at(&self, i: usize) -> (v: &V)
        requires
            i < self.num_entries(),
        ensures
            *v == self.spec_value_at(i as int),
    {
        &self.entries[i].1
    }

    /// Drop the entry at position `i`; later entries shift one place down.
    pub fn remove_at(&mut self, i: usize)
        requires
            old(self).wf(),
            i < old(self).num_entries(),
        ensures
            final(self).wf(),
            final(self)@ == old(self)@.remove(old(self).token_at(i as int)),
            old(self)@.contains_key(old(self).token_at(i as int)),
            old(self)@[old(self).token_at(i as int)] == old(self).spec_value_at(i as int),
            final(self).num_entries() == old(self).num_entries() - 1,
            forall|j: int|
                0 <= j < i ==> final(self).token_at(j) == old(self).token_at(j)
                    && final(self).spec_value_at(j) == old(self).spec_value_at(j),
            forall|j: int|
                i <= j < final(self).num_entries() ==> final(self).token_at(j) == old(
                    self,
                ).token_at(j + 1) && final(self).spec_value_at(j) == old(self).spec_value_at(j + 1),
    {
        proof {
            lemma_at_index(self.entries@, i as int);
            lemma_remove_at(self.entries@, i as int);
            self.entries@.remove_ensures(i as int);
        }
        self.entries.remove(i);
    }
}

} // verus!
