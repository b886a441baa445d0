//! A table keyed by text: the entries of a map from strings to values, kept
//! in insertion order with no key twice.
use vstd::prelude::*;

verus! {

/// No two entries of `s` share a key.
pub open spec fn unique_keys<V>(s: Seq<(String, V)>) -> bool {
    forall|i: int, j: int| 0 <= i < j < s.len() ==> s[i].0@ != s[j].0@
}

/// The map that the entries `s` stand for: each key to the value of its
/// last entry.
pub open spec fn entry_map<V>(s: Seq<(String, V)>) -> Map<Seq<char>, V>
    decreases s.len(),
{
    if s.len() == 0 {
        Map::empty()
    } else {
        entry_map(s.drop_last()).insert(s.last().0@, s.last().1)
    }
}

/// A key is in the map exactly when some entry has it.
pub proof fn lemma_entry_map_dom<V>(s: Seq<(String, V)>, k: Seq<char>)
    ensures
        entry_map(s).contains_key(k) <==> exists|i: int| 0 <= i < s.len() && s[i].0@ == k,
    decreases s.len(),
{
    if s.len() > 0 {
        lemma_entry_map_dom(s.drop_last(), k);
        if entry_map(s).contains_key(k) && k != s.last().0@ {
            let i = choose|i: int| 0 <= i < s.len() - 1 && s.drop_last()[i].0@ == k;
            assert(s[i].0@ == k);
        }
        if exists|i: int| 0 <= i < s.len() && s[i].0@ == k {
            let i = choose|i: int| 0 <= i < s.len() && s[i].0@ == k;
            if i < s.len() - 1 {
                assert(s.drop_last()[i].0@ == k);
            }
        }
    }
}

/// With unique keys, the map gives each entry's key that entry's value.
pub proof fn lemma_entry_map_value<V>(s: Seq<(String, V)>, i: int)
    requires
        unique_keys(s),
        0 <= i < s.len(),
    ensures
        entry_map(s).contains_key(s[i].0@),
        entry_map(s)[s[i].0@] == s[i].1,
    decreases s.len(),
{
    if i < s.len() - 1 {
        assert(unique_keys(s.drop_last()));
        lemma_entry_map_value(s.drop_last(), i);
        assert(s.drop_last()[i] == s[i]);
    }
}

/// Replacing the value of an entry replaces it in the map.
pub proof fn lemma_entry_map_update<V>(s: Seq<(String, V)>, i: int, e: (String, V))
    requires
        unique_keys(s),
        0 <= i < s.len(),
        e.0@ == s[i].0@,
    ensures
        unique_keys(s.update(i, e)),
        entry_map(s.update(i, e)) == entry_map(s).insert(e.0@, e.1),
{
    let t = s.update(i, e);
    assert(unique_keys(t));
    let lhs = entry_map(t);
    let rhs = entry_map(s).insert(e.0@, e.1);
    assert forall|k: Seq<char>| lhs.contains_key(k) <==> rhs.contains_key(k) by {
        lemma_entry_map_dom(t, k);
        lemma_entry_map_dom(s, k);
        assert(t[i].0@ == e.0@);
        if k != e.0@ && entry_map(s).contains_key(k) {
            let j = choose|j: int| 0 <= j < s.len() && s[j].0@ == k;
            assert(t[j].0@ == k);
        }
        if lhs.contains_key(k) && k != e.0@ {
            let j = choose|j: int| 0 <= j < t.len() && t[j].0@ == k;
            assert(j != i);
            assert(s[j].0@ == k);
        }
    }
    assert forall|k: Seq<char>| lhs.contains_key(k) implies lhs[k] == rhs[k] by {
        lemma_entry_map_dom(t, k);
        let j = choose|j: int| 0 <= j < t.len() && t[j].0@ == k;
        lemma_entry_map_value(t, j);
        if j != i {
            lemma_entry_map_value(s, j);
        }
    }
    assert(lhs =~= rhs);
}

/// The map that entries with distinct keys stand for does not depend on
/// their order: two such lists holding the same entries give the same map.
pub proof fn law_entry_order_irrelevant<V>(s: Seq<(String, V)>, t: Seq<(String, V)>)
    requires
        unique_keys(s),
        unique_keys(t),
        s.to_set() == t.to_set(),
    ensures
        entry_map(s) == entry_map(t),
{
    assert forall|k: Seq<char>| entry_map(s).contains_key(k) <==> entry_map(t).contains_key(k) by {
        lemma_entry_map_dom(s, k);
        lemma_entry_map_dom(t, k);
        if entry_map(s).contains_key(k) {
            let i = choose|i: int| 0 <= i < s.len() && s[i].0@ == k;
            assert(s.to_set().contains(s[i]));
            assert(t.contains(s[i]));
        }
        if entry_map(t).contains_key(k) {
            let i = choose|i: int| 0 <= i < t.len() && t[i].0@ == k;
            assert(t.to_set().contains(t[i]));
            assert(s.contains(t[i]));
        }
    }
    assert forall|k: Seq<char>| entry_map(s).contains_key(k) implies entry_map(s)[k] == entry_map(t)[k] by {
        lemma_entry_map_dom(s, k);
        let i = choose|i: int| 0 <= i < s.len() && s[i].0@ == k;
        lemma_entry_map_value(s, i);
        assert(s.to_set().contains(s[i]));
        assert(t.contains(s[i]));
        let j = choose|j: int| 0 <= j < t.len() && t[j] == s[i];
        lemma_entry_map_value(t, j);
    }
    assert(entry_map(s) =~= entry_map(t));
}

/// A map from strings to values, held as entries with distinct keys.
pub struct Table<V> {
    entries: Vec<(String, V)>,
}

impl<V> View for Table<V> {
    type V = Map<Seq<char>, V>;

    /// The map that the table holds.
    closed spec fn view(&self) -> Map<Seq<char>, V> {
        entry_map(self.entries@)
    }
}

impl<V> Table<V> {

    /// No key occurs twice among the entries.
    pub closed spec fn wf(&self) -> bool {
        unique_keys(self.entries@)
    }

    /// The entries, in the order their keys were first inserted.
    pub closed spec fn entry_seq(&self) -> Seq<(String, V)> {
        self.entries@
    }

    /// The table's map is the map of its entries, and a well-formed table
    /// lists each key once.
    pub proof fn lemma_entries(&self)
        ensures
            self@ == entry_map(self.entry_seq()),
            self.wf() ==> unique_keys(self.entry_seq()),
    {
    }

    /// An empty table.
    pub fn new() -> (t: Self)
        ensures
            t.wf(),
            t@ == Map::<Seq<char>, V>::empty(),
    {
        Table { entries: Vec::new() }
    }

    /// Whether the table holds no key.
    pub fn is_empty(&self) -> (b: bool)
        ensures
            b == (self@ == Map::<Seq<char>, V>::empty()),
    {
        if self.entries.len() == 0 {
            assert(self@ =~= Map::<Seq<char>, V>::empty());
            true
        } else {
            proof {
                lemma_entry_map_dom(self.entries@, self.entries@[0].0@);
                assert(!Map::<Seq<char>, V>::empty().contains_key(self.entries@[0].0@));
            }
            false
        }
    }

    /// The index of the entry with key `key`, if any.
    fn position(&self, key: &String) -> (r: Option<usize>)
        requires
            self.wf(),
        ensures
            r matches Some(i) ==> i < self.entries@.len() && self.entries@[i as int].0@ == key@,
            r is None ==> !self@.contains_key(key@),
    {
        let mut i: usize = 0;
        while i < self.entries.len()
            invariant
                i <= self.entries@.len(),
                forall|j: int| 0 <= j < i ==> self.entries@[j].0@ != key@,
            decreases self.entries.len() - i,
        {
            if self.entries[i].0 == *key {
                return Some(i);
            }
            i += 1;
        }
        proof {
            lemma_entry_map_dom(self.entries@, key@);
        }
        None
    }

    /// The value stored under `key`, if any.
    pub fn get(&self, key: &String) -> (r: Option<&V>)
        requires
            self.wf(),
        ensures
            r matches Some(v) ==> self@.contains_key(key@) && *v == self@[key@],
            r is None ==> !self@.contains_key(key@),
    {
        match self.position(key) {
            Some(i) => {
                proof {
                    lemma_entry_map_value(self.entries@, i as int);
                }
                Some(&self.entries[i].1)
            },
            None => None,
        }
    }

    /// Stores `value` under `key` when the key is absent; returns whether it
    /// was stored.
    pub fn insert_new(&mut self, key: String, value: V) -> (stored: bool)
        requires
            old(self).wf(),
        ensures
            final(self).wf(),
            stored == !old(self)@.contains_key(key@),
            stored ==> final(self)@ == old(self)@.insert(key@, value),
            !stored ==> final(self)@ == old(self)@,
    {
        match self.position(&key) {
            Some(i) => {
                proof {
                    lemma_entry_map_value(self.entries@, i as int);
                }
                false
            },
            None => {
                proof {
                    lemma_entry_map_dom(self.entries@, key@);
                }
                self.entries.push((key, value));
                assert(self.entries@.drop_last() =~= old(self).entries@);
                true
            },
        }
    }

    /// Stores `value` under `key`, replacing the value there was.
    pub fn insert(&mut self, key: String, value: V)
        requires
            old(self).wf(),
        ensures
            final(self).wf(),
            final(self)@ == old(self)@.insert(key@, value),
    {
        match self.position(&key) {
            Some(i) => {
                proof {
                    lemma_entry_map_update(self.entries@, i as int, (key, value));
                }
                self.entries.set(i, (key, value));
            },
            None => {
                proof {
                    lemma_entry_map_dom(self.entries@, key@);
                }
                self.entries.push((key, value));
                assert(self.entries@.drop_last() =~= old(self).entries@);
            },
        }
    }

    /// The entries, in the order their keys were first inserted.
    pub fn entries(&self) -> (r: &[(String, V)])
        ensures
            r@ == self.entry_seq(),
            entry_map(r@) == self@,
    {
        self.entries.as_slice()
    }
}

} // verus!
