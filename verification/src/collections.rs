//! Maps keyed by text and sets of texts, kept as vectors without repeated keys.
//! They stand for the hash maps and hash sets that the providers keep their
//! subscriptions and instances in.

use vstd::prelude::*;

verus! {

/// A map from texts to values.
pub struct TextMap<V> {
    entries: Vec<(String, V)>,
}

/// The texts of the keys of `entries`, in order.
pub open spec fn keys_of<V>(entries: Seq<(String, V)>) -> Seq<Seq<char>> {
    entries.map_values(|e: (String, V)| e.0@)
}

/// The map that `entries` stand for, when their keys are distinct.
pub open spec fn map_of<V>(entries: Seq<(String, V)>) -> Map<Seq<char>, V> {
    Map::new(
        |k: Seq<char>| keys_of(entries).contains(k),
        |k: Seq<char>| entries[keys_of(entries).index_of(k)].1,
    )
}

proof fn lemma_entry_in_map<V>(entries: Seq<(String, V)>, i: int)
    requires
        keys_of(entries).no_duplicates(),
        0 <= i < entries.len(),
    ensures
        map_of(entries).contains_key(entries[i].0@),
        map_of(entries)[entries[i].0@] == entries[i].1,
{
    let k = entries[i].0@;
    assert(keys_of(entries)[i] == k);
    assert(keys_of(entries).contains(k));
    let j = keys_of(entries).index_of(k);
    assert(keys_of(entries)[j] == k);
}

impl<V> TextMap<V> {
    /// The keys, in the order the entries are kept.
    pub closed spec fn keys(self) -> Seq<Seq<char>> {
        keys_of(self.entries@)
    }

    #[verifier::type_invariant]
    spec fn keys_are_distinct(self) -> bool {
        self.keys().no_duplicates()
    }

    /// The map that the entries stand for.
    pub closed spec fn as_map(self) -> Map<Seq<char>, V> {
        map_of(self.entries@)
    }

    /// An empty map.
    pub fn new() -> (m: Self)
        ensures
            m@ == Map::<Seq<char>, V>::empty(),
    {
        let m = TextMap { entries: Vec::new() };
        assert(m@ =~= Map::<Seq<char>, V>::empty());
        m
    }

    /// The position of the entry for `key`, if there is one.
    fn position(&self, key: &String) -> (r: Option<usize>)
        ensures
            r is None <==> !self@.contains_key(key@),
            r matches Some(i) ==> i < self.entries@.len() && self.entries@[i as int].0@ == key@,
    {
        let mut i: usize = 0;
        while i < self.entries.len()
            invariant
                i <= self.entries@.len(),
                forall|j: int| 0 <= j < i ==> self.keys()[j] != key@,
            decreases self.entries@.len() - i,
        {
            if self.entries[i].0 == *key {
                assert(self.keys()[i as int] == key@);
                return Some(i);
            }
            i = i + 1;
        }
        assert(!self.keys().contains(key@));
        None
    }

    /// The value for `key`, if any.
    pub fn get(&self, key: &str) -> (r: Option<&V>)
        ensures
            r is None <==> !self@.contains_key(key@),
            r matches Some(v) ==> *v == self@[key@],
    {
        proof { use_type_invariant(self); }
        let k = String::from_str(key);
        match self.position(&k) {
            Some(i) => {
                proof { lemma_entry_in_map(self.entries@, i as int); }
                Some(&self.entries[i].1)
            },
            None => None,
        }
    }

    /// Set the value for `key`, replacing any value it had.
    pub fn insert(&mut self, key: String, value: V)
        ensures
            final(self)@ == old(self)@.insert(key@, value),
    {
        proof { use_type_invariant(&*self); }
        let ghost old_map = self@;
        let ghost k = key@;
        match self.position(&key) {
            Some(i) => {
                let ghost old_entries = self.entries@;
                let mut entries = Vec::new();
                std::mem::swap(&mut entries, &mut self.entries);
                entries.set(i, (key, value));
                let ghost new_keys = keys_of(entries@);
                proof {
                    assert(new_keys =~= keys_of(old_entries).update(i as int, k));
                    assert(new_keys.no_duplicates()) by {
                        assert forall|a: int, b: int| 0 <= a < new_keys.len() && 0 <= b < new_keys.len() && a != b
                            implies new_keys[a] != new_keys[b] by {
                            assert(keys_of(old_entries)[i as int] == k);
                        }
                    }
                }
                self.entries = entries;
                proof {
                    assert forall|x: Seq<char>| #![auto] self@.contains_key(x) <==> old_map.insert(k, value).contains_key(x) by {
                        if x != k && old_map.contains_key(x) {
                            let p = keys_of(old_entries).index_of(x);
                            assert(keys_of(old_entries)[p] == x);
                            assert(self.keys()[p] == x);
                        }
                        if x != k && self@.contains_key(x) {
                            let p = self.keys().index_of(x);
                            assert(self.keys()[p] == x);
                            assert(keys_of(old_entries)[p] == x);
                        }
                        if x == k {
                            assert(self.keys()[i as int] == k);
                        }
                    }
                    assert forall|x: Seq<char>| #![auto] self@.contains_key(x) implies self@[x] == old_map.insert(k, value)[x] by {
                        let p = self.keys().index_of(x);
                        lemma_entry_in_map(self.entries@, p);
                        assert(self.keys()[p] == x);
                        if x == k {
                            assert(self.keys()[i as int] == k);
                            assert(new_keys.no_duplicates());
                            assert(p == i);
                        } else {
                            assert(keys_of(old_entries)[p] == x);
                            lemma_entry_in_map(old_entries, p);
                        }
                    }
                    assert(self@ =~= old_map.insert(k, value));
                }
            },
            None => {
                let ghost old_entries = self.entries@;
                let mut entries = Vec::new();
                std::mem::swap(&mut entries, &mut self.entries);
                entries.push((key, value));
                let ghost new_keys = keys_of(entries@);
                proof {
                    assert(new_keys =~= keys_of(old_entries).push(k));
                    assert(!keys_of(old_entries).contains(k));
                    assert(new_keys.no_duplicates()) by {
                        assert forall|a: int, b: int| 0 <= a < new_keys.len() && 0 <= b < new_keys.len() && a != b
                            implies new_keys[a] != new_keys[b] by {
                            if a == old_entries.len() as int {
                                assert(keys_of(old_entries)[b] == new_keys[b]);
                            } else if b == old_entries.len() as int {
                                assert(keys_of(old_entries)[a] == new_keys[a]);
                            }
                        }
                    }
                }
                self.entries = entries;
                proof {
                    assert forall|x: Seq<char>| #![auto] self@.contains_key(x) <==> old_map.insert(k, value).contains_key(x) by {
                        if x != k && old_map.contains_key(x) {
                            let p = keys_of(old_entries).index_of(x);
                            assert(keys_of(old_entries)[p] == x);
                            assert(self.keys()[p] == x);
                        }
                        if x != k && self@.contains_key(x) {
                            let p = self.keys().index_of(x);
                            assert(self.keys()[p] == x);
                            assert(keys_of(old_entries)[p] == x);
                        }
                        if x == k {
                            assert(self.keys()[old_entries.len() as int] == k);
                        }
                    }
                    assert forall|x: Seq<char>| #![auto] self@.contains_key(x) implies self@[x] == old_map.insert(k, value)[x] by {
                        let p = self.keys().index_of(x);
                        lemma_entry_in_map(self.entries@, p);
                        assert(self.keys()[p] == x);
                        if x == k {
                            assert(p == old_entries.len() as int);
                        } else {
                            assert(p < old_entries.len());
                            assert(keys_of(old_entries)[p] == x);
                            lemma_entry_in_map(old_entries, p);
                        }
                    }
                    assert(self@ =~= old_map.insert(k, value));
                }
            },
        }
    }

    /// Take out the value for `key`, if any, leaving the map without it.
    pub fn remove(&mut self, key: &str) -> (r: Option<V>)
        ensures
            r is None <==> !old(self)@.contains_key(key@),
            r matches Some(v) ==> v == old(self)@[key@],
            final(self)@ == old(self)@.remove(key@),
    {
        proof { use_type_invariant(&*self); }
        let ghost old_map = self@;
        let ghost old_entries = self.entries@;
        let k = String::from_str(key);
        match self.position(&k) {
            None => {
                assert(self@ =~= old_map.remove(key@));
                None
            },
            Some(i) => {
                proof { lemma_entry_in_map(old_entries, i as int); }
                let mut entries = Vec::new();
                std::mem::swap(&mut entries, &mut self.entries);
                let (_, v) = entries.remove(i);
                let ghost new_keys = keys_of(entries@);
                proof {
                    assert(new_keys =~= keys_of(old_entries).remove(i as int));
                    assert(new_keys.no_duplicates()) by {
                        assert forall|a: int, b: int| 0 <= a < new_keys.len() && 0 <= b < new_keys.len() && a != b
                            implies new_keys[a] != new_keys[b] by {
                            let a2 = if a < i { a } else { a + 1 };
                            let b2 = if b < i { b } else { b + 1 };
                            assert(new_keys[a] == keys_of(old_entries)[a2]);
                            assert(new_keys[b] == keys_of(old_entries)[b2]);
                        }
                    }
                }
                self.entries = entries;
                proof {
                    let kk = key@;
                    assert(keys_of(old_entries)[i as int] == kk);
                    assert forall|x: Seq<char>| #![auto] self@.contains_key(x) <==> old_map.remove(kk).contains_key(x) by {
                        if self@.contains_key(x) {
                            let p = self.keys().index_of(x);
                            assert(self.keys()[p] == x);
                            let p2 = if p < i { p } else { p + 1 };
                            assert(keys_of(old_entries)[p2] == x);
                            assert(p2 != i);
                        }
                        if x != kk && old_map.contains_key(x) {
                            let p = keys_of(old_entries).index_of(x);
                            assert(keys_of(old_entries)[p] == x);
                            assert(p != i);
                            let p2 = if p < i { p } else { p - 1 };
                            assert(self.keys()[p2] == x);
                        }
                    }
                    assert forall|x: Seq<char>| #![auto] self@.contains_key(x) implies self@[x] == old_map.remove(kk)[x] by {
                        let p = self.keys().index_of(x);
                        lemma_entry_in_map(self.entries@, p);
                        assert(self.keys()[p] == x);
                        let p2 = if p < i { p } else { p + 1 };
                        assert(keys_of(old_entries)[p2] == x);
                        lemma_entry_in_map(old_entries, p2);
                    }
                    assert(self@ =~= old_map.remove(kk));
                }
                Some(v)
            },
        }
    }

    /// The entry at position `i` (in the order of `keys`).
    pub fn entry_at(&self, i: usize) -> (r: (&String, &V))
        requires
            i < self.keys().len(),
        ensures
            r.0@ == self.keys()[i as int],
            *r.1 == self@[r.0@],
    {
        proof {
            use_type_invariant(self);
            lemma_entry_in_map(self.entries@, i as int);
        }
        let entry = &self.entries[i];
        (&entry.0, &entry.1)
    }

    /// The number of entries. The keys are distinct and are the map's keys.
    pub fn entry_count(&self) -> (n: usize)
        ensures
            n == self.keys().len(),
            n == self@.len(),
            self.keys().no_duplicates(),
            self.keys().to_set() == self@.dom(),
            forall|i: int| 0 <= i < self.keys().len() ==> self@.contains_key(#[trigger] self.keys()[i]),
    {
        proof {
            use_type_invariant(self);
            self.keys().unique_seq_to_set();
            assert(self@.dom() =~= self.keys().to_set());
            assert forall|i: int| 0 <= i < self.keys().len() implies self@.contains_key(#[trigger] self.keys()[i]) by {
                assert(self.keys().contains(self.keys()[i]));
            }
        }
        self.entries.len()
    }

    /// The number of keys.
    pub fn len(&self) -> (n: usize)
        ensures
            n == self@.len(),
    {
        proof {
            use_type_invariant(self);
            self.keys().unique_seq_to_set();
            assert(self@.dom() =~= self.keys().to_set());
            assert(self.keys().len() == self.entries@.len());
        }
        self.entries.len()
    }
}

impl<V> View for TextMap<V> {
    type V = Map<Seq<char>, V>;

    open spec fn view(&self) -> Map<Seq<char>, V> {
        self.as_map()
    }
}

/// The texts of `items`, in order.
pub open spec fn texts_of(items: Seq<String>) -> Seq<Seq<char>> {
    items.map_values(|t: String| t@)
}

/// A set of texts.
pub struct TextSet {
    items: Vec<String>,
}

impl TextSet {
    /// The texts, in the order they were added.
    pub closed spec fn texts(self) -> Seq<Seq<char>> {
        texts_of(self.items@)
    }

    #[verifier::type_invariant]
    spec fn texts_are_distinct(self) -> bool {
        self.texts().no_duplicates()
    }

    /// An empty set.
    pub fn new() -> (s: Self)
        ensures
            s@ == Set::<Seq<char>>::empty(),
    {
        let s = TextSet { items: Vec::new() };
        assert(s.texts() =~= Seq::<Seq<char>>::empty());
        assert(s@ =~= Set::<Seq<char>>::empty());
        s
    }

    /// Is `text` in the set?
    pub fn contains(&self, text: &String) -> (r: bool)
        ensures
            r == self@.contains(text@),
    {
        let mut i: usize = 0;
        while i < self.items.len()
            invariant
                i <= self.items@.len(),
                forall|j: int| 0 <= j < i ==> self.texts()[j] != text@,
            decreases self.items@.len() - i,
        {
            if self.items[i] == *text {
                assert(self.texts()[i as int] == text@);
                return true;
            }
            i = i + 1;
        }
        false
    }

    /// Add `text` to the set (nothing changes when it is there already).
    pub fn insert(&mut self, text: String)
        ensures
            final(self)@ == old(self)@.insert(text@),
    {
        proof { use_type_invariant(&*self); }
        if self.contains(&text) {
            assert(self@ =~= old(self)@.insert(text@));
            return;
        }
        let ghost old_texts = self.texts();
        let ghost t = text@;
        let mut items = Vec::new();
        std::mem::swap(&mut items, &mut self.items);
        items.push(text);
        proof {
            let new_texts = texts_of(items@);
            assert(new_texts =~= old_texts.push(t));
            assert(new_texts.no_duplicates()) by {
                assert forall|a: int, b: int| 0 <= a < new_texts.len() && 0 <= b < new_texts.len() && a != b
                    implies new_texts[a] != new_texts[b] by {
                    if a == old_texts.len() as int {
                        assert(old_texts[b] == new_texts[b]);
                    } else if b == old_texts.len() as int {
                        assert(old_texts[a] == new_texts[a]);
                    }
                }
            }
        }
        self.items = items;
        proof {
            assert(self.texts() =~= old_texts.push(t));
            Seq::lemma_to_set_insert_commutes(old_texts, t);
            assert(old_texts.push(t) =~= old_texts + seq![t]);
            assert(self@ =~= old_texts.to_set().insert(t));
        }
    }

    /// The number of texts in the set.
    pub fn len(&self) -> (n: usize)
        ensures
            n == self@.len(),
    {
        proof {
            use_type_invariant(self);
            self.texts().unique_seq_to_set();
        }
        self.items.len()
    }

    /// The texts of the set, each once.
    pub fn to_vec(&self) -> (v: Vec<String>)
        ensures
            texts_of(v@).to_set() == self@,
            texts_of(v@).no_duplicates(),
            v@.len() == self@.len(),
    {
        proof {
            use_type_invariant(self);
            self.texts().unique_seq_to_set();
        }
        let v = self.items.clone();
        proof {
            assert(texts_of(v@) =~= self.texts()) by {
                assert forall|i: int| 0 <= i < v@.len() implies v@[i]@ == self.items@[i]@ by {
                    assert(cloned::<String>(self.items[i], v[i]));
                }
            }
        }
        v
    }
}

impl View for TextSet {
    type V = Set<Seq<char>>;

    open spec fn view(&self) -> Set<Seq<char>> {
        self.texts().to_set()
    }
}

/// `m` with each of `entries` inserted in order (a later entry with the same
/// key replaces an earlier one).
pub open spec fn insert_all<V>(m: Map<Seq<char>, V>, entries: Seq<(Seq<char>, V)>) -> Map<Seq<char>, V>
    decreases entries.len(),
{
    if entries.len() == 0 {
        m
    } else {
        insert_all(m, entries.drop_last()).insert(entries.last().0, entries.last().1)
    }
}

/// Inserting entries whose keys are distinct into an empty map gives a map
/// that holds exactly those keys, each with its own value.
pub proof fn lemma_insert_all_distinct<V>(entries: Seq<(Seq<char>, V)>)
    requires
        forall|i: int, j: int| 0 <= i < j < entries.len() ==> (#[trigger] entries[i]).0 != (#[trigger] entries[j]).0,
    ensures
        forall|i: int| 0 <= i < entries.len() ==> insert_all(Map::empty(), entries).contains_key((#[trigger] entries[i]).0)
            && insert_all(Map::empty(), entries)[entries[i].0] == entries[i].1,
        forall|k: Seq<char>| insert_all(Map::empty(), entries).contains_key(k)
            ==> exists|i: int| 0 <= i < entries.len() && (#[trigger] entries[i]).0 == k,
    decreases entries.len(),
{
    if entries.len() > 0 {
        let rest = entries.drop_last();
        let n = entries.len() - 1;
        assert forall|i: int, j: int| 0 <= i < j < rest.len() implies (#[trigger] rest[i]).0 != (#[trigger] rest[j]).0 by {
            assert(rest[i] == entries[i] && rest[j] == entries[j]);
        }
        lemma_insert_all_distinct(rest);
        assert forall|i: int| 0 <= i < entries.len() implies insert_all(Map::empty(), entries).contains_key((#[trigger] entries[i]).0)
            && insert_all(Map::empty(), entries)[entries[i].0] == entries[i].1 by {
            if i < n {
                assert(rest[i] == entries[i]);
                assert(entries[i].0 != entries[n].0);
            }
        }
        assert forall|k: Seq<char>| insert_all(Map::empty(), entries).contains_key(k)
            implies exists|i: int| 0 <= i < entries.len() && (#[trigger] entries[i]).0 == k by {
            if k != entries[n].0 {
                assert(insert_all(Map::empty(), rest).contains_key(k));
                let i = choose|i: int| 0 <= i < rest.len() && (#[trigger] rest[i]).0 == k;
                assert(entries[i] == rest[i]);
            } else {
                assert(entries[n].0 == k);
            }
        }
    }
}

} // verus!
