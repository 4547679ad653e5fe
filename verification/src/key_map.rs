//! A map from transfer keys to values, kept in insertion order, and the set
//! that goes with it.

use vstd::prelude::*;

use crate::direction;
use crate::direction::{copy_key, same_key, KeyView, UniqueId};

verus! {

/// A map with [`UniqueId`] keys.
pub struct KeyMap<V> {
    entries: Vec<(UniqueId, V)>,
}

/// No key occurs twice.
spec fn distinct_keys<V>(entries: Seq<(UniqueId, V)>) -> bool {
    forall|i: int, j: int|
        0 <= i < j < entries.len() ==> direction::key_view((#[trigger] entries[i]).0)
            != direction::key_view((#[trigger] entries[j]).0)
}

/// Whether entry `i` is the one of `key`.
spec fn entry_of<V>(entries: Seq<(UniqueId, V)>, key: KeyView, i: int) -> bool {
    0 <= i < entries.len() && direction::key_view(entries[i].0) == key
}

spec fn entries_map<V>(entries: Seq<(UniqueId, V)>) -> Map<KeyView, V> {
    Map::new(
        |key: KeyView| exists|i: int| entry_of(entries, key, i),
        |key: KeyView| entries[choose|i: int| entry_of(entries, key, i)].1,
    )
}

proof fn lemma_entry<V>(entries: Seq<(UniqueId, V)>, i: int)
    requires
        distinct_keys(entries),
        0 <= i < entries.len(),
    ensures
        entries_map(entries).contains_key(direction::key_view(entries[i].0)),
        entries_map(entries)[direction::key_view(entries[i].0)] == entries[i].1,
{
    let key = direction::key_view(entries[i].0);
    assert(entry_of(entries, key, i));
    let c = choose|c: int| entry_of(entries, key, c);
    assert(entry_of(entries, key, c));
    assert(c == i);
}

proof fn lemma_absent<V>(entries: Seq<(UniqueId, V)>, key: KeyView)
    requires
        forall|i: int| 0 <= i < entries.len() ==> direction::key_view(#[trigger] entries[i].0) != key,
    ensures
        !entries_map(entries).contains_key(key),
{
}

proof fn lemma_finite<V>(entries: Seq<(UniqueId, V)>)
    requires
        distinct_keys(entries),
    ensures
        entries_map(entries).dom().finite(),
        entries_map(entries).dom().len() == entries.len(),
    decreases entries.len(),
{
    if entries.len() == 0 {
        assert(entries_map(entries).dom() =~= Set::empty());
    } else {
        let rest = entries.drop_last();
        lemma_finite(rest);
        let key = direction::key_view(entries.last().0);
        assert forall|k: KeyView|
            #![trigger entries_map(entries).dom().contains(k)]
            #![trigger entries_map(rest).dom().contains(k)]
            entries_map(entries).dom().contains(k) == (entries_map(rest).dom().contains(k) || k
                == key) by {
            if entries_map(rest).dom().contains(k) {
                let i = choose|i: int| entry_of(rest, k, i);
                assert(entry_of(entries, k, i));
            }
            if k == key {
                assert(entry_of(entries, k, entries.len() - 1));
            }
            if entries_map(entries).dom().contains(k) && k != key {
                let i = choose|i: int| entry_of(entries, k, i);
                assert(entry_of(rest, k, i));
            }
        }
        assert(entries_map(entries).dom() =~= entries_map(rest).dom().insert(key));
        lemma_absent(rest, key);
    }
}

proof fn lemma_pushed<V>(entries: Seq<(UniqueId, V)>, entry: (UniqueId, V))
    requires
        distinct_keys(entries),
        !entries_map(entries).contains_key(direction::key_view(entry.0)),
    ensures
        distinct_keys(entries.push(entry)),
        entries_map(entries.push(entry)) == entries_map(entries).insert(
            direction::key_view(entry.0),
            entry.1,
        ),
{
    let after = entries.push(entry);
    let key = direction::key_view(entry.0);
    assert forall|i: int| 0 <= i < entries.len() implies direction::key_view(
        (#[trigger] entries[i]).0,
    ) != key by {
        lemma_entry(entries, i);
    }
    assert(distinct_keys(after)) by {
        assert forall|i: int, j: int| 0 <= i < j < after.len() implies direction::key_view(
            (#[trigger] after[i]).0,
        ) != direction::key_view((#[trigger] after[j]).0) by {
            assert(after[i] == entries[i]);
            if j < entries.len() {
                assert(after[j] == entries[j]);
            }
        }
    }
    assert forall|q: KeyView| #[trigger] entries_map(after).contains_key(q) == entries_map(
        entries,
    ).insert(key, entry.1).contains_key(q) && (entries_map(after).contains_key(q) ==> entries_map(
        after,
    )[q] == entries_map(entries).insert(key, entry.1)[q]) by {
        if entries_map(after).contains_key(q) {
            let i = choose|i: int| entry_of(after, q, i);
            lemma_entry(after, i);
            if i < entries.len() {
                assert(after[i] == entries[i]);
                lemma_entry(entries, i);
            }
        }
        if entries_map(entries).contains_key(q) {
            let i = choose|i: int| entry_of(entries, q, i);
            assert(after[i] == entries[i]);
            lemma_entry(after, i);
        }
        if q == key {
            assert(after[entries.len() as int] == entry);
            lemma_entry(after, entries.len() as int);
        }
    }
    assert(entries_map(after) =~= entries_map(entries).insert(key, entry.1));
}

proof fn lemma_updated<V>(entries: Seq<(UniqueId, V)>, at: int, entry: (UniqueId, V))
    requires
        distinct_keys(entries),
        0 <= at < entries.len(),
        direction::key_view(entries[at].0) == direction::key_view(entry.0),
    ensures
        distinct_keys(entries.update(at, entry)),
        entries_map(entries.update(at, entry)) == entries_map(entries).insert(
            direction::key_view(entry.0),
            entry.1,
        ),
{
    let after = entries.update(at, entry);
    let key = direction::key_view(entry.0);
    assert forall|i: int| 0 <= i < after.len() implies direction::key_view((#[trigger] after[i]).0)
        == direction::key_view(entries[i].0) by {}
    assert(distinct_keys(after)) by {
        assert forall|i: int, j: int| 0 <= i < j < after.len() implies direction::key_view(
            (#[trigger] after[i]).0,
        ) != direction::key_view((#[trigger] after[j]).0) by {
            assert(direction::key_view(entries[i].0) != direction::key_view(entries[j].0));
        }
    }
    assert forall|q: KeyView| #[trigger] entries_map(after).contains_key(q) == entries_map(
        entries,
    ).insert(key, entry.1).contains_key(q) && (entries_map(after).contains_key(q) ==> entries_map(
        after,
    )[q] == entries_map(entries).insert(key, entry.1)[q]) by {
        if entries_map(after).contains_key(q) {
            let i = choose|i: int| entry_of(after, q, i);
            lemma_entry(after, i);
            lemma_entry(entries, i);
            if q == key {
                lemma_entry(entries, at);
                assert(i == at);
            }
        }
        if entries_map(entries).contains_key(q) {
            let i = choose|i: int| entry_of(entries, q, i);
            assert(direction::key_view(after[i].0) == q);
            lemma_entry(after, i);
        }
        if q == key {
            lemma_entry(after, at);
        }
    }
    assert(entries_map(after) =~= entries_map(entries).insert(key, entry.1));
}

proof fn lemma_removed<V>(entries: Seq<(UniqueId, V)>, at: int)
    requires
        distinct_keys(entries),
        0 <= at < entries.len(),
    ensures
        distinct_keys(entries.remove(at)),
        entries_map(entries.remove(at)) == entries_map(entries).remove(
            direction::key_view(entries[at].0),
        ),
{
    let after = entries.remove(at);
    let key = direction::key_view(entries[at].0);
    assert forall|i: int| 0 <= i < after.len() implies (#[trigger] after[i]) == entries[if i < at {
        i
    } else {
        i + 1
    }] by {}
    assert(distinct_keys(after)) by {
        assert forall|i: int, j: int| 0 <= i < j < after.len() implies direction::key_view(
            (#[trigger] after[i]).0,
        ) != direction::key_view((#[trigger] after[j]).0) by {
            let a = if i < at { i } else { i + 1 };
            let b = if j < at { j } else { j + 1 };
            assert(direction::key_view(entries[a].0) != direction::key_view(entries[b].0));
        }
    }
    assert forall|q: KeyView| #[trigger] entries_map(after).contains_key(q) == entries_map(
        entries,
    ).remove(key).contains_key(q) && (entries_map(after).contains_key(q) ==> entries_map(after)[q]
        == entries_map(entries).remove(key)[q]) by {
        if entries_map(after).contains_key(q) {
            let i = choose|i: int| entry_of(after, q, i);
            let a = if i < at { i } else { i + 1 };
            assert(after[i] == entries[a]);
            lemma_entry(after, i);
            lemma_entry(entries, a);
            if q == key {
                assert(direction::key_view(entries[a].0) == direction::key_view(entries[at].0));
            }
        }
        if entries_map(entries).contains_key(q) && q != key {
            let a = choose|i: int| entry_of(entries, q, i);
            let i = if a < at { a } else { a - 1 };
            assert(after[i] == entries[a]);
            lemma_entry(after, i);
        }
    }
    assert(entries_map(after) =~= entries_map(entries).remove(key));
}

/// Whether `keys` names every key of `dom`, and nothing else, each once.
pub open spec fn lists_keys(keys: Seq<UniqueId>, dom: Set<KeyView>) -> bool {
    &&& forall|i: int|
        0 <= i < keys.len() ==> dom.contains(direction::key_view(#[trigger] keys[i]))
    &&& forall|k: KeyView|
        dom.contains(k) ==> exists|i: int|
            0 <= i < keys.len() && direction::key_view(#[trigger] keys[i]) == k
    &&& forall|i: int, j: int|
        0 <= i < j < keys.len() ==> direction::key_view(#[trigger] keys[i]) != direction::key_view(
            #[trigger] keys[j],
        )
}

impl<V> View for KeyMap<V> {
    type V = Map<KeyView, V>;

    closed spec fn view(&self) -> Map<KeyView, V> {
        entries_map(self.entries@)
    }
}

impl<V> KeyMap<V> {
    #[verifier::type_invariant]
    spec fn inv(self) -> bool {
        distinct_keys(self.entries@)
    }

    pub fn new() -> (map: KeyMap<V>)
        ensures
            map@ == Map::<KeyView, V>::empty(),
    {
        let map = KeyMap { entries: Vec::new() };
        assert(map@ =~= Map::empty());
        map
    }

    /// The number of keys.
    pub fn len(&self) -> (len: usize)
        ensures
            self@.dom().finite(),
            len == self@.dom().len(),
    {
        proof {
            use_type_invariant(self);
            lemma_finite(self.entries@);
        }
        self.entries.len()
    }

    pub fn is_empty(&self) -> (empty: bool)
        ensures
            empty == (self@ == Map::<KeyView, V>::empty()),
            empty == (self@.dom().len() == 0),
            self@.dom().finite(),
    {
        proof {
            use_type_invariant(self);
            lemma_finite(self.entries@);
            if self@.dom().len() == 0 {
                assert(self@.dom() =~= Set::empty());
                assert(self@ =~= Map::empty());
            }
        }
        self.entries.len() == 0
    }

    fn position(&self, key: &UniqueId) -> (at: Option<usize>)
        ensures
            match at {
                Some(i) => i < self.entries@.len() && direction::key_view(self.entries@[i as int].0)
                    == direction::key_view(*key),
                None => forall|i: int|
                    0 <= i < self.entries@.len() ==> direction::key_view(
                        #[trigger] self.entries@[i].0,
                    ) != direction::key_view(*key),
            },
    {
        let mut i: usize = 0;
        while i < self.entries.len()
            invariant
                i <= self.entries@.len(),
                forall|j: int|
                    0 <= j < i ==> direction::key_view(#[trigger] self.entries@[j].0)
                        != direction::key_view(*key),
            decreases self.entries@.len() - i,
        {
            if same_key(&self.entries[i].0, key) {
                return Some(i);
            }
            i += 1;
        }
        None
    }

    pub fn contains_key(&self, key: &UniqueId) -> (contains: bool)
        ensures
            contains == self@.contains_key(direction::key_view(*key)),
    {
        proof {
            use_type_invariant(self);
        }
        match self.position(key) {
            Some(i) => {
                proof {
                    lemma_entry(self.entries@, i as int);
                }
                true
            },
            None => {
                proof {
                    lemma_absent(self.entries@, direction::key_view(*key));
                }
                false
            },
        }
    }

    pub fn get(&self, key: &UniqueId) -> (value: Option<&V>)
        ensures
            match value {
                Some(v) => self@.contains_key(direction::key_view(*key))
                    && *v == self@[direction::key_view(*key)],
                None => !self@.contains_key(direction::key_view(*key)),
            },
    {
        proof {
            use_type_invariant(self);
        }
        match self.position(key) {
            Some(i) => {
                proof {
                    lemma_entry(self.entries@, i as int);
                }
                Some(&self.entries[i].1)
            },
            None => {
                proof {
                    lemma_absent(self.entries@, direction::key_view(*key));
                }
                None
            },
        }
    }

    /// All keys, each once, in the order in which they were inserted.
    pub fn keys(&self) -> (keys: Vec<UniqueId>)
        ensures
            lists_keys(keys@, self@.dom()),
    {
        proof {
            use_type_invariant(self);
        }
        let mut keys: Vec<UniqueId> = Vec::new();
        let mut i: usize = 0;
        while i < self.entries.len()
            invariant
                i <= self.entries@.len(),
                keys@.len() == i,
                forall|j: int| 0 <= j < i ==> #[trigger] keys@[j] == self.entries@[j].0,
            decreases self.entries@.len() - i,
        {
            keys.push(copy_key(&self.entries[i].0));
            i += 1;
        }
        proof {
            assert forall|k: KeyView| self@.dom().contains(k) implies exists|j: int|
                0 <= j < keys@.len() && direction::key_view(#[trigger] keys@[j]) == k by {
                let j = choose|j: int| entry_of(self.entries@, k, j);
                assert(direction::key_view(keys@[j]) == k);
            }
            assert forall|j: int| 0 <= j < keys@.len() implies self@.dom().contains(
                direction::key_view(#[trigger] keys@[j]),
            ) by {
                lemma_entry(self.entries@, j);
            }
            assert forall|a: int, b: int| 0 <= a < b < keys@.len() implies direction::key_view(
                #[trigger] keys@[a],
            ) != direction::key_view(#[trigger] keys@[b]) by {
                assert(keys@[a] == self.entries@[a].0 && keys@[b] == self.entries@[b].0);
            }
        }
        keys
    }

    /// Removes a key and hands out what it was mapped to.
    pub fn remove(&mut self, key: &UniqueId) -> (removed: Option<V>)
        ensures
            final(self)@ == old(self)@.remove(direction::key_view(*key)),
            match removed {
                Some(v) => old(self)@.contains_key(direction::key_view(*key))
                    && v == old(self)@[direction::key_view(*key)],
                None => !old(self)@.contains_key(direction::key_view(*key)),
            },
    {
        proof {
            use_type_invariant(&*self);
        }
        match self.position(key) {
            Some(i) => {
                let ghost old_entries = self.entries@;
                let mut entries: Vec<(UniqueId, V)> = Vec::new();
                std::mem::swap(&mut entries, &mut self.entries);
                let (_, value) = entries.remove(i);
                proof {
                    lemma_entry(old_entries, i as int);
                    lemma_removed(old_entries, i as int);
                }
                self.entries = entries;
                Some(value)
            },
            None => {
                proof {
                    let k = direction::key_view(*key);
                    lemma_absent(self.entries@, k);
                    assert(self@ =~= self@.remove(k));
                }
                None
            },
        }
    }

    /// Maps a key to a value; a key that was there keeps its place.
    pub fn insert(&mut self, key: UniqueId, value: V)
        ensures
            final(self)@ == old(self)@.insert(direction::key_view(key), value),
    {
        proof {
            use_type_invariant(&*self);
        }
        let ghost old_entries = self.entries@;
        let ghost k = direction::key_view(key);
        match self.position(&key) {
            Some(i) => {
                let mut entries: Vec<(UniqueId, V)> = Vec::new();
                std::mem::swap(&mut entries, &mut self.entries);
                entries.set(i, (key, value));
                proof {
                    lemma_entry(old_entries, i as int);
                    lemma_updated(old_entries, i as int, (key, value));
                }
                self.entries = entries;
            },
            None => {
                let mut entries: Vec<(UniqueId, V)> = Vec::new();
                std::mem::swap(&mut entries, &mut self.entries);
                entries.push((key, value));
                proof {
                    lemma_absent(old_entries, k);
                    lemma_pushed(old_entries, (key, value));
                }
                self.entries = entries;
            },
        }
    }

    pub fn clear(&mut self)
        ensures
            final(self)@ == Map::<KeyView, V>::empty(),
    {
        self.entries = Vec::new();
        assert(self@ =~= Map::empty());
    }
}

/// A set of transfer keys.
pub struct KeySet {
    members: KeyMap<()>,
}

impl View for KeySet {
    type V = Set<KeyView>;

    closed spec fn view(&self) -> Set<KeyView> {
        self.members@.dom()
    }
}

impl KeySet {
    pub fn new() -> (set: KeySet)
        ensures
            set@ == Set::<KeyView>::empty(),
    {
        let set = KeySet { members: KeyMap::new() };
        assert(set@ =~= Set::empty());
        set
    }

    pub fn contains(&self, key: &UniqueId) -> (contains: bool)
        ensures
            contains == self@.contains(direction::key_view(*key)),
    {
        self.members.contains_key(key)
    }

    pub fn len(&self) -> (len: usize)
        ensures
            self@.finite(),
            len == self@.len(),
    {
        self.members.len()
    }

    pub fn insert(&mut self, key: UniqueId)
        ensures
            final(self)@ == old(self)@.insert(direction::key_view(key)),
    {
        self.members.insert(key, ());
        assert(self@ =~= old(self)@.insert(direction::key_view(key)));
    }

    pub fn remove(&mut self, key: &UniqueId)
        ensures
            final(self)@ == old(self)@.remove(direction::key_view(*key)),
    {
        let _ = self.members.remove(key);
        assert(self@ =~= old(self)@.remove(direction::key_view(*key)));
    }

    pub fn clear(&mut self)
        ensures
            final(self)@ == Set::<KeyView>::empty(),
    {
        self.members.clear();
        assert(self@ =~= Set::empty());
    }
}

} // verus!
