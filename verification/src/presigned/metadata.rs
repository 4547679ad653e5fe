//! Named texts that an application attaches to an upload.

use vstd::prelude::*;
use vstd::string::*;

use crate::order;
use crate::text::to_chars;

verus! {

/// Texts under distinct names, in the order of the names.
#[derive(Debug)]
pub struct Metadata {
    entries: Vec<(String, String)>,
}

spec fn names(entries: Seq<(String, String)>) -> Seq<Seq<char>> {
    Seq::new(entries.len(), |i: int| entries[i].0@)
}

/// How two names stand to each other.
#[derive(Debug, Clone, Copy, PartialEq, Eq, Structural)]
enum NameOrder {
    Before,
    Same,
    After,
}

fn name_order(a: &[char], b: &[char]) -> (found: NameOrder)
    ensures
        match found {
            NameOrder::Before => order::before(order::char_less(), a@, b@),
            NameOrder::Same => a@ == b@,
            NameOrder::After => order::before(order::char_less(), b@, a@),
        },
{
    let mut k: usize = 0;
    while k < a.len() && k < b.len() && a[k] == b[k]
        invariant
            k <= a@.len(),
            k <= b@.len(),
            forall|j: int| 0 <= j < k ==> a@[j] == b@[j],
        decreases a@.len() - k,
    {
        k += 1;
    }
    if k < b.len() && (k == a.len() || a[k] < b[k]) {
        assert(order::before_at(order::char_less(), a@, b@, k as int));
        NameOrder::Before
    } else if k < a.len() {
        assert(order::before_at(order::char_less(), b@, a@, k as int));
        NameOrder::After
    } else {
        assert(a@ =~= b@);
        NameOrder::Same
    }
}

impl View for Metadata {
    type V = Map<Seq<char>, Seq<char>>;

    closed spec fn view(&self) -> Map<Seq<char>, Seq<char>> {
        Map::new(
            |name: Seq<char>| names(self.entries@).contains(name),
            |name: Seq<char>| self.entries@[names(self.entries@).index_of(name)].1@,
        )
    }
}

impl Metadata {
    /// Names are distinct and in order.
    #[verifier::type_invariant]
    spec fn wf(self) -> bool {
        order::in_order(order::char_less(), names(self.entries@))
    }

    /// The names in order.
    pub closed spec fn spec_names(self) -> Seq<Seq<char>> {
        names(self.entries@)
    }

    pub fn new() -> (metadata: Metadata)
        ensures
            metadata@ == Map::<Seq<char>, Seq<char>>::empty(),
    {
        let metadata = Metadata { entries: Vec::new() };
        assert(metadata@ =~= Map::empty());
        metadata
    }

    /// Sets the text under a name.
    pub fn insert(&mut self, name: String, value: String)
        ensures
            final(self)@ == old(self)@.insert(name@, value@),
    {
        proof {
            use_type_invariant(&*self);
        }
        let ghost before = *self;
        let ghost list = names(self.entries@);
        let ghost (n, v) = (name@, value@);
        let mut entries: Vec<(String, String)> = Vec::new();
        std::mem::swap(&mut entries, &mut self.entries);
        let wanted = to_chars(name.as_str());
        let mut i: usize = 0;
        while i < entries.len()
            invariant
                entries@ == before.entries@,
                list == names(entries@),
                wanted@ == n,
                i <= entries@.len(),
                forall|j: int|
                    0 <= j < i ==> order::before(order::char_less(), #[trigger] list[j], n),
            ensures
                entries@ == before.entries@,
                i <= entries@.len(),
                forall|j: int|
                    0 <= j < i ==> order::before(order::char_less(), #[trigger] list[j], n),
                i < entries@.len() ==> list[i as int] == n || order::before(
                    order::char_less(),
                    n,
                    list[i as int],
                ),
            decreases entries@.len() - i,
        {
            match name_order(to_chars(entries[i].0.as_str()).as_slice(), wanted.as_slice()) {
                NameOrder::Before => {
                    assert(list[i as int] == entries@[i as int].0@);
                    i += 1;
                },
                _ => {
                    assert(list[i as int] == entries@[i as int].0@);
                    break;
                },
            }
        }
        let replace = i < entries.len() && match name_order(
            to_chars(entries[i].0.as_str()).as_slice(),
            wanted.as_slice(),
        ) {
            NameOrder::Same => true,
            _ => false,
        };
        proof {
            if replace {
                assert(list[i as int] == n);
            } else {
                if i < list.len() && list[i as int] == n {
                    assert(order::before(order::char_less(), n, n));
                    order::lemma_before_is_strict(order::char_less(), n, n);
                }
                order::lemma_insert_in_order(order::char_less(), list, i as int, n);
            }
            lemma_distinct(list);
        }
        if replace {
            entries.set(i, (name, value));
        } else {
            entries.insert(i, (name, value));
        }
        proof {
            let new = names(entries@);
            if replace {
                assert(new =~= list);
            } else {
                assert(new =~= list.insert(i as int, n));
            }
            lemma_distinct(new);
            assert(new[i as int] == n);
            assert forall|k: Seq<char>| #[trigger] new.contains(k) <==> list.contains(k) || k
                == n by {
                if replace {
                    assert(list.contains(n)) by {
                        assert(list[i as int] == n);
                    }
                }
            }
            assert forall|k: Seq<char>| k != n && #[trigger] list.contains(k) implies entries@[new.index_of(
                k,
            )].1@ == before.entries@[list.index_of(k)].1@ by {
                let a = list.index_of(k);
                assert(list[a] == k);
                let b = if replace || a < i {
                    a
                } else {
                    a + 1
                };
                assert(new[b] == k);
                assert(new.contains(k));
                assert(new.index_of(k) == b);
            }
            assert(new.index_of(n) == i);
        }
        self.entries = entries;
        assert(self@ =~= before@.insert(n, v));
    }

    /// The text under a name, if there is one.
    pub fn get(&self, name: &str) -> (value: Option<&str>)
        ensures
            value is Some == self@.contains_key(name@),
            value matches Some(value) ==> value@ == self@[name@],
    {
        proof {
            use_type_invariant(self);
            lemma_distinct(names(self.entries@));
        }
        let wanted = to_chars(name);
        let ghost list = names(self.entries@);
        let mut i: usize = 0;
        while i < self.entries.len()
            invariant
                list == names(self.entries@),
                list.no_duplicates(),
                wanted@ == name@,
                i <= self.entries@.len(),
                forall|j: int| 0 <= j < i ==> #[trigger] list[j] != name@,
            decreases self.entries@.len() - i,
        {
            match name_order(to_chars(self.entries[i].0.as_str()).as_slice(), wanted.as_slice()) {
                NameOrder::Same => {
                    assert(list[i as int] == name@);
                    assert(list.contains(name@));
                    assert(list.index_of(name@) == i);
                    return Some(self.entries[i].1.as_str());
                },
                NameOrder::Before => {
                    proof {
                        order::lemma_before_is_strict(order::char_less(), list[i as int], name@);
                    }
                },
                NameOrder::After => {
                    proof {
                        order::lemma_before_is_strict(order::char_less(), name@, list[i as int]);
                    }
                },
            }
            i += 1;
        }
        None
    }

    pub fn len(&self) -> (len: usize)
        ensures
            len == self.spec_names().len(),
            order::in_order(order::char_less(), self.spec_names()),
            forall|name: Seq<char>| #[trigger]
                self@.contains_key(name) <==> self.spec_names().contains(name),
    {
        proof {
            use_type_invariant(self);
        }
        self.entries.len()
    }

    /// The name and text at a place in the order of names.
    pub fn entry(&self, at: usize) -> (entry: (&str, &str))
        requires
            at < self.spec_names().len(),
        ensures
            entry.0@ == self.spec_names()[at as int],
            self@.contains_key(entry.0@),
            entry.1@ == self@[entry.0@],
    {
        proof {
            use_type_invariant(self);
            let list = names(self.entries@);
            lemma_distinct(list);
            assert(list.contains(list[at as int]));
            assert(list.index_of(list[at as int]) == at);
        }
        (self.entries[at].0.as_str(), self.entries[at].1.as_str())
    }
}

/// Names in order are distinct.
proof fn lemma_distinct(list: Seq<Seq<char>>)
    requires
        order::in_order(order::char_less(), list),
    ensures
        list.no_duplicates(),
{
    assert forall|i: int, j: int| 0 <= i < list.len() && 0 <= j < list.len() && i != j implies list[i]
        != list[j] by {
        if i < j {
            order::lemma_before_is_strict(order::char_less(), list[i], list[j]);
        } else {
            order::lemma_before_is_strict(order::char_less(), list[j], list[i]);
        }
    }
}

} // verus!
