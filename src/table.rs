//! An ordered string-to-string table with unique keys: the `DN -> SID` and `SID -> type`
//! indices that the collector builds while parsing.

use vstd::prelude::*;
use crate::text::{first_index, lemma_first_index, lemma_first_index_bounds, same_text, str_contains, is_infix};

verus! {

pub type Entries = Seq<(Seq<char>, Seq<char>)>;

pub open spec fn key_is(k: Seq<char>) -> spec_fn((Seq<char>, Seq<char>)) -> bool {
    |e: (Seq<char>, Seq<char>)| e.0 == k
}

pub open spec fn value_is(v: Seq<char>) -> spec_fn((Seq<char>, Seq<char>)) -> bool {
    |e: (Seq<char>, Seq<char>)| e.1 == v
}

pub open spec fn key_holds(part: Seq<char>) -> spec_fn((Seq<char>, Seq<char>)) -> bool {
    |e: (Seq<char>, Seq<char>)| is_infix(part, e.0)
}

/// No key occurs twice.
pub open spec fn keys_unique(t: Entries) -> bool {
    forall|i: int, j: int| 0 <= i < j < t.len() ==> #[trigger] t[i].0 != #[trigger] t[j].0
}

/// The value stored under `k`.
pub open spec fn lookup(t: Entries, k: Seq<char>) -> Option<Seq<char>> {
    let i = first_index(t, key_is(k));
    if i < t.len() {
        Some(t[i].1)
    } else {
        None
    }
}

/// The first key (in table order) whose value is `v`.
pub open spec fn reverse_lookup(t: Entries, v: Seq<char>) -> Option<Seq<char>> {
    let i = first_index(t, value_is(v));
    if i < t.len() {
        Some(t[i].0)
    } else {
        None
    }
}

/// The value of the first entry (in table order) whose key contains `part`.
pub open spec fn lookup_containing(t: Entries, part: Seq<char>) -> Option<Seq<char>> {
    let i = first_index(t, key_holds(part));
    if i < t.len() {
        Some(t[i].1)
    } else {
        None
    }
}

/// The value stored under `k`, or `default` when there is none.
pub open spec fn lookup_or(t: Entries, k: Seq<char>, default: Seq<char>) -> Seq<char> {
    match lookup(t, k) {
        Some(v) => v,
        None => default,
    }
}

/// The table after storing `v` under `k`: the value is replaced in place when `k` is present.
pub open spec fn store(t: Entries, k: Seq<char>, v: Seq<char>) -> Entries {
    let i = first_index(t, key_is(k));
    if i < t.len() {
        t.update(i, (k, v))
    } else {
        t.push((k, v))
    }
}

pub open spec fn entries_view(v: Seq<(String, String)>) -> Entries {
    v.map_values(|e: (String, String)| (e.0@, e.1@))
}

/// Kept as a vector of pairs rather than a `HashMap<String, String>`: vstd specifies hash maps
/// only for keys that obey its key model, which `String` does not, and the passes that take the
/// first matching entry need a fixed order.
pub struct StringTable {
    entries: Vec<(String, String)>,
}

impl View for StringTable {
    type V = Entries;

    closed spec fn view(&self) -> Entries {
        entries_view(self.entries@)
    }
}

impl StringTable {
    /// Well-formed: no key occurs twice.
    pub open spec fn wf(&self) -> bool {
        keys_unique(self@)
    }

    pub fn new() -> (r: Self)
        ensures
            r@ == Seq::<(Seq<char>, Seq<char>)>::empty(),
            r.wf(),
    {
        let r = StringTable { entries: Vec::new() };
        assert(r@ =~= Seq::<(Seq<char>, Seq<char>)>::empty());
        r
    }

    pub fn len(&self) -> (r: usize)
        ensures
            r == self@.len(),
    {
        self.entries.len()
    }

    pub fn key_at(&self, i: usize) -> (r: &String)
        requires
            i < self@.len(),
        ensures
            r@ == self@[i as int].0,
    {
        &self.entries[i].0
    }

    pub fn value_at(&self, i: usize) -> (r: &String)
        requires
            i < self@.len(),
        ensures
            r@ == self@[i as int].1,
    {
        &self.entries[i].1
    }

    /// Position of the entry whose key is `k`; the length when there is none.
    pub fn position(&self, k: &str) -> (r: usize)
        ensures
            r == first_index(self@, key_is(k@)),
            r <= self@.len(),
    {
        let mut i: usize = 0;
        while i < self.entries.len()
            invariant
                i <= self@.len(),
                forall|j: int| 0 <= j < i ==> !key_is(k@)(#[trigger] self@[j]),
            decreases self@.len() - i,
        {
            assert(self@[i as int] == (self.entries@[i as int].0@, self.entries@[i as int].1@));
            if same_text(self.entries[i].0.as_str(), k) {
                proof {
                    lemma_first_index(self@, key_is(k@), i as int);
                }
                return i;
            }
            i += 1;
        }
        proof {
            lemma_first_index(self@, key_is(k@), i as int);
        }
        i
    }

    /// The value stored under `k`.
    pub fn get(&self, k: &str) -> (r: Option<&String>)
        ensures
            match r {
                Some(v) => lookup(self@, k@) == Some(v@),
                None => lookup(self@, k@) is None,
            },
    {
        let i = self.position(k);
        if i < self.entries.len() {
            Some(&self.entries[i].1)
        } else {
            None
        }
    }

    /// The first key whose value is `v`.
    pub fn find_key(&self, v: &str) -> (r: Option<&String>)
        ensures
            match r {
                Some(k) => reverse_lookup(self@, v@) == Some(k@),
                None => reverse_lookup(self@, v@) is None,
            },
    {
        let mut i: usize = 0;
        while i < self.entries.len()
            invariant
                i <= self@.len(),
                forall|j: int| 0 <= j < i ==> !value_is(v@)(#[trigger] self@[j]),
            decreases self@.len() - i,
        {
            assert(self@[i as int] == (self.entries@[i as int].0@, self.entries@[i as int].1@));
            if same_text(self.entries[i].1.as_str(), v) {
                proof {
                    lemma_first_index(self@, value_is(v@), i as int);
                }
                return Some(&self.entries[i].0);
            }
            i += 1;
        }
        proof {
            lemma_first_index(self@, value_is(v@), i as int);
        }
        None
    }

    /// The value of the first entry whose key contains `part`.
    pub fn find_containing(&self, part: &str) -> (r: Option<&String>)
        ensures
            match r {
                Some(v) => lookup_containing(self@, part@) == Some(v@),
                None => lookup_containing(self@, part@) is None,
            },
    {
        let mut i: usize = 0;
        while i < self.entries.len()
            invariant
                i <= self@.len(),
                forall|j: int| 0 <= j < i ==> !key_holds(part@)(#[trigger] self@[j]),
            decreases self@.len() - i,
        {
            assert(self@[i as int] == (self.entries@[i as int].0@, self.entries@[i as int].1@));
            if str_contains(self.entries[i].0.as_str(), part) {
                proof {
                    lemma_first_index(self@, key_holds(part@), i as int);
                }
                return Some(&self.entries[i].1);
            }
            i += 1;
        }
        proof {
            lemma_first_index(self@, key_holds(part@), i as int);
        }
        None
    }

    /// Stores `v` under `k`, replacing the value in place when `k` is already present.
    pub fn insert(&mut self, k: String, v: String)
        requires
            old(self).wf(),
        ensures
            final(self)@ == store(old(self)@, k@, v@),
            final(self).wf(),
    {
        proof {
            lemma_first_index_bounds(self@, key_is(k@));
        }
        let i = self.position(k.as_str());
        let ghost before = self@;
        if i < self.entries.len() {
            self.entries.set(i, (k, v));
            proof {
                assert(self@ =~= before.update(i as int, (k@, v@)));
            }
        } else {
            self.entries.push((k, v));
            proof {
                assert(self@ =~= before.push((k@, v@)));
            }
        }
    }
}

} // verus!
