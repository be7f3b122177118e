//! The values of a multi-value attribute: a finite map from keys to optional
//! texts, such as the groups of an access provider.

use vstd::prelude::*;

verus! {

/// The characters of an optional text.
pub open spec fn text_of(text: Option<String>) -> Option<Seq<char>> {
    match text {
        Some(s) => Some(s@),
        None => None,
    }
}

/// Whether the entry at `i` exists and has the key `key`.
pub open spec fn has_key_at(
    entries: Seq<(String, Option<String>)>,
    i: int,
    key: Seq<char>,
) -> bool {
    0 <= i < entries.len() && entries[i].0@ == key
}

/// Whether no two entries have the same key.
pub open spec fn distinct_keys(entries: Seq<(String, Option<String>)>) -> bool {
    forall|i: int, j: int|
        0 <= i < j < entries.len() ==> (#[trigger] entries[i]).0@ != (#[trigger] entries[j]).0@
}

/// Whether `entries` lists the map `map`: each key once, with its value, and
/// nothing else.
pub open spec fn lists(
    entries: Seq<(String, Option<String>)>,
    map: Map<Seq<char>, Option<Seq<char>>>,
) -> bool {
    &&& distinct_keys(entries)
    &&& forall|i: int|
        0 <= i < entries.len() ==> map.contains_key((#[trigger] entries[i]).0@) && map[entries[i].0@]
            == text_of(entries[i].1)
    &&& forall|key: Seq<char>|
        map.contains_key(key) ==> exists|i: int| #[trigger] has_key_at(entries, i, key)
}

/// Whether each key of `a` is a key of `b`, with the same value.
spec fn is_within(a: Map<Seq<char>, Option<Seq<char>>>, b: Map<Seq<char>, Option<Seq<char>>>) -> bool {
    forall|key: Seq<char>| #[trigger] a.dom().contains(key) ==> b.dom().contains(key) && b[key] == a[key]
}

/// A finite map from keys to optional texts. No key occurs twice.
#[derive(Debug)]
pub struct KeyValue {
    entries: Vec<(String, Option<String>)>,
}

impl View for KeyValue {
    type V = Map<Seq<char>, Option<Seq<char>>>;

    closed spec fn view(&self) -> Map<Seq<char>, Option<Seq<char>>> {
        Map::new(
            |key: Seq<char>| exists|i: int| has_key_at(self.entries@, i, key),
            |key: Seq<char>|
                text_of(self.entries@[choose|i: int| has_key_at(self.entries@, i, key)].1),
        )
    }
}

/// A copy of an optional text.
pub fn clone_text(text: &Option<String>) -> (copy: Option<String>)
    ensures
        copy == *text,
{
    match text {
        Some(s) => Some(s.clone()),
        None => None,
    }
}

/// Whether two optional texts have the same characters.
pub fn same_text(a: &Option<String>, b: &Option<String>) -> (same: bool)
    ensures
        same == (text_of(*a) == text_of(*b)),
{
    match (a, b) {
        (Some(x), Some(y)) => *x == *y,
        (None, None) => true,
        _ => false,
    }
}

impl KeyValue {
    #[verifier::type_invariant]
    spec fn well_formed(&self) -> bool {
        distinct_keys(self.entries@)
    }

    /// The entries list the map that the value stands for.
    proof fn lemma_entries_list_view(&self)
        requires
            distinct_keys(self.entries@),
        ensures
            lists(self.entries@, self@),
    {
        let entries = self.entries@;
        assert forall|i: int| 0 <= i < entries.len() implies self@.contains_key(
            (#[trigger] entries[i]).0@,
        ) && self@[entries[i].0@] == text_of(entries[i].1) by {
            let key = entries[i].0@;
            assert(has_key_at(entries, i, key));
            let j = choose|j: int| has_key_at(entries, j, key);
            assert(j == i);
        }
    }

    /// The map without any key.
    pub fn new() -> (map: KeyValue)
        ensures
            map@ == Map::<Seq<char>, Option<Seq<char>>>::empty(),
    {
        let map = KeyValue { entries: Vec::new() };
        assert(map@ =~= Map::<Seq<char>, Option<Seq<char>>>::empty());
        map
    }

    /// Where the key stands among the entries, if it does.
    fn position(&self, key: &String) -> (at: Option<usize>)
        ensures
            match at {
                Some(i) => has_key_at(self.entries@, i as int, key@),
                None => forall|i: int| !has_key_at(self.entries@, i, key@),
            },
    {
        let mut i: usize = 0;
        while i < self.entries.len()
            invariant
                i <= self.entries@.len(),
                forall|j: int| 0 <= j < i ==> !has_key_at(self.entries@, j, key@),
            decreases self.entries@.len() - i,
        {
            if self.entries[i].0 == *key {
                return Some(i);
            }
            i += 1;
        }
        None
    }

    /// Whether the map has the key.
    pub fn contains_key(&self, key: &str) -> (found: bool)
        ensures
            found == self@.contains_key(key@),
    {
        let key: String = key.to_owned();
        self.position(&key).is_some()
    }

    /// The value under the key, if the map has the key.
    pub fn get(&self, key: &str) -> (value: Option<&Option<String>>)
        ensures
            match value {
                Some(v) => self@.contains_key(key@) && self@[key@] == text_of(*v),
                None => !self@.contains_key(key@),
            },
    {
        proof {
            use_type_invariant(self);
            self.lemma_entries_list_view();
        }
        let key: String = key.to_owned();
        match self.position(&key) {
            Some(i) => Some(&self.entries[i].1),
            None => None,
        }
    }

    /// Puts `value` under `key`, in place of what stood there.
    pub fn insert(&mut self, key: String, value: Option<String>)
        ensures
            final(self)@ == old(self)@.insert(key@, text_of(value)),
    {
        proof {
            use_type_invariant(&*self);
            self.lemma_entries_list_view();
        }
        let ghost before = *self;
        let ghost new_key = key@;
        let ghost new_value = text_of(value);
        let at = self.position(&key);
        let mut entries: Vec<(String, Option<String>)> = Vec::new();
        core::mem::swap(&mut self.entries, &mut entries);
        match at {
            Some(i) => {
                entries[i] = (key, value);
            },
            None => {
                entries.push((key, value));
            },
        }
        core::mem::swap(&mut self.entries, &mut entries);
        proof {
            let after = self.entries@;
            assert(distinct_keys(after));
            self.lemma_entries_list_view();
            assert forall|k: Seq<char>| before@.insert(new_key, new_value).contains_key(k)
                implies #[trigger] self@.contains_key(k) by {
                if k != new_key {
                    let i = choose|i: int| has_key_at(before.entries@, i, k);
                    assert(has_key_at(after, i, k));
                } else {
                    let i = match at {
                        Some(i) => i as int,
                        None => before.entries@.len() as int,
                    };
                    assert(has_key_at(after, i, k));
                }
            }
            assert forall|k: Seq<char>| self@.contains_key(k) implies #[trigger] before@.insert(
                new_key,
                new_value,
            ).contains_key(k) && before@.insert(new_key, new_value)[k] == self@[k] by {
                let i = choose|i: int| has_key_at(after, i, k);
                assert(has_key_at(after, i, k));
                if k != new_key {
                    assert(has_key_at(before.entries@, i, k));
                }
            }
            assert(self@ =~= before@.insert(new_key, new_value));
        }
    }

    /// Whether each key of `self` is a key of `other`, with the same value.
    fn within(&self, other: &KeyValue) -> (all: bool)
        ensures
            all == is_within(self@, other@),
    {
        proof {
            use_type_invariant(self);
            use_type_invariant(other);
            self.lemma_entries_list_view();
            other.lemma_entries_list_view();
        }
        let mut i: usize = 0;
        while i < self.entries.len()
            invariant
                i <= self.entries@.len(),
                lists(self.entries@, self@),
                lists(other.entries@, other@),
                forall|j: int|
                    0 <= j < i ==> other@.contains_key((#[trigger] self.entries@[j]).0@)
                        && other@[self.entries@[j].0@] == text_of(self.entries@[j].1),
            decreases self.entries@.len() - i,
        {
            let found = match other.position(&self.entries[i].0) {
                Some(j) => same_text(&self.entries[i].1, &other.entries[j].1),
                None => false,
            };
            if !found {
                proof {
                    let key = self.entries@[i as int].0@;
                    assert(self@.contains_key(key));
                    assert(!(other@.contains_key(key) && other@[key] == self@[key]));
                }
                return false;
            }
            i += 1;
        }
        proof {
            assert forall|key: Seq<char>| #[trigger] self@.dom().contains(key) implies other@.dom().contains(key)
                && other@[key] == self@[key] by {
                let j = choose|j: int| has_key_at(self.entries@, j, key);
                assert(has_key_at(self.entries@, j, key));
            }
        }
        true
    }

    /// Whether the two maps have the same keys with the same values.
    pub fn equals(&self, other: &KeyValue) -> (same: bool)
        ensures
            same == (self@ == other@),
    {
        let same = self.within(other) && other.within(self);
        proof {
            if same {
                assert(self@ =~= other@);
            }
        }
        same
    }

    /// The keys with their values, each key once.
    pub fn entries(&self) -> (all: &Vec<(String, Option<String>)>)
        ensures
            lists(all@, self@),
    {
        proof {
            use_type_invariant(self);
            self.lemma_entries_list_view();
        }
        &self.entries
    }
}

impl Default for KeyValue {
    fn default() -> (map: KeyValue)
        ensures
            map@ == Map::<Seq<char>, Option<Seq<char>>>::empty(),
    {
        KeyValue::new()
    }
}

impl Clone for KeyValue {
    fn clone(&self) -> (copy: KeyValue)
        ensures
            copy@ == self@,
    {
        proof {
            use_type_invariant(self);
        }
        let mut entries: Vec<(String, Option<String>)> = Vec::new();
        let mut i: usize = 0;
        while i < self.entries.len()
            invariant
                i <= self.entries@.len(),
                entries@ == self.entries@.subrange(0, i as int),
            decreases self.entries@.len() - i,
        {
            let key = self.entries[i].0.clone();
            let value = clone_text(&self.entries[i].1);
            entries.push((key, value));
            assert(entries@ =~= self.entries@.subrange(0, i + 1));
            i += 1;
        }
        assert(entries@ =~= self.entries@);
        let copy = KeyValue { entries };
        assert(copy@ =~= self@);
        copy
    }
}

impl PartialEq for KeyValue {
    fn eq(&self, other: &KeyValue) -> (same: bool) {
        self.equals(other)
    }
}

impl vstd::std_specs::cmp::PartialEqSpecImpl for KeyValue {
    open spec fn obeys_eq_spec() -> bool {
        true
    }

    open spec fn eq_spec(&self, other: &KeyValue) -> bool {
        self@ == other@
    }
}

} // verus!
