//! A map from names to values.

use crate::text;
use vstd::prelude::*;

verus! {

/// A map whose keys are texts. No key occurs twice.
pub struct Registry<V> {
    entries: Vec<(String, V)>,
}

/// Whether no two entries share a key.
spec fn keys_differ<V>(entries: Seq<(String, V)>) -> bool {
    forall|i: int, j: int|
        0 <= i < j < entries.len() ==> #[trigger] entries[i].0@ != #[trigger] entries[j].0@
}

/// Whether the entry at `i` has the key `key`.
spec fn holds_key<V>(entries: Seq<(String, V)>, i: int, key: Seq<char>) -> bool {
    0 <= i < entries.len() && entries[i].0@ == key
}

/// The map that the entries stand for.
spec fn contents<V>(entries: Seq<(String, V)>) -> Map<Seq<char>, V> {
    Map::new(
        |key: Seq<char>| exists|i: int| holds_key(entries, i, key),
        |key: Seq<char>| entries[choose|i: int| holds_key(entries, i, key)].1,
    )
}

impl<V> View for Registry<V> {
    type V = Map<Seq<char>, V>;

    closed spec fn view(&self) -> Map<Seq<char>, V> {
        contents(self.entries@)
    }
}

/// An entry's value is what the map holds under its key.
proof fn lemma_entry<V>(entries: Seq<(String, V)>, i: int)
    requires
        keys_differ(entries),
        0 <= i < entries.len(),
    ensures
        contents(entries).contains_key(entries[i].0@),
        contents(entries)[entries[i].0@] == entries[i].1,
{
    assert(holds_key(entries, i, entries[i].0@));
}

/// An entry with a new key, put last, extends the map.
proof fn lemma_push<V>(entries: Seq<(String, V)>, entry: (String, V))
    requires
        keys_differ(entries),
        !contents(entries).contains_key(entry.0@),
    ensures
        keys_differ(entries.push(entry)),
        contents(entries.push(entry)) == contents(entries).insert(entry.0@, entry.1),
{
    let after = entries.push(entry);
    assert forall|i: int, j: int| 0 <= i < j < after.len() implies #[trigger] after[i].0@
        != #[trigger] after[j].0@ by {
        if j == entries.len() {
            lemma_entry(entries, i);
        }
    }
    let expected = contents(entries).insert(entry.0@, entry.1);
    assert forall|key: Seq<char>| #[trigger]
        contents(after).contains_key(key) == expected.contains_key(key) by {
        if expected.contains_key(key) {
            if key == entry.0@ {
                assert(holds_key(after, entries.len() as int, key));
            } else {
                let i = choose|i: int| holds_key(entries, i, key);
                assert(holds_key(after, i, key));
            }
        }
        if contents(after).contains_key(key) && key != entry.0@ {
            let i = choose|i: int| holds_key(after, i, key);
            assert(holds_key(entries, i, key));
        }
    }
    assert forall|key: Seq<char>| #[trigger] contents(after).contains_key(key) implies contents(
        after,
    )[key] == expected[key] by {
        let i = choose|i: int| holds_key(after, i, key);
        lemma_entry(after, i);
        if i < entries.len() {
            lemma_entry(entries, i);
        }
    }
    assert(contents(after) =~= expected);
}

/// Removing an entry removes its key.
proof fn lemma_remove<V>(entries: Seq<(String, V)>, at: int)
    requires
        keys_differ(entries),
        0 <= at < entries.len(),
    ensures
        keys_differ(entries.remove(at)),
        contents(entries.remove(at)) == contents(entries).remove(entries[at].0@),
{
    let after = entries.remove(at);
    let expected = contents(entries).remove(entries[at].0@);
    assert forall|i: int, j: int| 0 <= i < j < after.len() implies #[trigger] after[i].0@
        != #[trigger] after[j].0@ by {
        let before_i = if i < at { i } else { i + 1 };
        let before_j = if j < at { j } else { j + 1 };
        assert(entries[before_i].0@ != entries[before_j].0@);
    }
    assert forall|key: Seq<char>| #[trigger]
        contents(after).contains_key(key) == expected.contains_key(key) by {
        if expected.contains_key(key) {
            let i = choose|i: int| holds_key(entries, i, key);
            assert(holds_key(after, if i < at { i } else { i - 1 }, key));
        }
        if contents(after).contains_key(key) {
            let i = choose|i: int| holds_key(after, i, key);
            let before_i = if i < at { i } else { i + 1 };
            assert(holds_key(entries, before_i, key));
            assert(entries[before_i].0@ != entries[at].0@);
        }
    }
    assert forall|key: Seq<char>| #[trigger] contents(after).contains_key(key) implies contents(
        after,
    )[key] == expected[key] by {
        let i = choose|i: int| holds_key(after, i, key);
        lemma_entry(after, i);
        lemma_entry(entries, if i < at { i } else { i + 1 });
    }
    assert(contents(after) =~= expected);
}

impl<V> Registry<V> {
    #[verifier::type_invariant]
    spec fn well_formed(self) -> bool {
        keys_differ(self.entries@)
    }

    /// An empty registry.
    pub fn new() -> (registry: Self)
        ensures
            registry@ == Map::<Seq<char>, V>::empty(),
    {
        let registry = Registry { entries: Vec::new() };
        assert(registry@ =~= Map::<Seq<char>, V>::empty());
        registry
    }

    /// The position of `key`.
    fn position(&self, key: &str) -> (result: Option<usize>)
        ensures
            match result {
                Some(at) => holds_key(self.entries@, at as int, key@),
                None => !self@.contains_key(key@),
            },
    {
        let mut i: usize = 0;
        while i < self.entries.len()
            invariant
                i <= self.entries.len(),
                forall|j: int| 0 <= j < i ==> !holds_key(self.entries@, j, key@),
            decreases self.entries.len() - i,
        {
            if text::same_text(self.entries[i].0.as_str(), key) {
                return Some(i);
            }
            i += 1;
        }
        None
    }

    /// Whether there is a value under `key`.
    pub fn contains(&self, key: &str) -> (result: bool)
        ensures
            result == self@.contains_key(key@),
    {
        match self.position(key) {
            Some(at) => {
                assert(holds_key(self.entries@, at as int, key@));
                true
            },
            None => false,
        }
    }

    /// The value under `key`.
    pub fn get(&self, key: &str) -> (result: Option<&V>)
        ensures
            match result {
                Some(value) => self@.contains_key(key@) && *value == self@[key@],
                None => !self@.contains_key(key@),
            },
    {
        proof {
            use_type_invariant(self);
        }
        match self.position(key) {
            Some(at) => {
                proof {
                    lemma_entry(self.entries@, at as int);
                }
                Some(&self.entries[at].1)
            },
            None => None,
        }
    }

    /// Takes the value under `key` out of the registry.
    pub fn remove(&mut self, key: &str) -> (result: Option<V>)
        ensures
            final(self)@ == old(self)@.remove(key@),
            match result {
                Some(value) => old(self)@.contains_key(key@) && value == old(self)@[key@],
                None => !old(self)@.contains_key(key@),
            },
    {
        proof {
            use_type_invariant(&*self);
        }
        match self.position(key) {
            Some(at) => {
                proof {
                    lemma_entry(self.entries@, at as int);
                    lemma_remove(self.entries@, at as int);
                }
                let mut entries: Vec<(String, V)> = Vec::new();
                std::mem::swap(&mut entries, &mut self.entries);
                let (_, value) = entries.remove(at);
                self.entries = entries;
                Some(value)
            },
            None => {
                assert(self@.remove(key@) =~= self@);
                None
            },
        }
    }

    /// Puts `value` under `key`, and hands back the value that it replaces.
    pub fn insert(&mut self, key: String, value: V) -> (result: Option<V>)
        ensures
            final(self)@ == old(self)@.insert(key@, value),
            match result {
                Some(value) => old(self)@.contains_key(key@) && value == old(self)@[key@],
                None => !old(self)@.contains_key(key@),
            },
    {
        let replaced = self.remove(key.as_str());
        proof {
            use_type_invariant(&*self);
            lemma_push(self.entries@, (key, value));
            assert(old(self)@.remove(key@).insert(key@, value) =~= old(self)@.insert(key@, value));
        }
        let mut entries: Vec<(String, V)> = Vec::new();
        std::mem::swap(&mut entries, &mut self.entries);
        entries.push((key, value));
        self.entries = entries;
        replaced
    }

    /// The keys, each once, in no particular order.
    pub fn keys(&self) -> (keys: Vec<String>)
        ensures
            forall|i: int| 0 <= i < keys@.len() ==> self@.contains_key(#[trigger] keys@[i]@),
            forall|key: Seq<char>| #[trigger]
                self@.contains_key(key) ==> exists|i: int|
                    0 <= i < keys@.len() && #[trigger] keys@[i]@ == key,
            forall|i: int, j: int|
                0 <= i < j < keys@.len() ==> #[trigger] keys@[i]@ != #[trigger] keys@[j]@,
    {
        proof {
            use_type_invariant(self);
        }
        let mut keys: Vec<String> = Vec::new();
        let mut i: usize = 0;
        while i < self.entries.len()
            invariant
                i <= self.entries.len(),
                keys@.len() == i,
                forall|j: int| 0 <= j < i ==> #[trigger] keys@[j]@ == self.entries@[j].0@,
            decreases self.entries.len() - i,
        {
            keys.push(self.entries[i].0.clone());
            i += 1;
        }
        assert forall|j: int| 0 <= j < keys@.len() implies self@.contains_key(
            #[trigger] keys@[j]@,
        ) by {
            lemma_entry(self.entries@, j);
        }
        assert forall|key: Seq<char>| #[trigger] self@.contains_key(key) implies exists|j: int|
            0 <= j < keys@.len() && #[trigger] keys@[j]@ == key by {
            let j = choose|j: int| holds_key(self.entries@, j, key);
            assert(keys@[j]@ == key);
        }
        assert forall|i: int, j: int| 0 <= i < j < keys@.len() implies #[trigger] keys@[i]@
            != #[trigger] keys@[j]@ by {
            assert(self.entries@[i].0@ != self.entries@[j].0@);
        }
        keys
    }
}

} // verus!
