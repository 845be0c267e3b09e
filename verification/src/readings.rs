//! The published mapping: sensor type code to the bit pattern of a value.

use vstd::prelude::*;

verus! {

/// One published value under its key.
#[derive(Clone, Debug, PartialEq, Eq)]
pub struct Entry {
    pub key: String,
    pub value: u64,
}

/// The mapping that a list of entries stands for: a later entry replaces an
/// earlier one with the same key.
pub open spec fn entries_map(entries: Seq<Entry>) -> Map<Seq<char>, u64>
    decreases entries.len(),
{
    if entries.len() == 0 {
        Map::empty()
    } else {
        entries_map(entries.drop_last()).insert(entries.last().key@, entries.last().value)
    }
}

/// No key occurs twice among the entries.
pub open spec fn keys_distinct(entries: Seq<Entry>) -> bool {
    forall|i: int, j: int|
        0 <= i < j < entries.len() ==> (#[trigger] entries[i]).key@ != (#[trigger] entries[j]).key@
}

/// A key is in the mapping exactly when some entry carries it.
pub proof fn lemma_entries_map_dom(entries: Seq<Entry>, key: Seq<char>)
    ensures
        entries_map(entries).dom().contains(key) <==> exists|i: int|
            0 <= i < entries.len() && (#[trigger] entries[i]).key@ == key,
    decreases entries.len(),
{
    if entries.len() > 0 {
        let front = entries.drop_last();
        lemma_entries_map_dom(front, key);
        if entries_map(entries).dom().contains(key) {
            if entries.last().key@ == key {
                assert(entries[entries.len() - 1].key@ == key);
            } else {
                let i = choose|i: int| 0 <= i < front.len() && (#[trigger] front[i]).key@ == key;
                assert(entries[i].key@ == key);
            }
        }
        if exists|i: int| 0 <= i < entries.len() && (#[trigger] entries[i]).key@ == key {
            let i = choose|i: int| 0 <= i < entries.len() && (#[trigger] entries[i]).key@ == key;
            if i < front.len() {
                assert(front[i].key@ == key);
            }
        }
    }
}

/// With distinct keys every entry is found in the mapping under its own key.
pub proof fn lemma_entries_map_value(entries: Seq<Entry>, i: int)
    requires
        keys_distinct(entries),
        0 <= i < entries.len(),
    ensures
        entries_map(entries).dom().contains(entries[i].key@),
        entries_map(entries)[entries[i].key@] == entries[i].value,
    decreases entries.len(),
{
    let front = entries.drop_last();
    if i < entries.len() - 1 {
        assert(keys_distinct(front)) by {
            assert forall|a: int, b: int| 0 <= a < b < front.len() implies (#[trigger] front[a]).key@
                != (#[trigger] front[b]).key@ by {
                assert(entries[a].key@ != entries[b].key@);
            }
        }
        lemma_entries_map_value(front, i);
        assert(entries[i].key@ != entries[entries.len() - 1].key@);
        assert(front[i] == entries[i]);
    }
}

/// Replacing the value of one entry replaces the value under its key.
pub proof fn lemma_entries_map_update(entries: Seq<Entry>, i: int, entry: Entry)
    requires
        keys_distinct(entries),
        0 <= i < entries.len(),
        entry.key@ == entries[i].key@,
    ensures
        keys_distinct(entries.update(i, entry)),
        entries_map(entries.update(i, entry)) == entries_map(entries).insert(
            entry.key@,
            entry.value,
        ),
    decreases entries.len(),
{
    let after = entries.update(i, entry);
    assert(keys_distinct(after)) by {
        assert forall|a: int, b: int| 0 <= a < b < after.len() implies (#[trigger] after[a]).key@
            != (#[trigger] after[b]).key@ by {
            assert(entries[a].key@ != entries[b].key@);
        }
    }
    let front = entries.drop_last();
    let last = entries.len() - 1;
    if i == last {
        assert(after.drop_last() == front);
        assert(entries_map(after) == entries_map(entries).insert(entry.key@, entry.value));
    } else {
        assert(keys_distinct(front)) by {
            assert forall|a: int, b: int| 0 <= a < b < front.len() implies (#[trigger] front[a]).key@
                != (#[trigger] front[b]).key@ by {
                assert(entries[a].key@ != entries[b].key@);
            }
        }
        lemma_entries_map_update(front, i, entry);
        assert(after.drop_last() == front.update(i, entry));
        assert(after.last() == entries.last());
        assert(entries[i].key@ != entries[last].key@);
        assert(entries_map(after) == entries_map(entries).insert(entry.key@, entry.value));
    }
}

/// A mapping from sensor type code to value, held as a list without repeated keys.
#[derive(Debug)]
pub struct Readings {
    entries: Vec<Entry>,
}

impl View for Readings {
    type V = Map<Seq<char>, u64>;

    closed spec fn view(&self) -> Map<Seq<char>, u64> {
        entries_map(self.entries@)
    }
}

impl Readings {
    #[verifier::type_invariant]
    spec fn keys_are_distinct(self) -> bool {
        keys_distinct(self.entries@)
    }

    /// The empty mapping.
    pub fn new() -> (r: Readings)
        ensures
            r@ == Map::<Seq<char>, u64>::empty(),
    {
        Readings { entries: Vec::new() }
    }

    /// Position of `key` in the list, if it is listed.
    fn position(&self, key: &String) -> (found: Option<usize>)
        ensures
            match found {
                Some(i) => i < self.entries@.len() && self.entries@[i as int].key@ == key@,
                None => !self@.dom().contains(key@),
            },
    {
        let mut i: usize = 0;
        while i < self.entries.len()
            invariant
                i <= self.entries.len(),
                forall|j: int| 0 <= j < i ==> (#[trigger] self.entries@[j]).key@ != key@,
            decreases self.entries.len() - i,
        {
            if self.entries[i].key == *key {
                return Some(i);
            }
            i += 1;
        }
        proof {
            lemma_entries_map_dom(self.entries@, key@);
        }
        None
    }

    /// Associates `value` with `key`, replacing the value the key had before.
    pub fn set(&mut self, key: String, value: u64)
        ensures
            final(self)@ == old(self)@.insert(key@, value),
    {
        proof {
            use_type_invariant(&*self);
        }
        let found = self.position(&key);
        let entry = Entry { key, value };
        let mut entries: Vec<Entry> = Vec::new();
        core::mem::swap(&mut self.entries, &mut entries);
        match found {
            Some(i) => {
                proof {
                    lemma_entries_map_update(entries@, i as int, entry);
                }
                entries.set(i, entry);
            },
            None => {
                proof {
                    lemma_entries_map_dom(entries@, entry.key@);
                    let after = entries@.push(entry);
                    assert(after.drop_last() == entries@);
                    assert forall|a: int, b: int| 0 <= a < b < after.len() implies (
                    #[trigger] after[a]).key@ != (#[trigger] after[b]).key@ by {
                        if b < after.len() - 1 {
                            assert(entries@[a].key@ != entries@[b].key@);
                        } else {
                            assert(entries@[a].key@ != entry.key@);
                        }
                    }
                }
                entries.push(entry);
            },
        }
        self.entries = entries;
    }

    /// The value published under `key`.
    pub fn get(&self, key: &String) -> (value: Option<u64>)
        ensures
            value == if self@.dom().contains(key@) {
                Some(self@[key@])
            } else {
                None
            },
    {
        proof {
            use_type_invariant(self);
        }
        match self.position(key) {
            Some(i) => {
                proof {
                    lemma_entries_map_value(self.entries@, i as int);
                }
                Some(self.entries[i].value)
            },
            None => None,
        }
    }

    /// Number of keys.
    pub fn len(&self) -> (n: usize)
        ensures
            self@.dom().finite(),
            n == self@.dom().len(),
    {
        proof {
            use_type_invariant(self);
            lemma_entries_map_len(self.entries@);
        }
        self.entries.len()
    }

    /// The entries, one per key. Every entry holds the value of its key, and
    /// the list stands for the mapping.
    pub fn entries(&self) -> (list: &Vec<Entry>)
        ensures
            keys_distinct(list@),
            self@ == entries_map(list@),
            list@.len() == self@.dom().len(),
            forall|i: int|
                0 <= i < list@.len() ==> self@.dom().contains((#[trigger] list@[i]).key@)
                    && self@[list@[i].key@] == list@[i].value,
            forall|key: Seq<char>|
                self@.dom().contains(key) ==> exists|i: int|
                    0 <= i < list@.len() && (#[trigger] list@[i]).key@ == key,
    {
        proof {
            use_type_invariant(self);
            lemma_entries_map_len(self.entries@);
            assert forall|i: int| 0 <= i < self.entries@.len() implies self@.dom().contains(
                (#[trigger] self.entries@[i]).key@,
            ) && self@[self.entries@[i].key@] == self.entries@[i].value by {
                lemma_entries_map_value(self.entries@, i);
            }
            assert forall|key: Seq<char>| self@.dom().contains(key) implies exists|i: int|
                0 <= i < self.entries@.len() && (#[trigger] self.entries@[i]).key@ == key by {
                lemma_entries_map_dom(self.entries@, key);
            }
        }
        &self.entries
    }
}

impl Clone for Readings {
    /// A copy with the same mapping, listed in the same order.
    fn clone(&self) -> (copy: Readings)
        ensures
            copy@ == self@,
    {
        proof {
            use_type_invariant(self);
        }
        let mut entries: Vec<Entry> = Vec::new();
        let mut i: usize = 0;
        while i < self.entries.len()
            invariant
                i <= self.entries.len(),
                entries@.len() == i,
                forall|j: int|
                    0 <= j < i ==> (#[trigger] entries@[j]).key@ == self.entries@[j].key@
                        && entries@[j].value == self.entries@[j].value,
            decreases self.entries.len() - i,
        {
            let entry = &self.entries[i];
            entries.push(Entry { key: entry.key.clone(), value: entry.value });
            i += 1;
        }
        proof {
            lemma_entries_map_same(entries@, self.entries@);
            assert forall|a: int, b: int| 0 <= a < b < entries@.len() implies (
            #[trigger] entries@[a]).key@ != (#[trigger] entries@[b]).key@ by {
                assert(self.entries@[a].key@ != self.entries@[b].key@);
            }
        }
        Readings { entries }
    }
}

/// Lists that agree entry by entry in key and value stand for the same mapping.
pub proof fn lemma_entries_map_same(a: Seq<Entry>, b: Seq<Entry>)
    requires
        a.len() == b.len(),
        forall|i: int|
            0 <= i < a.len() ==> (#[trigger] a[i]).key@ == b[i].key@ && a[i].value == b[i].value,
    ensures
        entries_map(a) == entries_map(b),
    decreases a.len(),
{
    if a.len() > 0 {
        let last = a.len() - 1;
        assert(a[last].key@ == b[last].key@ && a[last].value == b[last].value);
        assert forall|i: int| 0 <= i < a.drop_last().len() implies (#[trigger] a.drop_last()[i]).key@
            == b.drop_last()[i].key@ && a.drop_last()[i].value == b.drop_last()[i].value by {
            assert(a[i].key@ == b[i].key@ && a[i].value == b[i].value);
        }
        lemma_entries_map_same(a.drop_last(), b.drop_last());
    }
}

/// A list without repeated keys stands for a finite mapping with one key per entry.
pub proof fn lemma_entries_map_len(entries: Seq<Entry>)
    requires
        keys_distinct(entries),
    ensures
        entries_map(entries).dom().finite(),
        entries_map(entries).dom().len() == entries.len(),
    decreases entries.len(),
{
    if entries.len() > 0 {
        let front = entries.drop_last();
        assert(keys_distinct(front)) by {
            assert forall|a: int, b: int| 0 <= a < b < front.len() implies (#[trigger] front[a]).key@
                != (#[trigger] front[b]).key@ by {
                assert(entries[a].key@ != entries[b].key@);
            }
        }
        lemma_entries_map_len(front);
        lemma_entries_map_dom(front, entries.last().key@);
        if entries_map(front).dom().contains(entries.last().key@) {
            let i = choose|i: int|
                0 <= i < front.len() && (#[trigger] front[i]).key@ == entries.last().key@;
            assert(entries[i].key@ != entries[entries.len() - 1].key@);
        }
    }
}

} // verus!
