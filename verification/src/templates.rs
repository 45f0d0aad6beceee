//! The table of templates: keys mapped to source directories.

use vstd::prelude::*;

use crate::text::{opt_text, texts};

verus! {

/// One entry of the table, as text.
pub type EntryView = (Seq<char>, Seq<char>);

/// The keys of a table, in order.
pub open spec fn keys_of(entries: Seq<EntryView>) -> Seq<Seq<char>> {
    entries.map_values(|e: EntryView| e.0)
}

/// No key occurs twice.
pub open spec fn distinct_keys(entries: Seq<EntryView>) -> bool {
    forall|i: int, j: int|
        0 <= i < entries.len() && 0 <= j < entries.len() && i != j ==> #[trigger] entries[i].0
            != #[trigger] entries[j].0
}

/// Whether some entry has the key `key`.
pub open spec fn has_key(entries: Seq<EntryView>, key: Seq<char>) -> bool {
    exists|i: int| 0 <= i < entries.len() && #[trigger] entries[i].0 == key
}

/// The value under `key`, if any entry has that key.
pub open spec fn lookup(entries: Seq<EntryView>, key: Seq<char>) -> Option<Seq<char>> {
    if has_key(entries, key) {
        Some(entries[choose|i: int| 0 <= i < entries.len() && #[trigger] entries[i].0 == key].1)
    } else {
        None
    }
}

/// The table after `key` is given `value`: an entry with that key keeps its place
/// and takes the new value; otherwise a new entry comes last.
pub open spec fn inserted(entries: Seq<EntryView>, key: Seq<char>, value: Seq<char>) -> Seq<
    EntryView,
> {
    if has_key(entries, key) {
        entries.update(
            choose|i: int| 0 <= i < entries.len() && #[trigger] entries[i].0 == key,
            (key, value),
        )
    } else {
        entries.push((key, value))
    }
}

/// With distinct keys, the entry at `i` is what `lookup` finds for its key.
pub proof fn lemma_lookup_at(entries: Seq<EntryView>, i: int)
    requires
        distinct_keys(entries),
        0 <= i < entries.len(),
    ensures
        has_key(entries, entries[i].0),
        lookup(entries, entries[i].0) == Some(entries[i].1),
{
    let k = entries[i].0;
    assert(has_key(entries, k));
    let j = choose|j: int| 0 <= j < entries.len() && #[trigger] entries[j].0 == k;
    assert(i == j);
}

/// A table of templates: each key names a source directory. Keys are unique; the
/// entries keep the order in which their keys were first inserted.
#[derive(Debug)]
pub struct TemplateMap {
    entries: Vec<(String, String)>,
}

impl View for TemplateMap {
    type V = Seq<EntryView>;

    closed spec fn view(&self) -> Seq<EntryView> {
        self.entries@.map_values(|e: (String, String)| (e.0@, e.1@))
    }
}

impl TemplateMap {
    #[verifier::type_invariant]
    closed spec fn unique_keys(&self) -> bool {
        distinct_keys(self@)
    }

    /// An empty table.
    pub fn new() -> (res: Self)
        ensures
            res@ == Seq::<EntryView>::empty(),
    {
        let res = TemplateMap { entries: Vec::new() };
        assert(res@ =~= Seq::<EntryView>::empty());
        res
    }

    /// The index of the entry with key `key`, if there is one.
    fn position(&self, key: &str) -> (res: Option<usize>)
        ensures
            match res {
                Some(i) => i < self@.len() && self@[i as int].0 == key@,
                None => !has_key(self@, key@),
            },
    {
        let wanted = String::from_str(key);
        let n = self.entries.len();
        let mut i: usize = 0;
        while i < n
            invariant
                n == self.entries@.len(),
                wanted@ == key@,
                0 <= i <= n,
                forall|j: int| 0 <= j < i ==> #[trigger] self@[j].0 != key@,
            decreases n - i,
        {
            if self.entries[i].0 == wanted {
                return Some(i);
            }
            i = i + 1;
        }
        proof {
            if has_key(self@, key@) {
                let j = choose|j: int| 0 <= j < self@.len() && #[trigger] self@[j].0 == key@;
                assert(self@[j].0 != key@);
            }
        }
        None
    }

    /// The source directory under `key`.
    pub fn get(&self, key: &str) -> (res: Option<&String>)
        ensures
            match res {
                Some(v) => lookup(self@, key@) == Some(v@),
                None => lookup(self@, key@) is None,
            },
    {
        proof {
            use_type_invariant(self);
        }
        match self.position(key) {
            Some(i) => {
                proof {
                    lemma_lookup_at(self@, i as int);
                }
                Some(&self.entries[i].1)
            },
            None => None,
        }
    }

    /// Whether some entry has the key `key`.
    pub fn contains_key(&self, key: &str) -> (res: bool)
        ensures
            res == has_key(self@, key@),
    {
        self.position(key).is_some()
    }

    /// The number of entries.
    pub fn len(&self) -> (res: usize)
        ensures
            res == self@.len(),
    {
        self.entries.len()
    }

    /// Whether the table is empty.
    pub fn is_empty(&self) -> (res: bool)
        ensures
            res == (self@.len() == 0),
    {
        self.entries.len() == 0
    }

    /// Gives `key` the source directory `value`, and returns the one it had before.
    pub fn insert(&mut self, key: String, value: String) -> (res: Option<String>)
        ensures
            final(self)@ == inserted(old(self)@, key@, value@),
            distinct_keys(final(self)@),
            opt_text(res) == lookup(old(self)@, key@),
    {
        proof {
            use_type_invariant(&*self);
        }
        let ghost before = self@;
        let found = self.position(key.as_str());
        let mut entries: Vec<(String, String)> = Vec::new();
        std::mem::swap(&mut entries, &mut self.entries);
        assert(entries@.map_values(|e: (String, String)| (e.0@, e.1@)) == before);
        match found {
            Some(i) => {
                proof {
                    lemma_lookup_at(before, i as int);
                }
                let old_value = entries[i].1.clone();
                entries.set(i, (key, value));
                let ghost after = entries@.map_values(|e: (String, String)| (e.0@, e.1@));
                proof {
                    let j = choose|j: int| 0 <= j < before.len() && #[trigger] before[j].0 == key@;
                    assert(i == j);
                    assert(after =~= inserted(before, key@, value@));
                    assert forall|a: int, b: int|
                        0 <= a < after.len() && 0 <= b < after.len() && a != b implies
                        #[trigger] after[a].0 != #[trigger] after[b].0 by {
                        assert(after[a].0 == before[a].0);
                        assert(after[b].0 == before[b].0);
                    }
                }
                self.entries = entries;
                Some(old_value)
            },
            None => {
                entries.push((key, value));
                let ghost after = entries@.map_values(|e: (String, String)| (e.0@, e.1@));
                proof {
                    assert(after =~= inserted(before, key@, value@));
                    assert forall|a: int, b: int|
                        0 <= a < after.len() && 0 <= b < after.len() && a != b implies
                        #[trigger] after[a].0 != #[trigger] after[b].0 by {
                        if a == before.len() {
                            assert(before[b].0 == after[b].0);
                        } else if b == before.len() {
                            assert(before[a].0 == after[a].0);
                        }
                    }
                }
                self.entries = entries;
                None
            },
        }
    }

    /// The keys, in entry order.
    pub fn keys(&self) -> (res: Vec<String>)
        ensures
            texts(res@) == keys_of(self@),
            distinct_keys(self@),
            keys_of(self@).no_duplicates(),
    {
        proof {
            use_type_invariant(self);
            law_keys_listed_once(self@);
        }
        let mut res: Vec<String> = Vec::new();
        let n = self.entries.len();
        let mut i: usize = 0;
        while i < n
            invariant
                n == self.entries@.len(),
                0 <= i <= n,
                texts(res@) =~= keys_of(self@).take(i as int),
            decreases n - i,
        {
            res.push(self.entries[i].0.clone());
            assert(keys_of(self@).take(i as int + 1) =~= keys_of(self@).take(i as int).push(
                self.entries@[i as int].0@,
            ));
            i = i + 1;
        }
        assert(keys_of(self@).take(n as int) =~= keys_of(self@));
        res
    }
}

/// With distinct keys, the list of keys names each key once.
pub proof fn law_keys_listed_once(entries: Seq<EntryView>)
    requires
        distinct_keys(entries),
    ensures
        keys_of(entries).no_duplicates(),
{
    let ks = keys_of(entries);
    assert forall|i: int, j: int| 0 <= i < ks.len() && 0 <= j < ks.len() && i != j implies ks[i]
        != ks[j] by {
        assert(ks[i] == entries[i].0);
        assert(ks[j] == entries[j].0);
    }
}

impl Default for TemplateMap {
    /// An empty table.
    fn default() -> (res: Self)
        ensures
            res@ == Seq::<EntryView>::empty(),
    {
        TemplateMap::new()
    }
}

/// Giving `key` a value leaves the keys distinct, makes `value` what `key` finds,
/// and changes what no other key finds.
pub proof fn law_lookup_after_insert(
    entries: Seq<EntryView>,
    key: Seq<char>,
    value: Seq<char>,
    other: Seq<char>,
)
    requires
        distinct_keys(entries),
    ensures
        distinct_keys(inserted(entries, key, value)),
        lookup(inserted(entries, key, value), key) == Some(value),
        other != key ==> lookup(inserted(entries, key, value), other) == lookup(entries, other),
{
    let after = inserted(entries, key, value);
    if has_key(entries, key) {
        let i = choose|i: int| 0 <= i < entries.len() && #[trigger] entries[i].0 == key;
        assert forall|a: int, b: int|
            0 <= a < after.len() && 0 <= b < after.len() && a != b implies #[trigger] after[a].0
            != #[trigger] after[b].0 by {
            assert(after[a].0 == entries[a].0);
            assert(after[b].0 == entries[b].0);
        }
        lemma_lookup_at(after, i);
        if other != key {
            if has_key(entries, other) {
                let j = choose|j: int| 0 <= j < entries.len() && #[trigger] entries[j].0 == other;
                lemma_lookup_at(entries, j);
                lemma_lookup_at(after, j);
            } else {
                assert forall|j: int| 0 <= j < after.len() implies #[trigger] after[j].0
                    != other by {
                    assert(after[j].0 == entries[j].0 || j == i);
                }
            }
        }
    } else {
        let n = entries.len() as int;
        assert forall|a: int, b: int|
            0 <= a < after.len() && 0 <= b < after.len() && a != b implies #[trigger] after[a].0
            != #[trigger] after[b].0 by {
            if a == n {
                assert(entries[b].0 == after[b].0);
            } else if b == n {
                assert(entries[a].0 == after[a].0);
            }
        }
        lemma_lookup_at(after, n);
        if other != key {
            if has_key(entries, other) {
                let j = choose|j: int| 0 <= j < entries.len() && #[trigger] entries[j].0 == other;
                lemma_lookup_at(entries, j);
                lemma_lookup_at(after, j);
            } else {
                assert forall|j: int| 0 <= j < after.len() implies #[trigger] after[j].0
                    != other by {
                    if j < n {
                        assert(after[j].0 == entries[j].0);
                    }
                }
            }
        }
    }
}

} // verus!
