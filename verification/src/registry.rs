//! The palette registry: a mapping from short keys to palettes.

use vstd::prelude::*;
use crate::palette::{Palette, PaletteView};

verus! {

/// One registered palette and the key it is found by.
#[derive(Debug)]
struct Entry {
    key: String,
    palette: Palette,
}

/// A mapping from palette keys to palettes. Keys are compared exactly, case
/// included. No key occurs twice: registering a key again replaces the
/// palette that was registered under it before.
#[derive(Debug)]
pub struct PaletteRegistry {
    entries: Vec<Entry>,
}

/// The mapping that a list of entries stands for, later entries overriding
/// earlier ones of the same key.
spec fn entries_map(entries: Seq<Entry>) -> Map<Seq<char>, PaletteView>
    decreases entries.len(),
{
    if entries.len() == 0 {
        Map::empty()
    } else {
        entries_map(entries.drop_last()).insert(entries.last().key@, entries.last().palette@)
    }
}

/// No two entries have the same key.
spec fn distinct_keys(entries: Seq<Entry>) -> bool {
    forall|i: int, j: int|
        0 <= i < j < entries.len() ==> (#[trigger] entries[i]).key@ != (#[trigger] entries[j]).key@
}

/// Some entry has the key `key`.
spec fn has_key(entries: Seq<Entry>, key: Seq<char>) -> bool {
    exists|i: int| 0 <= i < entries.len() && (#[trigger] entries[i]).key@ == key
}

/// The keys of the mapping are the keys of the entries.
proof fn lemma_map_domain(entries: Seq<Entry>, key: Seq<char>)
    ensures
        entries_map(entries).dom().contains(key) <==> has_key(entries, key),
    decreases entries.len(),
{
    if entries.len() > 0 {
        let front = entries.drop_last();
        lemma_map_domain(front, key);
        if has_key(entries, key) {
            let i = choose|i: int| 0 <= i < entries.len() && (#[trigger] entries[i]).key@ == key;
            if i < entries.len() - 1 {
                assert(front[i].key@ == key);
            }
        }
        if has_key(front, key) {
            let i = choose|i: int| 0 <= i < front.len() && (#[trigger] front[i]).key@ == key;
            assert(entries[i].key@ == key);
        }
    }
}

/// With distinct keys, the mapping sends the key of each entry to the
/// palette of that entry.
proof fn lemma_map_value(entries: Seq<Entry>, i: int)
    requires
        distinct_keys(entries),
        0 <= i < entries.len(),
    ensures
        entries_map(entries).dom().contains(entries[i].key@),
        entries_map(entries)[entries[i].key@] == entries[i].palette@,
    decreases entries.len(),
{
    if i < entries.len() - 1 {
        lemma_map_value(entries.drop_last(), i);
    }
}

/// With distinct keys, the mapping has as many keys as there are entries.
proof fn lemma_map_size(entries: Seq<Entry>)
    requires
        distinct_keys(entries),
    ensures
        entries_map(entries).dom().finite(),
        entries_map(entries).dom().len() == entries.len(),
    decreases entries.len(),
{
    if entries.len() > 0 {
        let front = entries.drop_last();
        lemma_map_size(front);
        lemma_map_domain(front, entries.last().key@);
    }
}

/// Replacing the palette of the entry at `at`, under the same key, is what
/// writing that key into the mapping does.
proof fn lemma_map_replace(entries: Seq<Entry>, at: int, entry: Entry)
    requires
        distinct_keys(entries),
        0 <= at < entries.len(),
        entry.key@ == entries[at].key@,
    ensures
        distinct_keys(entries.update(at, entry)),
        entries_map(entries.update(at, entry)) == entries_map(entries).insert(
            entry.key@,
            entry.palette@,
        ),
{
    let after = entries.update(at, entry);
    let expected = entries_map(entries).insert(entry.key@, entry.palette@);
    assert forall|key: Seq<char>| #[trigger]
        entries_map(after).dom().contains(key) == expected.dom().contains(key) by {
        lemma_map_domain(after, key);
        lemma_map_domain(entries, key);
        if has_key(after, key) {
            let i = choose|i: int| 0 <= i < after.len() && (#[trigger] after[i]).key@ == key;
            assert(entries[i].key@ == key);
        }
        if has_key(entries, key) {
            let i = choose|i: int| 0 <= i < entries.len() && (#[trigger] entries[i]).key@ == key;
            assert(after[i].key@ == key);
        }
    }
    assert forall|key: Seq<char>| #[trigger]
        entries_map(after).dom().contains(key) implies entries_map(after)[key] == expected[key] by {
        lemma_map_domain(after, key);
        let i = choose|i: int| 0 <= i < after.len() && (#[trigger] after[i]).key@ == key;
        lemma_map_value(after, i);
        if i != at {
            lemma_map_value(entries, i);
        }
    }
    assert(entries_map(after) =~= expected);
}

impl View for PaletteRegistry {
    type V = Map<Seq<char>, PaletteView>;

    closed spec fn view(&self) -> Map<Seq<char>, PaletteView> {
        entries_map(self.entries@)
    }
}

impl PaletteRegistry {
    #[verifier::type_invariant]
    spec fn keys_are_distinct(self) -> bool {
        distinct_keys(self.entries@)
    }

    /// A registry with no palette in it.
    pub fn new() -> (registry: PaletteRegistry)
        ensures
            registry@ == Map::<Seq<char>, PaletteView>::empty(),
    {
        PaletteRegistry { entries: Vec::new() }
    }

    /// The position of the entry registered under `key`, if there is one.
    fn position(&self, key: &str) -> (res: Option<usize>)
        ensures
            res is Some <==> has_key(self.entries@, key@),
            res matches Some(i) ==> i < self.entries@.len() && self.entries@[i as int].key@ == key@,
    {
        let wanted = key.to_owned();
        let mut i: usize = 0;
        while i < self.entries.len()
            invariant
                i <= self.entries@.len(),
                wanted@ == key@,
                forall|a: int| 0 <= a < i ==> (#[trigger] self.entries@[a]).key@ != key@,
            decreases self.entries@.len() - i,
        {
            if self.entries[i].key == wanted {
                return Some(i);
            }
            i += 1;
        }
        None
    }

    /// Registers `palette` under `key`. A palette registered under the same
    /// key before is replaced: the last write wins.
    pub fn insert(&mut self, key: String, palette: Palette)
        ensures
            final(self)@ == old(self)@.insert(key@, palette@),
    {
        proof {
            use_type_invariant(&*self);
        }
        let found = self.position(key.as_str());
        let entry = Entry { key, palette };
        let mut entries: Vec<Entry> = Vec::new();
        std::mem::swap(&mut self.entries, &mut entries);
        match found {
            Some(i) => {
                proof {
                    lemma_map_replace(entries@, i as int, entry);
                }
                entries.set(i, entry);
            },
            None => {
                assert(entries@.push(entry).drop_last() == entries@);
                entries.push(entry);
            },
        }
        self.entries = entries;
    }

    /// The palette registered under `key`, if there is one.
    pub fn get(&self, key: &str) -> (res: Option<&Palette>)
        ensures
            res is Some <==> self@.dom().contains(key@),
            res matches Some(p) ==> p@ == self@[key@],
    {
        proof {
            use_type_invariant(self);
            lemma_map_domain(self.entries@, key@);
        }
        match self.position(key) {
            Some(i) => {
                proof {
                    lemma_map_value(self.entries@, i as int);
                }
                Some(&self.entries[i].palette)
            },
            None => None,
        }
    }

    /// Whether a palette is registered under `key`.
    pub fn contains_key(&self, key: &str) -> (b: bool)
        ensures
            b == self@.dom().contains(key@),
    {
        proof {
            lemma_map_domain(self.entries@, key@);
        }
        self.position(key).is_some()
    }

    /// The number of registered palettes.
    pub fn len(&self) -> (n: usize)
        ensures
            self@.dom().finite(),
            n == self@.dom().len(),
    {
        proof {
            use_type_invariant(self);
            lemma_map_size(self.entries@);
        }
        self.entries.len()
    }

    /// All registered keys, each once, in the order of their first
    /// registration.
    pub fn keys(&self) -> (keys: Vec<String>)
        ensures
            self@.dom().finite(),
            keys@.len() == self@.dom().len(),
            forall|i: int| 0 <= i < keys@.len() ==> self@.dom().contains(#[trigger] keys@[i]@),
            forall|i: int, j: int|
                0 <= i < j < keys@.len() ==> (#[trigger] keys@[i])@ != (#[trigger] keys@[j])@,
            forall|key: Seq<char>|
                self@.dom().contains(key) ==> exists|i: int|
                    0 <= i < keys@.len() && (#[trigger] keys@[i])@ == key,
    {
        proof {
            use_type_invariant(self);
            lemma_map_size(self.entries@);
        }
        let mut keys: Vec<String> = Vec::new();
        let mut i: usize = 0;
        while i < self.entries.len()
            invariant
                i <= self.entries@.len(),
                keys@.len() == i,
                forall|a: int| 0 <= a < i ==> (#[trigger] keys@[a])@ == self.entries@[a].key@,
            decreases self.entries@.len() - i,
        {
            keys.push(self.entries[i].key.clone());
            i += 1;
        }
        proof {
            assert forall|a: int| 0 <= a < keys@.len() implies self@.dom().contains(
                #[trigger] keys@[a]@,
            ) by {
                lemma_map_value(self.entries@, a);
            }
            assert forall|key: Seq<char>| self@.dom().contains(key) implies exists|a: int|
                0 <= a < keys@.len() && (#[trigger] keys@[a])@ == key by {
                lemma_map_domain(self.entries@, key);
                let a = choose|a: int|
                    0 <= a < self.entries@.len() && (#[trigger] self.entries@[a]).key@ == key;
                assert(keys@[a]@ == key);
            }
        }
        keys
    }
}

} // verus!
