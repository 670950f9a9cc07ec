use vstd::prelude::*;
use crate::shared::text::same_text;

verus! {

/// What the cache is keyed by: the path of a key and the name of a value
/// under it.
pub type CacheKey = (Seq<char>, Seq<char>);

/// One remembered value: where it stands and the data last seen there.
pub struct CacheEntry {
    pub key_path: String,
    pub value_name: String,
    pub data: String,
}

impl CacheEntry {
    /// Where the value stands.
    pub open spec fn key(&self) -> CacheKey {
        (self.key_path@, self.value_name@)
    }
}

/// The mapping that a list of entries stands for: a later entry wins over an
/// earlier one with the same key.
pub open spec fn mapping_of(entries: Seq<CacheEntry>) -> Map<CacheKey, Seq<char>>
    decreases entries.len(),
{
    if entries.len() == 0 {
        Map::empty()
    } else {
        mapping_of(entries.drop_last()).insert(entries.last().key(), entries.last().data@)
    }
}

/// Whether no entry behind position `at` has the key `key`.
pub open spec fn absent_behind(entries: Seq<CacheEntry>, at: int, key: CacheKey) -> bool {
    forall|j: int| at < j < entries.len() ==> (#[trigger] entries[j]).key() != key
}

/// A key is in the mapping of a list exactly if one of its entries has it.
pub proof fn lemma_mapping_domain(entries: Seq<CacheEntry>, key: CacheKey)
    ensures
        mapping_of(entries).contains_key(key) <==> exists|i: int|
            0 <= i < entries.len() && (#[trigger] entries[i]).key() == key,
    decreases entries.len(),
{
    if entries.len() > 0 {
        let front = entries.drop_last();
        lemma_mapping_domain(front, key);
        if mapping_of(entries).contains_key(key) {
            if entries.last().key() == key {
            } else {
                let i = choose|i: int| 0 <= i < front.len() && (#[trigger] front[i]).key() == key;
            }
        }
        if exists|i: int| 0 <= i < entries.len() && (#[trigger] entries[i]).key() == key {
            let i = choose|i: int| 0 <= i < entries.len() && (#[trigger] entries[i]).key() == key;
            if i < entries.len() - 1 {
                assert(front[i].key() == key);
            }
        }
    }
}

/// The mapping gives a key the data of the last entry that has it.
pub proof fn lemma_mapping_value(entries: Seq<CacheEntry>, at: int)
    requires
        0 <= at < entries.len(),
        absent_behind(entries, at, entries[at].key()),
    ensures
        mapping_of(entries).contains_key(entries[at].key()),
        mapping_of(entries)[entries[at].key()] == entries[at].data@,
    decreases entries.len(),
{
    let front = entries.drop_last();
    if at < entries.len() - 1 {
        assert(absent_behind(front, at, front[at].key())) by {
        }
        lemma_mapping_value(front, at);
    }
}

/// Putting new data in the place of the last entry with a key is an
/// insertion under that key.
pub proof fn lemma_mapping_update(entries: Seq<CacheEntry>, at: int, entry: CacheEntry)
    requires
        0 <= at < entries.len(),
        entry.key() == entries[at].key(),
        absent_behind(entries, at, entry.key()),
    ensures
        mapping_of(entries.update(at, entry)) == mapping_of(entries).insert(
            entry.key(),
            entry.data@,
        ),
    decreases entries.len(),
{
    let updated = entries.update(at, entry);
    let front = entries.drop_last();
    if at == entries.len() - 1 {
        assert(updated.drop_last() == front);
    } else {
        assert(absent_behind(front, at, entry.key())) by {
        }
        lemma_mapping_update(front, at, entry);
        assert(updated.drop_last() == front.update(at, entry));
    }
}

/// The diff cache: for each value that was seen, the data last seen there.
/// It lives as long as the engine and is never written to disk.
pub struct AutorunCache {
    entries: Vec<CacheEntry>,
}

impl View for AutorunCache {
    type V = Map<CacheKey, Seq<char>>;

    closed spec fn view(&self) -> Map<CacheKey, Seq<char>> {
        mapping_of(self.entries@)
    }
}

impl AutorunCache {
    /// How many entries the cache holds.
    pub closed spec fn size(&self) -> nat {
        self.entries@.len()
    }

    /// The empty cache.
    pub fn new() -> (cache: Self)
        ensures
            cache@ == Map::<CacheKey, Seq<char>>::empty(),
            cache.size() == 0,
    {
        AutorunCache { entries: Vec::new() }
    }

    /// How many entries the cache holds.
    pub fn len(&self) -> (n: usize)
        ensures
            n == self.size(),
    {
        self.entries.len()
    }

    /// Where the last entry for a key stands, if the cache has one.
    fn position(&self, key_path: &str, value_name: &str) -> (at: Option<usize>)
        ensures
            match at {
                Some(i) => {
                    &&& i < self.entries.len()
                    &&& self.entries@[i as int].key() == (key_path@, value_name@)
                    &&& absent_behind(self.entries@, i as int, (key_path@, value_name@))
                },
                None => absent_behind(self.entries@, -1, (key_path@, value_name@)),
            },
    {
        let mut i: usize = self.entries.len();
        while i > 0
            invariant
                i <= self.entries.len(),
                absent_behind(self.entries@, i - 1, (key_path@, value_name@)),
            decreases i,
        {
            i -= 1;
            let entry = &self.entries[i];
            if same_text(entry.key_path.as_str(), key_path) && same_text(
                entry.value_name.as_str(),
                value_name,
            ) {
                return Some(i);
            }
        }
        None
    }

    /// The data last seen for a value, if it was seen before.
    pub fn get(&self, key_path: &str, value_name: &str) -> (data: Option<&String>)
        ensures
            match data {
                Some(d) => self@.contains_key((key_path@, value_name@)) && self@[(
                    key_path@,
                    value_name@,
                )] == d@,
                None => !self@.contains_key((key_path@, value_name@)),
            },
    {
        proof {
            lemma_mapping_domain(self.entries@, (key_path@, value_name@));
        }
        match self.position(key_path, value_name) {
            Some(i) => {
                proof {
                    lemma_mapping_value(self.entries@, i as int);
                }
                Some(&self.entries[i].data)
            },
            None => None,
        }
    }

    /// Remembers `data` as the data last seen for a value, in the place of
    /// what was remembered for it before. The cache grows only by a value
    /// that it has not seen.
    pub fn insert(&mut self, key_path: String, value_name: String, data: String)
        ensures
            final(self)@ == old(self)@.insert((key_path@, value_name@), data@),
            final(self).size() == old(self).size() + (if old(self)@.contains_key(
                (key_path@, value_name@),
            ) {
                0nat
            } else {
                1nat
            }),
    {
        proof {
            lemma_mapping_domain(self.entries@, (key_path@, value_name@));
        }
        let at = self.position(key_path.as_str(), value_name.as_str());
        let entry = CacheEntry { key_path, value_name, data };
        match at {
            Some(i) => {
                proof {
                    lemma_mapping_update(self.entries@, i as int, entry);
                }
                self.entries.set(i, entry);
            },
            None => {
                let ghost before = self.entries@;
                self.entries.push(entry);
                assert(self.entries@.drop_last() == before);
            },
        }
    }
}

} // verus!
