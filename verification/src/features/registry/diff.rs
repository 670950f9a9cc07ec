use vstd::prelude::*;
use crate::features::registry::cache::{AutorunCache, CacheKey};
use crate::features::registry::models::RegistryEventType;
use crate::shared::text::same_text;

verus! {

/// A value as it was read at one poll: where it stands and the data there.
pub struct Reading {
    pub key_path: Seq<char>,
    pub value_name: Seq<char>,
    pub data: Seq<char>,
}

impl Reading {
    /// The key under which the cache remembers the value.
    pub open spec fn key(self) -> CacheKey {
        (self.key_path, self.value_name)
    }
}

/// What a poll found to have changed about one value.
pub struct DetectedChange {
    pub event_type: RegistryEventType,
    pub key_path: Seq<char>,
    pub value_name: Seq<char>,
    pub old_data: Option<Seq<char>>,
    pub new_data: Seq<char>,
}

/// What changed about a value since the cache last saw it: a value that the
/// cache does not know was created, one whose data differs was modified, and
/// one whose data is the same gives nothing.
pub open spec fn diff(cache: Map<CacheKey, Seq<char>>, reading: Reading) -> Option<DetectedChange> {
    if !cache.contains_key(reading.key()) {
        Some(
            DetectedChange {
                event_type: RegistryEventType::Created,
                key_path: reading.key_path,
                value_name: reading.value_name,
                old_data: None,
                new_data: reading.data,
            },
        )
    } else if cache[reading.key()] != reading.data {
        Some(
            DetectedChange {
                event_type: RegistryEventType::Modified,
                key_path: reading.key_path,
                value_name: reading.value_name,
                old_data: Some(cache[reading.key()]),
                new_data: reading.data,
            },
        )
    } else {
        None
    }
}

/// The cache after a value was read: it remembers the data that was read,
/// whatever the diff said.
pub open spec fn remember(cache: Map<CacheKey, Seq<char>>, reading: Reading) -> Map<
    CacheKey,
    Seq<char>,
> {
    cache.insert(reading.key(), reading.data)
}

/// Reading the same data for a value twice in a row reports nothing the
/// second time and leaves the cache as the first reading left it.
pub proof fn lemma_second_reading_is_silent(cache: Map<CacheKey, Seq<char>>, reading: Reading)
    ensures
        diff(remember(cache, reading), reading) is None,
        remember(remember(cache, reading), reading) == remember(cache, reading),
{
}

/// A value that is read for the first time is reported as created; read again
/// with other data it is reported as modified, with the data of the first
/// reading as the old data and that of the second as the new; read once more
/// with the data of the second reading it is not reported.
pub proof fn lemma_created_then_modified_then_silent(
    cache: Map<CacheKey, Seq<char>>,
    key_path: Seq<char>,
    value_name: Seq<char>,
    first: Seq<char>,
    second: Seq<char>,
)
    requires
        !cache.contains_key((key_path, value_name)),
        first != second,
    ensures
        ({
            let one = Reading { key_path, value_name, data: first };
            let two = Reading { key_path, value_name, data: second };
            let after_one = remember(cache, one);
            let after_two = remember(after_one, two);
            &&& diff(cache, one) == Some(
                DetectedChange {
                    event_type: RegistryEventType::Created,
                    key_path,
                    value_name,
                    old_data: None,
                    new_data: first,
                },
            )
            &&& diff(after_one, two) == Some(
                DetectedChange {
                    event_type: RegistryEventType::Modified,
                    key_path,
                    value_name,
                    old_data: Some(first),
                    new_data: second,
                },
            )
            &&& diff(after_two, two) is None
        }),
{
}

/// Reading a value leaves what the cache remembers of every other value.
pub proof fn lemma_reading_leaves_others(
    cache: Map<CacheKey, Seq<char>>,
    reading: Reading,
    other: CacheKey,
)
    requires
        other != reading.key(),
    ensures
        remember(cache, reading).contains_key(other) == cache.contains_key(other),
        cache.contains_key(other) ==> remember(cache, reading)[other] == cache[other],
{
}

/// What the diff says of a value, without the place of the value.
#[derive(Debug, Clone)]
pub enum Change {
    /// The cache did not know the value.
    Created,
    /// The cache knew the value with other data.
    Modified { old_data: String },
}

impl Change {
    /// The kind of event that reports the change.
    pub open spec fn event_type(&self) -> RegistryEventType {
        match self {
            Change::Created => RegistryEventType::Created,
            Change::Modified { .. } => RegistryEventType::Modified,
        }
    }

    /// The data before the change, where there was any.
    pub open spec fn old_data(&self) -> Option<Seq<char>> {
        match self {
            Change::Created => None,
            Change::Modified { old_data } => Some(old_data@),
        }
    }

    /// The change, with the place of the value and the data that was read.
    pub open spec fn detected(&self, reading: Reading) -> DetectedChange {
        DetectedChange {
            event_type: self.event_type(),
            key_path: reading.key_path,
            value_name: reading.value_name,
            old_data: self.old_data(),
            new_data: reading.data,
        }
    }
}

/// The change of an optional result, with the place of the value.
pub open spec fn detected_view(change: Option<Change>, reading: Reading) -> Option<DetectedChange> {
    match change {
        Some(c) => Some(c.detected(reading)),
        None => None,
    }
}

/// Compares the data that was read for a value with what the cache
/// remembers of it.
pub fn diff_value(cache: &AutorunCache, key_path: &str, value_name: &str, data: &str) -> (change:
    Option<Change>)
    ensures
        detected_view(
            change,
            (Reading { key_path: key_path@, value_name: value_name@, data: data@ }),
        ) == diff(
            cache@,
            (Reading { key_path: key_path@, value_name: value_name@, data: data@ }),
        ),
{
    match cache.get(key_path, value_name) {
        Some(old_data) => {
            if same_text(old_data.as_str(), data) {
                None
            } else {
                Some(Change::Modified { old_data: old_data.clone() })
            }
        },
        None => Some(Change::Created),
    }
}

} // verus!
