use vstd::prelude::*;
use tokio::sync::mpsc::error::{TryRecvError, TrySendError};
use tokio::sync::mpsc::{channel, Receiver, Sender};
use crate::features::registry::cache::{AutorunCache, CacheKey};
use crate::features::registry::classifier::{classification, classify, record_view};
use crate::features::registry::diff::{
    diff, diff_value, lemma_second_reading_is_silent, remember, Change, DetectedChange, Reading,
};
use crate::features::registry::locations::{canonical, canonical_path, Hive, WatchedLocation};
use crate::features::registry::models::{
    RegistryEvent, RegistryEventBuilder, RegistryEventType, RegistryEventView,
    SuspiciousRegistryOperation, SuspiciousRegistryOperationView,
};
use crate::shared::error::CollectionError;
use crate::shared::ident::{generate_id, ID_LENGTH};
use crate::shared::sequence::kept;
use crate::shared::text::{decode, decoded, texts};
use crate::shared::traits::Validatable;

verus! {

/// The settings of the registry engine.
#[derive(Debug, Clone)]
pub struct RegistrySettings {
    pub check_interval_ms: u64,
    pub max_events_per_collection: usize,
}

/// The configuration of the registry engine: the sensitive paths, the
/// suspicious patterns and the settings.
#[derive(Debug, Clone)]
pub struct RegistryConfig {
    pub autorun_paths: Vec<String>,
    pub suspicious_patterns: Vec<String>,
    pub settings: RegistrySettings,
}

/// A value as the enumeration of a key handed it out: the key, and the name
/// and the data of the value as bytes.
#[derive(Debug, Clone)]
pub struct ObservedValue {
    pub hive: Hive,
    pub subkey: String,
    pub name: Vec<u8>,
    pub data: Vec<u8>,
}

/// An observed value as plain values, the key by its path.
pub struct ObservedValueView {
    pub key_path: Seq<char>,
    pub name: Seq<u8>,
    pub data: Seq<u8>,
}

impl View for ObservedValue {
    type V = ObservedValueView;

    open spec fn view(&self) -> ObservedValueView {
        ObservedValueView {
            key_path: canonical(self.hive, self.subkey@),
            name: self.name@,
            data: self.data@,
        }
    }
}

impl ObservedValueView {
    /// The value as text, where both its name and its data are well-formed
    /// UTF-8. A value that is not takes no part in the diff.
    pub open spec fn reading(self) -> Option<Reading> {
        if decoded(self.name) is Some && decoded(self.data) is Some {
            Some(
                Reading {
                    key_path: self.key_path,
                    value_name: decoded(self.name)->0,
                    data: decoded(self.data)->0,
                },
            )
        } else {
            None
        }
    }
}

/// What the diff says of one observed value.
pub open spec fn change_step(cache: Map<CacheKey, Seq<char>>, value: ObservedValueView) -> Option<
    DetectedChange,
> {
    match value.reading() {
        Some(reading) => diff(cache, reading),
        None => None,
    }
}

/// The cache after one observed value.
pub open spec fn cache_step(cache: Map<CacheKey, Seq<char>>, value: ObservedValueView) -> Map<
    CacheKey,
    Seq<char>,
> {
    match value.reading() {
        Some(reading) => remember(cache, reading),
        None => cache,
    }
}

/// The cache after a pass over observed values, taken in their order.
pub open spec fn cache_after(
    cache: Map<CacheKey, Seq<char>>,
    observed: Seq<ObservedValueView>,
) -> Map<CacheKey, Seq<char>>
    decreases observed.len(),
{
    if observed.len() == 0 {
        cache
    } else {
        cache_step(cache_after(cache, observed.drop_last()), observed.last())
    }
}

/// The changes that a pass over observed values finds, in their order. Each
/// value is compared with what the cache holds when its turn comes.
pub open spec fn changes(
    cache: Map<CacheKey, Seq<char>>,
    observed: Seq<ObservedValueView>,
) -> Seq<DetectedChange>
    decreases observed.len(),
{
    if observed.len() == 0 {
        Seq::empty()
    } else {
        let before = changes(cache, observed.drop_last());
        match change_step(cache_after(cache, observed.drop_last()), observed.last()) {
            Some(change) => before.push(change),
            None => before,
        }
    }
}

/// Observing the same value twice in a row, with nothing between, finds no
/// change the second time and leaves the cache as the first pass left it.
pub proof fn lemma_repeated_observation_is_silent(
    cache: Map<CacheKey, Seq<char>>,
    value: ObservedValueView,
)
    ensures
        changes(cache_after(cache, seq![value]), seq![value]) == Seq::<DetectedChange>::empty(),
        cache_after(cache_after(cache, seq![value]), seq![value]) == cache_after(
            cache,
            seq![value],
        ),
{
    let once = seq![value];
    assert(cache_after(cache, once.drop_last()) == cache);
    let first = cache_step(cache, value);
    assert(changes(first, once.drop_last()) == Seq::<DetectedChange>::empty());
    match value.reading() {
        Some(reading) => {
            lemma_second_reading_is_silent(cache, reading);
        },
        None => {},
    }
}

/// Whether no two values of an enumeration that can be read stand at the
/// same place: under the same key and the same name.
pub open spec fn distinct_places(observed: Seq<ObservedValueView>) -> bool {
    forall|i: int, j: int|
        0 <= i < j < observed.len() && (#[trigger] observed[i]).reading() is Some
            && (#[trigger] observed[j]).reading() is Some ==> observed[i].reading()->0.key()
            != observed[j].reading()->0.key()
}

/// Whether a cache remembers every value of an enumeration that can be read,
/// with the data that the enumeration gives for it.
pub open spec fn remembers(
    cache: Map<CacheKey, Seq<char>>,
    observed: Seq<ObservedValueView>,
) -> bool {
    forall|i: int|
        0 <= i < observed.len() && (#[trigger] observed[i]).reading() is Some
            ==> cache.contains_key(observed[i].reading()->0.key()) && cache[observed[i].reading()->0.key()]
            == observed[i].reading()->0.data
}

/// After a pass over an enumeration whose values stand at distinct places,
/// the cache remembers each of them as the enumeration gave it.
pub proof fn lemma_pass_is_remembered(
    cache: Map<CacheKey, Seq<char>>,
    observed: Seq<ObservedValueView>,
)
    requires
        distinct_places(observed),
    ensures
        remembers(cache_after(cache, observed), observed),
    decreases observed.len(),
{
    if observed.len() > 0 {
        let front = observed.drop_last();
        assert(distinct_places(front)) by {
            assert forall|i: int, j: int|
                0 <= i < j < front.len() && (#[trigger] front[i]).reading() is Some
                    && (#[trigger] front[j]).reading() is Some implies front[i].reading()->0.key()
                != front[j].reading()->0.key() by {
                assert(observed[i] == front[i]);
                assert(observed[j] == front[j]);
            }
        }
        lemma_pass_is_remembered(cache, front);
        let after = cache_after(cache, observed);
        assert forall|i: int|
            0 <= i < observed.len() && (#[trigger] observed[i]).reading() is Some implies after.contains_key(
            observed[i].reading()->0.key(),
        ) && after[observed[i].reading()->0.key()] == observed[i].reading()->0.data by {
            if i < observed.len() - 1 {
                assert(front[i] == observed[i]);
                assert(observed[observed.len() - 1] == observed.last());
            }
        }
    }
}

/// A pass over an enumeration that the cache remembers finds no change and
/// leaves the cache as it is.
pub proof fn lemma_remembered_pass_is_silent(
    cache: Map<CacheKey, Seq<char>>,
    observed: Seq<ObservedValueView>,
)
    requires
        remembers(cache, observed),
    ensures
        changes(cache, observed) == Seq::<DetectedChange>::empty(),
        cache_after(cache, observed) == cache,
    decreases observed.len(),
{
    if observed.len() > 0 {
        let front = observed.drop_last();
        assert(remembers(cache, front)) by {
            assert forall|i: int|
                0 <= i < front.len() && (#[trigger] front[i]).reading() is Some implies cache.contains_key(
                front[i].reading()->0.key(),
            ) && cache[front[i].reading()->0.key()] == front[i].reading()->0.data by {
                assert(observed[i] == front[i]);
            }
        }
        lemma_remembered_pass_is_silent(cache, front);
        assert(observed[observed.len() - 1] == observed.last());
        match observed.last().reading() {
            Some(reading) => {
                assert(remember(cache, reading) =~= cache);
            },
            None => {},
        }
    }
}

/// Observing the same enumeration twice in a row, with nothing between, finds
/// no change the second time and leaves the cache as the first pass left it,
/// provided that the values of the enumeration stand at distinct places.
pub proof fn lemma_repeated_pass_is_silent(
    cache: Map<CacheKey, Seq<char>>,
    observed: Seq<ObservedValueView>,
)
    requires
        distinct_places(observed),
    ensures
        changes(cache_after(cache, observed), observed) == Seq::<DetectedChange>::empty(),
        cache_after(cache_after(cache, observed), observed) == cache_after(cache, observed),
{
    lemma_pass_is_remembered(cache, observed);
    lemma_remembered_pass_is_silent(cache_after(cache, observed), observed);
}

/// The pull path reports each value at most once per pass: there are no more
/// changes than observed values.
pub proof fn lemma_changes_are_bounded(
    cache: Map<CacheKey, Seq<char>>,
    observed: Seq<ObservedValueView>,
)
    ensures
        changes(cache, observed).len() <= observed.len(),
    decreases observed.len(),
{
    if observed.len() > 0 {
        lemma_changes_are_bounded(cache, observed.drop_last());
    }
}

/// Whether an event reports a change, for a given source, under a generated
/// identifier and a timestamp of its own.
pub open spec fn reports(event: RegistryEventView, change: DetectedChange, source: Seq<char>) -> bool {
    event.id.len() == ID_LENGTH && event == (RegistryEventView {
        id: event.id,
        timestamp: event.timestamp,
        source,
        category: "registry"@,
        event_type: change.event_type,
        key_path: change.key_path,
        value_name: Some(change.value_name),
        old_data: change.old_data,
        new_data: Some(change.new_data),
        process_name: None,
        process_id: None,
    })
}

/// Whether events report changes one for one, in order.
pub open spec fn report_all(
    events: Seq<RegistryEvent>,
    found: Seq<DetectedChange>,
    source: Seq<char>,
) -> bool {
    &&& events.len() == found.len()
    &&& forall|k: int| 0 <= k < events.len() ==> reports((#[trigger] events[k])@, found[k], source)
}

/// The observed values of a list, as plain values.
pub open spec fn observed_views(observed: Seq<ObservedValue>) -> Seq<ObservedValueView> {
    observed.map_values(|v: ObservedValue| v@)
}

/// Whether an event is the generic one that a signal on a watched key gives:
/// a modification of the key, without detail, under a generated identifier
/// and a timestamp of its own.
pub open spec fn signals(event: RegistryEventView, source: Seq<char>, key_path: Seq<char>) -> bool {
    event.id.len() == ID_LENGTH && event == (RegistryEventView {
        id: event.id,
        timestamp: event.timestamp,
        source,
        category: "registry"@,
        event_type: RegistryEventType::Modified,
        key_path,
        value_name: None,
        old_data: None,
        new_data: None,
        process_name: None,
        process_id: None,
    })
}

/// What the background loop does after it has reported a signal.
#[derive(Debug, Clone, Copy, PartialEq, Eq, Structural)]
pub enum MonitorAction {
    /// The event is queued: go on.
    Continue,
    /// The queue was full and the event is lost, which is worth a warning:
    /// go on.
    ContinueAfterDrop,
    /// The collector is gone: end the loop.
    Stop,
}

/// How many events the queue between the background loop and the collector
/// holds.
pub const PUSH_QUEUE_CAPACITY: usize = 100;

/// What the background loop does next, read off the channel's answer.
pub fn monitor_action_of(answer: Result<(), TrySendError<RegistryEvent>>) -> (action: MonitorAction)
    ensures
        action == match answer {
            Ok(_) => MonitorAction::Continue,
            Err(TrySendError::Full(_)) => MonitorAction::ContinueAfterDrop,
            Err(TrySendError::Closed(_)) => MonitorAction::Stop,
        },
{
    match answer {
        Ok(_) => MonitorAction::Continue,
        Err(TrySendError::Full(_)) => MonitorAction::ContinueAfterDrop,
        Err(TrySendError::Closed(_)) => MonitorAction::Stop,
    }
}

/// The event for a signal on a watched key: the operating system tells that
/// something changed there, not what.
pub fn signal_event(hostname: &str, location: &WatchedLocation) -> (event: RegistryEvent)
    ensures
        signals(event@, hostname@, canonical(location.hive, location.subkey@)),
        event@.valid(),
{
    let key_path = location.canonical_path();
    let built = RegistryEventBuilder::new().source(String::from_str(hostname)).category(
        String::from_str("registry"),
    ).event_type(RegistryEventType::Modified).key_path(key_path).build();
    match built {
        Ok(event) => event,
        Err(_) => {
            unreached()
        },
    }
}

/// Reports a signal on a watched key to the collector, without ever waiting,
/// and says what the background loop does next.
pub fn report_signal(
    queue: &Sender<RegistryEvent>,
    hostname: &str,
    location: &WatchedLocation,
) -> (action: MonitorAction)
{
    let event = signal_event(hostname, location);
    monitor_action_of(queue.try_send(event))
}

/// The event that reports a change of a value, if the key path is not empty.
pub fn change_event(
    hostname: &str,
    key_path: String,
    value_name: String,
    data: String,
    change: Change,
) -> (event: Option<RegistryEvent>)
    ensures
        event is Some <==> key_path@.len() > 0,
        event matches Some(e) ==> reports(
            e@,
            change.detected(
                (Reading { key_path: key_path@, value_name: value_name@, data: data@ }),
            ),
            hostname@,
        ) && e@.valid(),
{
    let builder = RegistryEventBuilder::new().source(String::from_str(hostname)).category(
        String::from_str("registry"),
    ).key_path(key_path).value_name(value_name).new_data(data);
    let built = match change {
        Change::Created => builder.event_type(RegistryEventType::Created).build(),
        Change::Modified { old_data } => builder.event_type(RegistryEventType::Modified).old_data(
            old_data,
        ).build(),
    };
    match built {
        Ok(event) => Some(event),
        Err(_) => None,
    }
}

/// The registry engine: it takes the events of the push path as they come
/// and finds, by polling, what changed under the autorun locations.
pub struct RegistryCollector {
    config: RegistryConfig,
    autorun_cache: AutorunCache,
    event_receiver: Option<Receiver<RegistryEvent>>,
    hostname: String,
}

/// What the engine was set up with, and what its cache remembers.
pub struct RegistryCollectorView {
    pub sensitive_paths: Seq<Seq<char>>,
    pub suspicious_patterns: Seq<Seq<char>>,
    pub check_interval_ms: u64,
    pub max_events_per_collection: usize,
    pub hostname: Seq<char>,
    pub cache: Map<CacheKey, Seq<char>>,
    pub has_push_path: bool,
}

impl View for RegistryCollector {
    type V = RegistryCollectorView;

    closed spec fn view(&self) -> RegistryCollectorView {
        RegistryCollectorView {
            sensitive_paths: texts(self.config.autorun_paths@),
            suspicious_patterns: texts(self.config.suspicious_patterns@),
            check_interval_ms: self.config.settings.check_interval_ms,
            max_events_per_collection: self.config.settings.max_events_per_collection,
            hostname: self.hostname@,
            cache: self.autorun_cache@,
            has_push_path: self.event_receiver is Some,
        }
    }
}

/// The records of a list, as plain values.
pub open spec fn record_views(records: Seq<SuspiciousRegistryOperation>) -> Seq<
    SuspiciousRegistryOperationView,
> {
    records.map_values(|r: SuspiciousRegistryOperation| r@)
}

impl RegistryCollectorView {
    /// Whether `result` is what classification gives for an event: the record
    /// for the event under the record's own identifier, or nothing.
    pub open spec fn flags(
        self,
        event: RegistryEventView,
        result: Option<SuspiciousRegistryOperationView>,
    ) -> bool {
        match result {
            Some(record) => classification(
                event,
                self.suspicious_patterns,
                self.sensitive_paths,
                self.hostname,
                record.id,
            ) == Some(record),
            None => classification(
                event,
                self.suspicious_patterns,
                self.sensitive_paths,
                self.hostname,
                Seq::empty(),
            ) is None,
        }
    }

    /// The engine as it is set up from a configuration, with an empty cache.
    pub open spec fn initial(
        config: RegistryConfig,
        hostname: Seq<char>,
        has_push_path: bool,
    ) -> RegistryCollectorView {
        RegistryCollectorView {
            sensitive_paths: texts(config.autorun_paths@),
            suspicious_patterns: texts(config.suspicious_patterns@),
            check_interval_ms: config.settings.check_interval_ms,
            max_events_per_collection: config.settings.max_events_per_collection,
            hostname,
            cache: Map::empty(),
            has_push_path,
        }
    }
}

impl RegistryCollector {
    /// Sets the engine up with an empty cache and a queue for the push path,
    /// and hands out the queue's sending end for the background loop.
    pub fn new(config: RegistryConfig, hostname: String) -> (r: Result<
        (RegistryCollector, Sender<RegistryEvent>),
        CollectionError,
    >)
        ensures
            r matches Ok((collector, _)) && collector@ == RegistryCollectorView::initial(
                config,
                hostname@,
                true,
            ),
    {
        let (sender, receiver) = channel::<RegistryEvent>(PUSH_QUEUE_CAPACITY);
        let collector = RegistryCollector {
            config,
            autorun_cache: AutorunCache::new(),
            event_receiver: Some(receiver),
            hostname,
        };
        Ok((collector, sender))
    }

    /// Sets the engine up with an empty cache and without a push path, as on
    /// a platform that cannot watch keys. Such an engine still polls;
    /// `validate` reports that it is not whole.
    pub fn without_push_path(config: RegistryConfig, hostname: String) -> (collector:
        RegistryCollector)
        ensures
            collector@ == RegistryCollectorView::initial(config, hostname@, false),
    {
        RegistryCollector {
            config,
            autorun_cache: AutorunCache::new(),
            event_receiver: None,
            hostname,
        }
    }

    /// How long the background loop sleeps between two rounds, in
    /// milliseconds.
    pub fn check_interval_ms(&self) -> (ms: u64)
        ensures
            ms == self@.check_interval_ms,
    {
        self.config.settings.check_interval_ms
    }

    /// How many events of the push path one collection takes at most.
    pub fn max_events_per_collection(&self) -> (max: usize)
        ensures
            max == self@.max_events_per_collection,
    {
        self.config.settings.max_events_per_collection
    }

    /// The process that an event names: the one that was found, or the
    /// sentinel `("unknown", 0)`.
    pub fn get_process_info(found: Option<(u32, String)>) -> (process: (String, u32))
        ensures
            match found {
                Some((pid, name)) => process.0@ == name@ && process.1 == pid,
                None => process.0@ == "unknown"@ && process.1 == 0,
            },
    {
        match found {
            Some((pid, name)) => (name, pid),
            None => (String::from_str("unknown"), 0),
        }
    }

    /// Compares one observed value with the cache and remembers it. A value
    /// whose name or data is not well-formed UTF-8 is passed over.
    pub fn check_value(&mut self, value: &ObservedValue) -> (event: Option<RegistryEvent>)
        ensures
            final(self)@ == (RegistryCollectorView {
                cache: cache_step(old(self)@.cache, value@),
                ..old(self)@
            }),
            event is Some <==> change_step(old(self)@.cache, value@) is Some,
            event matches Some(e) ==> reports(
                e@,
                change_step(old(self)@.cache, value@)->0,
                old(self)@.hostname,
            ) && e@.valid(),
    {
        let name = match decode(&value.name) {
            Some(name) => name,
            None => { return None; },
        };
        let data = match decode(&value.data) {
            Some(data) => data,
            None => { return None; },
        };
        let key_path = canonical_path(value.hive, value.subkey.as_str());
        let change = diff_value(
            &self.autorun_cache,
            key_path.as_str(),
            name.as_str(),
            data.as_str(),
        );
        let event = match change {
            Some(change) => change_event(
                self.hostname.as_str(),
                key_path.clone(),
                name.clone(),
                data.clone(),
                change,
            ),
            None => None,
        };
        self.autorun_cache.insert(key_path, name, data);
        event
    }

    /// The pull path: compares every observed value with the cache, in the
    /// order given, and reports what was created or modified. The cache then
    /// remembers each value as it was observed.
    pub fn check_autorun_entries(&mut self, observed: &Vec<ObservedValue>) -> (events: Vec<
        RegistryEvent,
    >)
        ensures
            final(self)@ == (RegistryCollectorView {
                cache: cache_after(old(self)@.cache, observed_views(observed@)),
                ..old(self)@
            }),
            report_all(
                events@,
                changes(old(self)@.cache, observed_views(observed@)),
                old(self)@.hostname,
            ),
            events.len() <= observed.len(),
            forall|k: int| 0 <= k < events.len() ==> (#[trigger] events@[k])@.valid(),
    {
        let mut events: Vec<RegistryEvent> = Vec::new();
        let ghost views = observed_views(observed@);
        proof {
            lemma_changes_are_bounded(old(self)@.cache, views);
        }
        let mut i: usize = 0;
        while i < observed.len()
            invariant
                i <= observed.len(),
                views == observed_views(observed@),
                self@ == (RegistryCollectorView {
                    cache: cache_after(old(self)@.cache, views.subrange(0, i as int)),
                    ..old(self)@
                }),
                report_all(
                    events@,
                    changes(old(self)@.cache, views.subrange(0, i as int)),
                    old(self)@.hostname,
                ),
                forall|k: int| 0 <= k < events.len() ==> (#[trigger] events@[k])@.valid(),
            decreases observed.len() - i,
        {
            let ghost seen = views.subrange(0, i as int);
            let ghost next = views.subrange(0, i + 1);
            assert(next.drop_last() == seen);
            let event = self.check_value(&observed[i]);
            match event {
                Some(e) => {
                    events.push(e);
                },
                None => {},
            }
            i += 1;
        }
        assert(views.subrange(0, observed.len() as int) == views);
        events
    }

    /// Classifies an event against the configured suspicious patterns and
    /// sensitive paths. The record gets a fresh identifier.
    pub fn check_suspicious_operations(&self, event: &RegistryEvent) -> (record: Option<
        SuspiciousRegistryOperation,
    >)
        ensures
            self@.flags(event@, record_view(record)),
            record matches Some(r) ==> r@.id.len() == ID_LENGTH && r@.valid(),
    {
        classify(
            event,
            &self.config.suspicious_patterns,
            &self.config.autorun_paths,
            self.hostname.as_str(),
            generate_id(),
        )
    }

    /// Takes the events of the push path that are queued now, in the order of
    /// arrival and at most as many as one collection may take, without
    /// waiting for more. An event that breaks its invariant is dropped.
    pub fn drain_push_events(&mut self) -> (events: Vec<RegistryEvent>)
        ensures
            final(self)@ == old(self)@,
            events.len() <= old(self)@.max_events_per_collection,
            !old(self)@.has_push_path ==> events.len() == 0,
            forall|k: int| 0 <= k < events.len() ==> (#[trigger] events@[k])@.valid(),
    {
        let mut events: Vec<RegistryEvent> = Vec::new();
        let max = self.config.settings.max_events_per_collection;
        let mut receiver = match self.event_receiver.take() {
            Some(receiver) => receiver,
            None => { return events; },
        };
        let mut taken: usize = 0;
        while taken < max
            invariant
                events.len() <= taken <= max,
                forall|k: int| 0 <= k < events.len() ==> (#[trigger] events@[k])@.valid(),
            decreases max - taken,
        {
            let answer = receiver.try_recv();
            if !accept_push_event(&mut events, answer) {
                break ;
            }
            taken += 1;
        }
        self.event_receiver = Some(receiver);
        events
    }

    /// One collection: first the events of the push path that are queued now,
    /// up to the configured maximum, then what the pull path finds among the
    /// observed values. The two parts are joined in this order and not sorted.
    pub fn collect(&mut self, observed: &Vec<ObservedValue>) -> (r: Result<
        Vec<RegistryEvent>,
        CollectionError,
    >)
        ensures
            final(self)@ == (RegistryCollectorView {
                cache: cache_after(old(self)@.cache, observed_views(observed@)),
                ..old(self)@
            }),
            r matches Ok(events) && ({
                let found = changes(old(self)@.cache, observed_views(observed@));
                let pushed = events.len() - found.len();
                &&& 0 <= pushed <= old(self)@.max_events_per_collection
                &&& found.len() <= observed.len()
                &&& !old(self)@.has_push_path ==> pushed == 0
                &&& report_all(
                    events@.subrange(pushed, events.len() as int),
                    found,
                    old(self)@.hostname,
                )
                &&& forall|k: int| 0 <= k < events.len() ==> (#[trigger] events@[k])@.valid()
            }),
    {
        let pushed = self.drain_push_events();
        let ghost taken = pushed@;
        let r = self.collect_behind(pushed, observed);
        proof {
            let events = r->Ok_0@;
            lemma_changes_are_bounded(old(self)@.cache, observed_views(observed@));
            assert forall|k: int| 0 <= k < events.len() implies (#[trigger] events[k])@.valid() by {
                if k < taken.len() {
                    assert(events[k] == events.subrange(0, taken.len() as int)[k]);
                }
            }
        }
        r
    }

    /// One collection, given the events that were taken from the push path:
    /// they come first, as they are and in their order, and behind them what
    /// the pull path finds among the observed values. The cache then
    /// remembers each value as it was observed.
    pub fn collect_behind(
        &mut self,
        pushed: Vec<RegistryEvent>,
        observed: &Vec<ObservedValue>,
    ) -> (r: Result<Vec<RegistryEvent>, CollectionError>)
        ensures
            final(self)@ == (RegistryCollectorView {
                cache: cache_after(old(self)@.cache, observed_views(observed@)),
                ..old(self)@
            }),
            r matches Ok(events) && ({
                let found = changes(old(self)@.cache, observed_views(observed@));
                &&& events.len() == pushed.len() + found.len()
                &&& events@.subrange(0, pushed.len() as int) == pushed@
                &&& report_all(
                    events@.subrange(pushed.len() as int, events.len() as int),
                    found,
                    old(self)@.hostname,
                )
                &&& forall|k: int|
                    pushed.len() <= k < events.len() ==> (#[trigger] events@[k])@.valid()
            }),
    {
        let mut events = pushed;
        let mut found = self.check_autorun_entries(observed);
        events.append(&mut found);
        Ok(events)
    }

    /// The records for those of the events that classification flags, in the
    /// order of the events.
    pub fn suspicious_operations(&self, events: &Vec<RegistryEvent>) -> (records: Vec<
        SuspiciousRegistryOperation,
    >)
        ensures
            exists|results: Seq<Option<SuspiciousRegistryOperationView>>|
                {
                    &&& results.len() == events.len()
                    &&& forall|i: int|
                        0 <= i < results.len() ==> self@.flags(
                            (#[trigger] events@[i])@,
                            results[i],
                        )
                    &&& record_views(records@) == kept(results)
                },
    {
        let mut records: Vec<SuspiciousRegistryOperation> = Vec::new();
        let ghost mut results: Seq<Option<SuspiciousRegistryOperationView>> = Seq::empty();
        let mut i: usize = 0;
        while i < events.len()
            invariant
                i <= events.len(),
                results.len() == i,
                forall|j: int|
                    0 <= j < i ==> self@.flags((#[trigger] events@[j])@, results[j]),
                record_views(records@) == kept(results),
            decreases events.len() - i,
        {
            let record = self.check_suspicious_operations(&events[i]);
            proof {
                let ghost before = results;
                results = results.push(record_view(record));
                assert(results.drop_last() == before);
            }
            match record {
                Some(record) => {
                    records.push(record);
                },
                None => {},
            }
            i += 1;
        }
        records
    }

    /// Checks that the engine has its push path.
    pub fn internal_validate(&self) -> (r: Result<(), CollectionError>)
        ensures
            r is Ok <==> self@.has_push_path,
            r matches Err(e) ==> e matches CollectionError::SystemApi(message) && message@
                == "Registry event receiver not initialized"@,
    {
        if self.event_receiver.is_none() {
            return Err(
                CollectionError::SystemApi(
                    String::from_str("Registry event receiver not initialized"),
                ),
            );
        }
        Ok(())
    }

    /// Checks that the engine has its push path.
    pub fn validate(&self) -> (r: Result<(), CollectionError>)
        ensures
            r is Ok <==> self@.has_push_path,
            r matches Err(e) ==> e matches CollectionError::SystemApi(message) && message@
                == "Registry event receiver not initialized"@,
    {
        self.internal_validate()
    }

    /// Whether `validate` succeeds.
    pub fn health_check(&self) -> (healthy: bool)
        ensures
            healthy == self@.has_push_path,
    {
        self.internal_validate().is_ok()
    }
}

/// What one answer of the push queue means for the events taken so far: an
/// event that meets its invariant joins them at the end, one that breaks it
/// is dropped, and either way the queue may hold more; any other answer
/// leaves them as they are and ends the taking.
pub fn accept_push_event(
    events: &mut Vec<RegistryEvent>,
    answer: Result<RegistryEvent, TryRecvError>,
) -> (more: bool)
    ensures
        match answer {
            Ok(event) => more && final(events)@ == (if event@.valid() {
                old(events)@.push(event)
            } else {
                old(events)@
            }),
            Err(_) => !more && final(events)@ == old(events)@,
        },
{
    match answer {
        Ok(event) => {
            if event.is_valid() {
                events.push(event);
            }
            true
        },
        Err(_) => false,
    }
}

} // verus!
