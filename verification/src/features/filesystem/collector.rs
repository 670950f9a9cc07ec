use vstd::prelude::*;
use tokio::sync::mpsc::error::{TryRecvError, TrySendError};
use tokio::sync::mpsc::{channel, Receiver, Sender};
use crate::features::filesystem::models::{
    FileEvent, FileEventBuilder, FileEventType, FileEventView,
};
use crate::shared::channel::MAX_CHANNEL_CAPACITY;
use crate::shared::clock::Timestamp;
use crate::shared::digest::{sha256_hex, sha256_hex_digest, SHA256_HEX_LENGTH};
use crate::shared::error::CollectionError;
use crate::shared::ident::{generate_id, ID_LENGTH};
use crate::shared::sequence::kept;
use crate::shared::scan::{last_position_of, tail};
use crate::shared::text::{
    chars_of, joined, list_contains, replace_all, replaced, text_of, texts,
};

verus! {

/// The filter settings of the filesystem engine.
#[derive(Debug, Clone)]
pub struct MonitorSettings {
    pub recursive: bool,
    pub extensions: Vec<String>,
}

/// The configuration of the filesystem engine: the watched paths and the
/// filter settings.
#[derive(Debug, Clone)]
pub struct MonitorConfig {
    pub paths: Vec<String>,
    pub settings: MonitorSettings,
}

/// The kind of change that the operating system reports.
#[derive(Debug, Clone, Copy, PartialEq, Eq, Structural)]
pub enum NotificationKind {
    Any,
    Access,
    Create,
    Modify,
    Remove,
    Other,
}

/// One notification of the operating system: what happened, and to which
/// paths.
#[derive(Debug, Clone)]
pub struct Notification {
    pub kind: NotificationKind,
    pub paths: Vec<String>,
}

/// What a stat of a path tells.
#[derive(Debug, Clone, Copy, PartialEq, Eq, Structural)]
pub struct FileMetadata {
    pub is_dir: bool,
    pub len: u64,
}

/// What was found out about the first path of a notification: its stat, its
/// contents, and the process that the event is put down to. Each is `None`
/// where the lookup failed.
#[derive(Debug, Clone)]
pub struct FileProbe {
    pub metadata: Option<FileMetadata>,
    pub contents: Option<Vec<u8>>,
    pub process: Option<(u32, String)>,
}

/// A notification together with what was found out about its subject.
#[derive(Debug, Clone)]
pub struct Observation {
    pub notification: Notification,
    pub probe: FileProbe,
}

/// A notification as plain values.
pub struct NotificationView {
    pub kind: NotificationKind,
    pub paths: Seq<Seq<char>>,
}

/// A probe as plain values.
pub struct FileProbeView {
    pub metadata: Option<FileMetadata>,
    pub contents: Option<Seq<u8>>,
    pub process: Option<(u32, Seq<char>)>,
}

/// An observation as plain values.
pub struct ObservationView {
    pub notification: NotificationView,
    pub probe: FileProbeView,
}

impl View for Notification {
    type V = NotificationView;

    open spec fn view(&self) -> NotificationView {
        NotificationView { kind: self.kind, paths: texts(self.paths@) }
    }
}

impl View for FileProbe {
    type V = FileProbeView;

    open spec fn view(&self) -> FileProbeView {
        FileProbeView {
            metadata: self.metadata,
            contents: match self.contents {
                Some(bytes) => Some(bytes@),
                None => None,
            },
            process: match self.process {
                Some((pid, name)) => Some((pid, name@)),
                None => None,
            },
        }
    }
}

impl View for Observation {
    type V = ObservationView;

    open spec fn view(&self) -> ObservationView {
        ObservationView { notification: self.notification@, probe: self.probe@ }
    }
}

/// What became of a notification that the delivery context handed over.
#[derive(Debug, Clone, Copy, PartialEq, Eq, Structural)]
pub enum Delivery {
    /// The queue took it.
    Queued,
    /// The queue was full: the notification is lost, which is worth a warning
    /// and nothing more.
    DroppedFull,
    /// The collector is gone: the notification is lost.
    DroppedClosed,
}

/// What is to be done with a configured path when the engine starts.
#[derive(Debug, Clone, Copy, PartialEq, Eq, Structural)]
pub enum WatchDecision {
    /// Register a watch on it.
    Watch,
    /// Skip it: it is no directory.
    SkipNotDirectory,
    /// Skip it: it does not exist or cannot be read.
    SkipMissing,
}

/// How many notifications the queue between the delivery context and the
/// collector holds.
pub const QUEUE_CAPACITY: usize = 100;

/// A path with every backslash turned into a slash.
pub open spec fn normalized(path: Seq<char>) -> Seq<char> {
    path.map_values(|c: char| if c == '\\' { '/' } else { c })
}

/// The placeholder for the user's profile directory.
pub open spec fn profile_placeholder() -> Seq<char> {
    "${USERPROFILE}"@
}

/// A configured path with the placeholder filled in, where the profile
/// directory is known, and the separators normalized.
pub open spec fn expanded(path: Seq<char>, user_profile: Option<Seq<char>>) -> Seq<char> {
    match user_profile {
        Some(profile) => normalized(replaced(path, profile_placeholder(), normalized(profile))),
        None => normalized(path),
    }
}

/// Whether a file with this extension passes the filter: the extension with
/// a dot before it is one of the accepted ones.
pub open spec fn extension_accepted(
    extension: Option<Seq<char>>,
    accepted: Seq<Seq<char>>,
) -> bool {
    extension matches Some(e) && accepted.contains(seq!['.'] + e)
}

/// The event kind that a notification kind maps to, if any.
pub open spec fn event_type_of_kind(kind: NotificationKind) -> Option<FileEventType> {
    match kind {
        NotificationKind::Create => Some(FileEventType::Created),
        NotificationKind::Modify => Some(FileEventType::Modified),
        NotificationKind::Remove => Some(FileEventType::Deleted),
        _ => None,
    }
}

/// The name of a file type.
pub open spec fn file_type_name(is_dir: bool) -> Seq<char> {
    if is_dir {
        "directory"@
    } else {
        "file"@
    }
}

/// The hash that an event carries: the digest of the contents where they were
/// read, the empty text where they were not.
pub open spec fn hash_or_empty(contents: Option<Seq<u8>>) -> Seq<char> {
    match contents {
        Some(bytes) => sha256_hex_digest(bytes),
        None => Seq::empty(),
    }
}

/// The process that an event names: the one that was found, or the sentinel.
pub open spec fn process_or_unknown(found: Option<(u32, Seq<char>)>) -> (u32, Seq<char>) {
    match found {
        Some(process) => process,
        None => (0u32, "unknown"@),
    }
}

/// The extension that `std::path::Path::extension` finds in a path: the part
/// of the path's file name behind the last dot of that name, if the name has
/// a dot that is not its first character. Where the file name begins in a
/// path goes by the separators of the platform that the library is built
/// for.
pub uninterp spec fn extension_of(path: Seq<char>) -> Option<Seq<char>>;

/// Whether a path is a plain name: it holds no slash, no backslash and no
/// colon, so that on every platform it is its own file name, if it has one.
pub open spec fn is_plain_name(path: Seq<char>) -> bool {
    &&& !path.contains('/')
    &&& !path.contains('\\')
    &&& !path.contains(':')
}

/// The extension of a plain name: what follows its last dot, provided that
/// something stands before that dot and the name is not `..`.
pub open spec fn plain_extension(name: Seq<char>) -> Option<Seq<char>> {
    match last_position_of(name, '.', name.len() as int) {
        Some(at) => if at > 0 && name != ".."@ {
            Some(tail(name, at + 1))
        } else {
            None
        },
        None => None,
    }
}

/// Reads the extension off a path with `std::path::Path::extension`, which
/// looks at the path alone. Of a plain name every platform reads the same:
/// what follows the last dot, unless nothing stands before that dot or the
/// name is `..`.
#[verifier::external_body]
fn path_extension(path: &str) -> (extension: Option<String>)
    ensures
        text_of(extension) == extension_of(path@),
        is_plain_name(path@) ==> text_of(extension) == plain_extension(path@),
{
    std::path::Path::new(path).extension().and_then(|e| e.to_str()).map(|e| e.to_string())
}

/// Turns every backslash of a path into a slash.
pub fn normalize_path(path: &str) -> (out: String)
    ensures
        out@ == normalized(path@),
{
    let chars = chars_of(path);
    let mut out = String::new();
    let mut i: usize = 0;
    while i < chars.len()
        invariant
            i <= chars.len(),
            chars@ == path@,
            out@ == normalized(path@).subrange(0, i as int),
        decreases chars.len() - i,
    {
        let c = chars[i];
        if c == '\\' {
            out.push('/');
        } else {
            out.push(c);
        }
        i += 1;
    }
    out
}

/// Fills the placeholder for the user's profile directory into a configured
/// path, where that directory is known, and normalizes the separators.
pub fn expand_env_vars(path: &str, user_profile: Option<&str>) -> (out: String)
    ensures
        out@ == expanded(
            path@,
            match user_profile {
                Some(profile) => Some(profile@),
                None => None,
            },
        ),
{
    match user_profile {
        Some(profile) => {
            let home = normalize_path(profile);
            let filled = replace_all(path, "${USERPROFILE}", home.as_str());
            normalize_path(filled.as_str())
        },
        None => normalize_path(path),
    }
}

/// Decides what to do with a configured path, given its stat.
pub fn watch_decision(metadata: Option<FileMetadata>) -> (decision: WatchDecision)
    ensures
        decision == match metadata {
            Some(m) => if m.is_dir {
                WatchDecision::Watch
            } else {
                WatchDecision::SkipNotDirectory
            },
            None => WatchDecision::SkipMissing,
        },
{
    match metadata {
        Some(m) => if m.is_dir {
            WatchDecision::Watch
        } else {
            WatchDecision::SkipNotDirectory
        },
        None => WatchDecision::SkipMissing,
    }
}

/// What became of a notification, read off the channel's answer.
pub fn delivery_of(answer: Result<(), TrySendError<Notification>>) -> (delivery: Delivery)
    ensures
        delivery == match answer {
            Ok(_) => Delivery::Queued,
            Err(TrySendError::Full(_)) => Delivery::DroppedFull,
            Err(TrySendError::Closed(_)) => Delivery::DroppedClosed,
        },
{
    match answer {
        Ok(_) => Delivery::Queued,
        Err(TrySendError::Full(_)) => Delivery::DroppedFull,
        Err(TrySendError::Closed(_)) => Delivery::DroppedClosed,
    }
}

/// Hands a notification to the queue without ever waiting: a notification
/// that finds the queue full is dropped.
pub fn deliver(queue: &Sender<Notification>, notification: Notification) -> (delivery: Delivery)
{
    delivery_of(queue.try_send(notification))
}

/// Whether a file with this extension passes the filter.
pub fn accepts_extension(extension: Option<&str>, accepted: &Vec<String>) -> (r: bool)
    ensures
        r == extension_accepted(
            match extension {
                Some(e) => Some(e@),
                None => None,
            },
            texts(accepted@),
        ),
{
    match extension {
        Some(e) => {
            let dotted = joined(".", e);
            proof {
                reveal_strlit(".");
                assert("."@ == seq!['.']);
            }
            list_contains(accepted, dotted.as_str())
        },
        None => false,
    }
}

/// The event kind that a notification kind maps to, if any.
pub fn event_type_of(kind: NotificationKind) -> (r: Option<FileEventType>)
    ensures
        r == event_type_of_kind(kind),
{
    match kind {
        NotificationKind::Create => Some(FileEventType::Created),
        NotificationKind::Modify => Some(FileEventType::Modified),
        NotificationKind::Remove => Some(FileEventType::Deleted),
        _ => None,
    }
}

/// The file type and size that a stat tells.
pub fn get_file_info(metadata: Option<FileMetadata>) -> (info: Option<(String, u64)>)
    ensures
        match info {
            Some((file_type, size)) => metadata matches Some(m) && file_type@ == file_type_name(
                m.is_dir,
            ) && size == m.len,
            None => metadata is None,
        },
{
    match metadata {
        Some(m) => {
            let file_type = if m.is_dir {
                String::from_str("directory")
            } else {
                String::from_str("file")
            };
            Some((file_type, m.len))
        },
        None => None,
    }
}

/// The digest of a file's contents, where they were read.
pub fn calculate_file_hash(contents: &Option<Vec<u8>>) -> (hash: Option<String>)
    ensures
        match hash {
            Some(h) => contents matches Some(bytes) && h@ == sha256_hex_digest(bytes@) && h@.len()
                == SHA256_HEX_LENGTH,
            None => contents is None,
        },
{
    match contents {
        Some(bytes) => Some(sha256_hex(bytes.as_slice())),
        None => None,
    }
}

/// The process that an event names: the one that was found, or the sentinel
/// `(0, "unknown")`.
pub fn get_process_info(found: &Option<(u32, String)>) -> (process: (u32, String))
    ensures
        (process.0, process.1@) == process_or_unknown(
            match found {
                Some((pid, name)) => Some((*pid, name@)),
                None => None,
            },
        ),
{
    match found {
        Some((pid, name)) => (*pid, name.clone()),
        None => (0, String::from_str("unknown")),
    }
}

/// The filesystem engine: it takes the notifications that the delivery
/// context has queued and turns them into validated file events.
pub struct FileSystemCollector {
    event_receiver: Receiver<Notification>,
    config: MonitorConfig,
    hostname: String,
    capacity: usize,
}

/// What the engine was set up with.
pub struct FileSystemCollectorView {
    pub paths: Seq<Seq<char>>,
    pub recursive: bool,
    pub extensions: Seq<Seq<char>>,
    pub hostname: Seq<char>,
    pub capacity: nat,
}

impl View for FileSystemCollector {
    type V = FileSystemCollectorView;

    closed spec fn view(&self) -> FileSystemCollectorView {
        FileSystemCollectorView {
            paths: texts(self.config.paths@),
            recursive: self.config.settings.recursive,
            extensions: texts(self.config.settings.extensions@),
            hostname: self.hostname@,
            capacity: self.capacity as nat,
        }
    }
}

/// The events of a list, as plain values.
pub open spec fn event_views(events: Seq<FileEvent>) -> Seq<FileEventView> {
    events.map_values(|e: FileEvent| e@)
}

/// The extension of the first path of a notification, if it names a path and
/// that path has an extension.
pub open spec fn first_extension(notification: NotificationView) -> Option<Seq<char>> {
    if notification.paths.len() > 0 {
        extension_of(notification.paths[0])
    } else {
        None
    }
}

impl FileSystemCollectorView {
    /// Whether a notification gives an event: it names a path, the path is a
    /// directory or has an accepted extension, the kind is one that is
    /// reported, the stat succeeded, and the event meets its invariants (the
    /// path is not empty and the size is not zero).
    pub open spec fn selects(
        self,
        notification: NotificationView,
        probe: FileProbeView,
        extension: Option<Seq<char>>,
    ) -> bool {
        &&& notification.paths.len() > 0
        &&& probe.metadata matches Some(m)
        &&& m.is_dir || extension_accepted(extension, self.extensions)
        &&& event_type_of_kind(notification.kind) is Some
        &&& notification.paths[0].len() > 0
        &&& m.len > 0
    }

    /// The event that a selected notification gives.
    pub open spec fn candidate(
        self,
        notification: NotificationView,
        probe: FileProbeView,
        id: Seq<char>,
        timestamp: Timestamp,
    ) -> FileEventView {
        FileEventView {
            id,
            timestamp,
            source: self.hostname,
            category: "filesystem"@,
            event_type: event_type_of_kind(notification.kind)->0,
            path: notification.paths[0],
            new_path: None,
            file_type: file_type_name(probe.metadata->0.is_dir),
            file_size: Some(probe.metadata->0.len),
            permissions: None,
            hash: Some(hash_or_empty(probe.contents)),
            process_id: Some(process_or_unknown(probe.process).0),
            process_name: Some(process_or_unknown(probe.process).1),
        }
    }

    /// What a notification gives, for a known extension, identifier and
    /// timestamp.
    pub open spec fn outcome(
        self,
        notification: NotificationView,
        probe: FileProbeView,
        extension: Option<Seq<char>>,
        id: Seq<char>,
        timestamp: Timestamp,
    ) -> Option<FileEventView> {
        if self.selects(notification, probe, extension) {
            Some(self.candidate(notification, probe, id, timestamp))
        } else {
            None
        }
    }

    /// Whether `result` is what an observation gives: the event of the
    /// notification under a generated identifier and a timestamp of its own
    /// where the notification is selected, going by the extension of its
    /// first path, and nothing where it is not. Where that path is a plain
    /// name, its extension is the one that every platform reads.
    pub open spec fn yields(self, observed: ObservationView, result: Option<FileEventView>) -> bool {
        &&& self.selects(
            observed.notification,
            observed.probe,
            first_extension(observed.notification),
        ) == (result is Some)
        &&& result matches Some(event) ==> event.id.len() == ID_LENGTH && event == self.candidate(
            observed.notification,
            observed.probe,
            event.id,
            event.timestamp,
        )
        &&& observed.notification.paths.len() > 0 && is_plain_name(observed.notification.paths[0])
            ==> first_extension(observed.notification) == plain_extension(
            observed.notification.paths[0],
        )
    }

    /// The message for the first configured path that is not present, if
    /// any. A path that `present` has no answer for counts as not present.
    pub open spec fn first_missing(self, present: Seq<bool>, from: int) -> Option<Seq<char>>
        decreases self.paths.len() - from,
    {
        if from < 0 || from >= self.paths.len() {
            None
        } else if from >= present.len() || !present[from] {
            Some("Monitored path does not exist: "@ + self.paths[from])
        } else {
            self.first_missing(present, from + 1)
        }
    }
}

/// The extension filter: a notification about a file gives an event only if
/// the file's extension is accepted, and then it does give one, provided that
/// its kind is one that is reported, the stat succeeded and the event meets
/// its invariants. A directory passes whatever its name.
pub proof fn lemma_extension_filter(
    collector: FileSystemCollectorView,
    notification: NotificationView,
    probe: FileProbeView,
    extension: Option<Seq<char>>,
    id: Seq<char>,
    timestamp: Timestamp,
)
    requires
        notification.paths.len() > 0,
        notification.paths[0].len() > 0,
        event_type_of_kind(notification.kind) is Some,
        probe.metadata matches Some(m) && m.len > 0,
    ensures
        collector.outcome(notification, probe, extension, id, timestamp) is Some <==> (
        probe.metadata->0.is_dir || extension_accepted(extension, collector.extensions)),
{
}

/// The extension filter on plain names: a notification about a file whose
/// path is a plain name gives an event exactly if what follows the last dot
/// of the name, with a dot before it, is one of the accepted extensions,
/// provided that its kind is one that is reported, the stat succeeded and
/// the event meets its invariants.
pub proof fn lemma_plain_name_filter(
    collector: FileSystemCollectorView,
    observed: ObservationView,
    result: Option<FileEventView>,
)
    requires
        collector.yields(observed, result),
        observed.notification.paths.len() > 0,
        observed.notification.paths[0].len() > 0,
        is_plain_name(observed.notification.paths[0]),
        event_type_of_kind(observed.notification.kind) is Some,
        observed.probe.metadata matches Some(m) && m.len > 0 && !m.is_dir,
    ensures
        result is Some <==> extension_accepted(
            plain_extension(observed.notification.paths[0]),
            collector.extensions,
        ),
{
}

/// The event of an optional result, as plain values.
pub open spec fn result_view(result: Option<FileEvent>) -> Option<FileEventView> {
    match result {
        Some(event) => Some(event@),
        None => None,
    }
}

/// An extension that may be absent, as plain values.
pub open spec fn extension_view(extension: Option<&str>) -> Option<Seq<char>> {
    match extension {
        Some(e) => Some(e@),
        None => None,
    }
}

impl FileSystemCollector {
    /// Sets the engine up with a queue of `capacity` notifications and hands
    /// out the queue's sending end for the delivery context. Every configured
    /// path is expanded. Fails on a capacity that no queue can have.
    pub fn with_capacity(
        config: MonitorConfig,
        user_profile: Option<&str>,
        hostname: String,
        capacity: usize,
    ) -> (r: Result<(FileSystemCollector, Sender<Notification>), CollectionError>)
        ensures
            r is Ok <==> 0 < capacity <= MAX_CHANNEL_CAPACITY,
            r matches Ok((collector, _)) ==> {
                &&& collector@.paths == texts(config.paths@).map_values(
                    |p: Seq<char>| expanded(p, extension_view(user_profile)),
                )
                &&& collector@.recursive == config.settings.recursive
                &&& collector@.extensions == texts(config.settings.extensions@)
                &&& collector@.hostname == hostname@
                &&& collector@.capacity == capacity
            },
            r matches Err(e) ==> e is SystemApi,
    {
        if capacity == 0 || capacity > MAX_CHANNEL_CAPACITY {
            return Err(
                CollectionError::SystemApi(String::from_str("Invalid notification queue capacity")),
            );
        }
        let mut paths: Vec<String> = Vec::new();
        let mut i: usize = 0;
        while i < config.paths.len()
            invariant
                i <= config.paths.len(),
                paths.len() == i,
                forall|j: int|
                    0 <= j < i ==> (#[trigger] paths@[j])@ == expanded(
                        config.paths@[j]@,
                        extension_view(user_profile),
                    ),
            decreases config.paths.len() - i,
        {
            let path = expand_env_vars(config.paths[i].as_str(), user_profile);
            paths.push(path);
            i += 1;
        }
        let (sender, receiver) = channel::<Notification>(capacity);
        let collector = FileSystemCollector {
            event_receiver: receiver,
            config: MonitorConfig { paths, settings: config.settings },
            hostname,
            capacity,
        };
        Ok((collector, sender))
    }

    /// Sets the engine up with a queue of `QUEUE_CAPACITY` notifications and
    /// hands out the queue's sending end for the delivery context. Every
    /// configured path is expanded.
    pub fn new(config: MonitorConfig, user_profile: Option<&str>, hostname: String) -> (r: Result<
        (FileSystemCollector, Sender<Notification>),
        CollectionError,
    >)
        ensures
            r matches Ok((collector, _)) && {
                &&& collector@.paths == texts(config.paths@).map_values(
                    |p: Seq<char>| expanded(p, extension_view(user_profile)),
                )
                &&& collector@.recursive == config.settings.recursive
                &&& collector@.extensions == texts(config.settings.extensions@)
                &&& collector@.hostname == hostname@
                &&& collector@.capacity == QUEUE_CAPACITY
            },
    {
        FileSystemCollector::with_capacity(config, user_profile, hostname, QUEUE_CAPACITY)
    }

    /// The configured paths, expanded.
    pub fn paths(&self) -> (paths: &Vec<String>)
        ensures
            texts(paths@) == self@.paths,
    {
        &self.config.paths
    }

    /// Whether the watches are to cover subdirectories.
    pub fn recursive(&self) -> (recursive: bool)
        ensures
            recursive == self@.recursive,
    {
        self.config.settings.recursive
    }

    /// How many notifications the queue holds.
    pub fn capacity(&self) -> (capacity: usize)
        ensures
            capacity == self@.capacity,
    {
        self.capacity
    }

    /// Whether a file passes the extension filter: its extension, with a dot
    /// before it, is one of the accepted ones. Of a plain name the extension
    /// is what follows the last dot.
    pub fn should_monitor_file(&self, path: &str) -> (r: bool)
        ensures
            r == extension_accepted(extension_of(path@), self@.extensions),
            is_plain_name(path@) ==> r == extension_accepted(
                plain_extension(path@),
                self@.extensions,
            ),
    {
        let extension = path_extension(path);
        match &extension {
            Some(e) => accepts_extension(Some(e.as_str()), &self.config.settings.extensions),
            None => false,
        }
    }

    /// Turns one notification into an event, given the extension of its first
    /// path and the identifier and timestamp for the event.
    pub fn enrich(
        &self,
        notification: &Notification,
        probe: &FileProbe,
        extension: Option<&str>,
        id: String,
        timestamp: Timestamp,
    ) -> (r: Option<FileEvent>)
        ensures
            result_view(r) == self@.outcome(
                notification@,
                probe@,
                extension_view(extension),
                id@,
                timestamp,
            ),
            r matches Some(event) ==> event@.valid(),
    {
        if notification.paths.len() == 0 {
            return None;
        }
        let path = &notification.paths[0];
        let is_dir = match probe.metadata {
            Some(m) => m.is_dir,
            None => false,
        };
        if !is_dir && !accepts_extension(extension, &self.config.settings.extensions) {
            return None;
        }
        let event_type = match event_type_of(notification.kind) {
            Some(event_type) => event_type,
            None => { return None; },
        };
        let (file_type, file_size) = match get_file_info(probe.metadata) {
            Some(info) => info,
            None => { return None; },
        };
        let hash = match calculate_file_hash(&probe.contents) {
            Some(hash) => hash,
            None => String::new(),
        };
        let (process_id, process_name) = get_process_info(&probe.process);
        proof {
            reveal_strlit("directory");
            reveal_strlit("file");
        }
        let built = FileEventBuilder::new().id(id).timestamp(timestamp).source(
            self.hostname.clone(),
        ).category(String::from_str("filesystem")).event_type(event_type).path(
            path.clone(),
        ).file_type(file_type).file_size(file_size).hash(hash).process_id(process_id).process_name(
            process_name,
        ).build_with(String::new(), timestamp);
        match built {
            Ok(event) => Some(event),
            Err(_) => None,
        }
    }

    /// Turns one notification into an event: filters by path and kind, reads
    /// type and size off the stat, hashes the contents, names the process and
    /// builds the event under a fresh identifier and the current time. A
    /// notification that is filtered out, whose stat failed or whose event
    /// breaks an invariant gives nothing.
    pub fn process_event(&self, notification: &Notification, probe: &FileProbe) -> (r: Option<
        FileEvent,
    >)
        ensures
            self@.yields(
                (ObservationView { notification: notification@, probe: probe@ }),
                result_view(r),
            ),
            r matches Some(event) ==> event@.valid(),
    {
        let extension = if notification.paths.len() > 0 {
            path_extension(notification.paths[0].as_str())
        } else {
            None
        };
        let id = generate_id();
        let timestamp = Timestamp::now();
        match &extension {
            Some(e) => self.enrich(notification, probe, Some(e.as_str()), id, timestamp),
            None => self.enrich(notification, probe, None, id, timestamp),
        }
    }

    /// Takes every notification that is queued now, in the order of arrival,
    /// without waiting for more: at most as many as the queue holds.
    pub fn drain(&mut self) -> (pending: Vec<Notification>)
        ensures
            pending.len() <= old(self)@.capacity,
            final(self)@ == old(self)@,
    {
        let mut pending: Vec<Notification> = Vec::new();
        while pending.len() < self.capacity
            invariant
                pending.len() <= self.capacity,
                self@ == old(self)@,
            decreases self.capacity - pending.len(),
        {
            let answer = self.event_receiver.try_recv();
            if !accept_notification(&mut pending, answer) {
                break ;
            }
        }
        pending
    }

    /// Turns the observed notifications into events, in their order. One that
    /// gives no event is left out and the rest goes on.
    pub fn collect(&self, observations: &Vec<Observation>) -> (r: Result<
        Vec<FileEvent>,
        CollectionError,
    >)
        ensures
            r matches Ok(events) && {
                &&& events.len() <= observations.len()
                &&& forall|k: int| 0 <= k < events.len() ==> (#[trigger] events@[k])@.valid()
                &&& exists|results: Seq<Option<FileEventView>>|
                    {
                        &&& results.len() == observations.len()
                        &&& forall|i: int|
                            0 <= i < results.len() ==> self@.yields(
                                (#[trigger] observations@[i])@,
                                results[i],
                            )
                        &&& event_views(events@) == kept(results)
                    }
            },
    {
        let mut events: Vec<FileEvent> = Vec::new();
        let ghost mut results: Seq<Option<FileEventView>> = Seq::empty();
        let mut i: usize = 0;
        while i < observations.len()
            invariant
                i <= observations.len(),
                events.len() <= i,
                results.len() == i,
                forall|k: int| 0 <= k < events.len() ==> (#[trigger] events@[k])@.valid(),
                forall|j: int|
                    0 <= j < i ==> self@.yields((#[trigger] observations@[j])@, results[j]),
                event_views(events@) == kept(results),
            decreases observations.len() - i,
        {
            let observed = &observations[i];
            let result = self.process_event(&observed.notification, &observed.probe);
            proof {
                let ghost before = results;
                results = results.push(result_view(result));
                assert(results.drop_last() == before);
            }
            match result {
                Some(event) => {
                    events.push(event);
                },
                None => {},
            }
            i += 1;
        }
        Ok(events)
    }

    /// Checks that every configured path is still there, given for each path
    /// whether it exists. Fails with the first path that does not.
    pub fn internal_validate(&self, present: &Vec<bool>) -> (r: Result<(), CollectionError>)
        ensures
            match r {
                Ok(_) => self@.first_missing(present@, 0) is None,
                Err(e) => e matches CollectionError::SystemApi(message) && self@.first_missing(
                    present@,
                    0,
                ) == Some(message@),
            },
    {
        let mut i: usize = 0;
        while i < self.config.paths.len()
            invariant
                i <= self.config.paths.len(),
                self@.first_missing(present@, 0) == self@.first_missing(present@, i as int),
            decreases self.config.paths.len() - i,
        {
            if i >= present.len() || !present[i] {
                let message = joined(
                    "Monitored path does not exist: ",
                    self.config.paths[i].as_str(),
                );
                return Err(CollectionError::SystemApi(message));
            }
            i += 1;
        }
        Ok(())
    }

    /// Checks that every configured path is still there.
    pub fn validate(&self, present: &Vec<bool>) -> (r: Result<(), CollectionError>)
        ensures
            match r {
                Ok(_) => self@.first_missing(present@, 0) is None,
                Err(e) => e matches CollectionError::SystemApi(message) && self@.first_missing(
                    present@,
                    0,
                ) == Some(message@),
            },
    {
        self.internal_validate(present)
    }

    /// Whether `validate` succeeds.
    pub fn health_check(&self, present: &Vec<bool>) -> (healthy: bool)
        ensures
            healthy == (self@.first_missing(present@, 0) is None),
    {
        self.internal_validate(present).is_ok()
    }
}

/// What one answer of the queue means for the notifications taken so far: a
/// notification joins them at the end, and the queue may hold more; any other
/// answer leaves them as they are and ends the taking.
pub fn accept_notification(
    pending: &mut Vec<Notification>,
    answer: Result<Notification, TryRecvError>,
) -> (more: bool)
    ensures
        match answer {
            Ok(notification) => more && final(pending)@ == old(pending)@.push(notification),
            Err(_) => !more && final(pending)@ == old(pending)@,
        },
{
    match answer {
        Ok(notification) => {
            pending.push(notification);
            true
        },
        Err(_) => false,
    }
}

} // verus!
