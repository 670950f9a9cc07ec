use vstd::prelude::*;
use crate::shared::clock::Timestamp;
use crate::shared::ident::{generate_id, ID_LENGTH};
use crate::shared::text::text_of;
use crate::shared::traits::{Event, Identifiable, Severity, Validatable};

verus! {

/// What happened to a file or directory.
#[derive(Debug, Clone, Copy, PartialEq, Eq, Structural)]
pub enum FileEventType {
    Created,
    Modified,
    Deleted,
    Renamed,
    AttributesModified,
    Accessed,
}

impl FileEventType {
    /// The name under which events of this kind are reported.
    pub open spec fn label(self) -> Seq<char> {
        match self {
            FileEventType::Created => "file_created"@,
            FileEventType::Modified => "file_modified"@,
            FileEventType::Deleted => "file_deleted"@,
            FileEventType::Renamed => "file_renamed"@,
            FileEventType::AttributesModified => "file_attributes_modified"@,
            FileEventType::Accessed => "file_accessed"@,
        }
    }

    /// The severity of events of this kind: a fixed table.
    pub open spec fn severity(self) -> Severity {
        match self {
            FileEventType::Created | FileEventType::Deleted => Severity::High,
            FileEventType::Modified | FileEventType::Renamed => Severity::Medium,
            FileEventType::AttributesModified | FileEventType::Accessed => Severity::Low,
        }
    }
}

/// A validated record of one change to a file or directory.
#[derive(Debug, Clone)]
pub struct FileEvent {
    pub id: String,
    pub timestamp: Timestamp,
    pub source: String,
    pub category: String,
    pub event_type: FileEventType,
    pub path: String,
    pub new_path: Option<String>,
    pub file_type: String,
    pub file_size: Option<u64>,
    pub permissions: Option<String>,
    pub hash: Option<String>,
    pub process_id: Option<u32>,
    pub process_name: Option<String>,
}

/// A file event as plain values.
pub struct FileEventView {
    pub id: Seq<char>,
    pub timestamp: Timestamp,
    pub source: Seq<char>,
    pub category: Seq<char>,
    pub event_type: FileEventType,
    pub path: Seq<char>,
    pub new_path: Option<Seq<char>>,
    pub file_type: Seq<char>,
    pub file_size: Option<u64>,
    pub permissions: Option<Seq<char>>,
    pub hash: Option<Seq<char>>,
    pub process_id: Option<u32>,
    pub process_name: Option<Seq<char>>,
}

impl View for FileEvent {
    type V = FileEventView;

    open spec fn view(&self) -> FileEventView {
        FileEventView {
            id: self.id@,
            timestamp: self.timestamp,
            source: self.source@,
            category: self.category@,
            event_type: self.event_type,
            path: self.path@,
            new_path: text_of(self.new_path),
            file_type: self.file_type@,
            file_size: self.file_size,
            permissions: text_of(self.permissions),
            hash: text_of(self.hash),
            process_id: self.process_id,
            process_name: text_of(self.process_name),
        }
    }
}

impl FileEventView {
    /// The invariants of a file event: it names a path and a file type, a
    /// rename target that is given is not empty, and a size that is given is
    /// not zero.
    pub open spec fn valid(self) -> bool {
        &&& self.path.len() > 0
        &&& self.new_path matches Some(p) ==> p.len() > 0
        &&& self.file_type.len() > 0
        &&& self.file_size matches Some(size) ==> size > 0
    }

    /// The message of the first invariant that the event breaks, if any.
    pub open spec fn violation(self) -> Option<Seq<char>> {
        if self.path.len() == 0 {
            Some("File path cannot be empty"@)
        } else if self.new_path matches Some(p) && p.len() == 0 {
            Some("New file path cannot be empty when provided"@)
        } else if self.file_type.len() == 0 {
            Some("File type cannot be empty"@)
        } else if self.file_size == Some(0u64) {
            Some("File size cannot be zero when provided"@)
        } else {
            None
        }
    }
}

impl Event for FileEvent {
    fn timestamp(&self) -> (t: Timestamp)
        ensures
            t == self.timestamp,
    {
        self.timestamp
    }

    fn source(&self) -> (s: &str)
        ensures
            s@ == self.source@,
    {
        self.source.as_str()
    }

    fn event_type(&self) -> (s: &str)
        ensures
            s@ == self.event_type.label(),
    {
        match self.event_type {
            FileEventType::Created => "file_created",
            FileEventType::Modified => "file_modified",
            FileEventType::Deleted => "file_deleted",
            FileEventType::Renamed => "file_renamed",
            FileEventType::AttributesModified => "file_attributes_modified",
            FileEventType::Accessed => "file_accessed",
        }
    }

    fn severity(&self) -> (s: Severity)
        ensures
            s == self.event_type.severity(),
    {
        match self.event_type {
            FileEventType::Created | FileEventType::Deleted => Severity::High,
            FileEventType::Modified | FileEventType::Renamed => Severity::Medium,
            FileEventType::AttributesModified | FileEventType::Accessed => Severity::Low,
        }
    }
}

impl Identifiable for FileEvent {
    fn id(&self) -> (s: &str)
        ensures
            s@ == self.id@,
    {
        self.id.as_str()
    }

    fn category(&self) -> (s: &str)
        ensures
            s@ == self.category@,
    {
        self.category.as_str()
    }
}

impl Validatable for FileEvent {
    open spec fn valid(&self) -> bool {
        self@.valid()
    }

    fn validate(&self) -> (r: Result<(), String>)
        ensures
            r matches Err(m) ==> self@.violation() == Some(m@),
    {
        if self.path.as_str().is_empty() {
            return Err(String::from_str("File path cannot be empty"));
        }
        if let Some(new_path) = &self.new_path {
            if new_path.as_str().is_empty() {
                return Err(String::from_str("New file path cannot be empty when provided"));
            }
        }
        if self.file_type.as_str().is_empty() {
            return Err(String::from_str("File type cannot be empty"));
        }
        if let Some(size) = self.file_size {
            if size == 0 {
                return Err(String::from_str("File size cannot be zero when provided"));
            }
        }
        Ok(())
    }
}

/// Accumulates the fields of a file event. Nothing of it is an event until
/// `build` has accepted it.
pub struct FileEventBuilder {
    id: Option<String>,
    timestamp: Option<Timestamp>,
    source: Option<String>,
    category: Option<String>,
    event_type: Option<FileEventType>,
    path: Option<String>,
    new_path: Option<String>,
    file_type: Option<String>,
    file_size: Option<u64>,
    permissions: Option<String>,
    hash: Option<String>,
    process_id: Option<u32>,
    process_name: Option<String>,
}

/// The fields that a builder holds so far, as plain values.
pub struct FileEventBuilderView {
    pub id: Option<Seq<char>>,
    pub timestamp: Option<Timestamp>,
    pub source: Option<Seq<char>>,
    pub category: Option<Seq<char>>,
    pub event_type: Option<FileEventType>,
    pub path: Option<Seq<char>>,
    pub new_path: Option<Seq<char>>,
    pub file_type: Option<Seq<char>>,
    pub file_size: Option<u64>,
    pub permissions: Option<Seq<char>>,
    pub hash: Option<Seq<char>>,
    pub process_id: Option<u32>,
    pub process_name: Option<Seq<char>>,
}

impl FileEventBuilderView {
    /// The builder that holds nothing.
    pub open spec fn empty() -> FileEventBuilderView {
        FileEventBuilderView {
            id: None,
            timestamp: None,
            source: None,
            category: None,
            event_type: None,
            path: None,
            new_path: None,
            file_type: None,
            file_size: None,
            permissions: None,
            hash: None,
            process_id: None,
            process_name: None,
        }
    }

    /// The message for the first required field that is missing, if any. The
    /// identifier and the timestamp are not required: `build` generates them.
    pub open spec fn missing(self) -> Option<Seq<char>> {
        if self.source is None {
            Some("source is required"@)
        } else if self.category is None {
            Some("category is required"@)
        } else if self.event_type is None {
            Some("event_type is required"@)
        } else if self.path is None {
            Some("path is required"@)
        } else if self.file_type is None {
            Some("file_type is required"@)
        } else {
            None
        }
    }

    /// The event that the fields make, with `id` and `timestamp` standing in
    /// where the builder holds none. Meaningful where nothing is missing.
    pub open spec fn event(self, id: Seq<char>, timestamp: Timestamp) -> FileEventView {
        FileEventView {
            id: if self.id is Some { self.id->0 } else { id },
            timestamp: if self.timestamp is Some { self.timestamp->0 } else { timestamp },
            source: self.source->0,
            category: self.category->0,
            event_type: self.event_type->0,
            path: self.path->0,
            new_path: self.new_path,
            file_type: self.file_type->0,
            file_size: self.file_size,
            permissions: self.permissions,
            hash: self.hash,
            process_id: self.process_id,
            process_name: self.process_name,
        }
    }

    /// Why `build` refuses these fields, if it does: a required field is
    /// missing, or the event would break an invariant. Neither depends on the
    /// identifier or the timestamp.
    pub open spec fn rejection(self) -> Option<Seq<char>> {
        if self.missing() is Some {
            self.missing()
        } else {
            self.event(Seq::empty(), Timestamp { secs: 0, nanos: 0 }).violation()
        }
    }
}

/// No event is built from an empty path, whatever its kind and its other
/// fields.
pub proof fn lemma_empty_path_is_rejected(fields: FileEventBuilderView)
    requires
        fields.path == Some(Seq::<char>::empty()),
    ensures
        fields.rejection() is Some,
{
}

/// Every event that is built has a path that is not empty and, where it has a
/// size, a size above zero.
pub proof fn lemma_built_event_is_valid(
    fields: FileEventBuilderView,
    id: Seq<char>,
    timestamp: Timestamp,
)
    requires
        fields.rejection() is None,
    ensures
        fields.event(id, timestamp).valid(),
        fields.event(id, timestamp).path.len() > 0,
        fields.event(id, timestamp).file_size matches Some(size) ==> size > 0,
{
}

impl View for FileEventBuilder {
    type V = FileEventBuilderView;

    closed spec fn view(&self) -> FileEventBuilderView {
        FileEventBuilderView {
            id: text_of(self.id),
            timestamp: self.timestamp,
            source: text_of(self.source),
            category: text_of(self.category),
            event_type: self.event_type,
            path: text_of(self.path),
            new_path: text_of(self.new_path),
            file_type: text_of(self.file_type),
            file_size: self.file_size,
            permissions: text_of(self.permissions),
            hash: text_of(self.hash),
            process_id: self.process_id,
            process_name: text_of(self.process_name),
        }
    }
}

impl FileEventBuilder {
    pub fn new() -> (b: Self)
        ensures
            b@ == FileEventBuilderView::empty(),
    {
        FileEventBuilder {
            id: None,
            timestamp: None,
            source: None,
            category: None,
            event_type: None,
            path: None,
            new_path: None,
            file_type: None,
            file_size: None,
            permissions: None,
            hash: None,
            process_id: None,
            process_name: None,
        }
    }

    pub fn id(self, id: String) -> (b: Self)
        ensures
            b@ == (FileEventBuilderView { id: Some(id@), ..self@ }),
    {
        let mut next = self;
        next.id = Some(id);
        next
    }

    pub fn timestamp(self, timestamp: Timestamp) -> (b: Self)
        ensures
            b@ == (FileEventBuilderView { timestamp: Some(timestamp), ..self@ }),
    {
        let mut next = self;
        next.timestamp = Some(timestamp);
        next
    }

    pub fn source(self, source: String) -> (b: Self)
        ensures
            b@ == (FileEventBuilderView { source: Some(source@), ..self@ }),
    {
        let mut next = self;
        next.source = Some(source);
        next
    }

    pub fn category(self, category: String) -> (b: Self)
        ensures
            b@ == (FileEventBuilderView { category: Some(category@), ..self@ }),
    {
        let mut next = self;
        next.category = Some(category);
        next
    }

    pub fn event_type(self, event_type: FileEventType) -> (b: Self)
        ensures
            b@ == (FileEventBuilderView { event_type: Some(event_type), ..self@ }),
    {
        let mut next = self;
        next.event_type = Some(event_type);
        next
    }

    pub fn path(self, path: String) -> (b: Self)
        ensures
            b@ == (FileEventBuilderView { path: Some(path@), ..self@ }),
    {
        let mut next = self;
        next.path = Some(path);
        next
    }

    pub fn new_path(self, new_path: String) -> (b: Self)
        ensures
            b@ == (FileEventBuilderView { new_path: Some(new_path@), ..self@ }),
    {
        let mut next = self;
        next.new_path = Some(new_path);
        next
    }

    pub fn file_type(self, file_type: String) -> (b: Self)
        ensures
            b@ == (FileEventBuilderView { file_type: Some(file_type@), ..self@ }),
    {
        let mut next = self;
        next.file_type = Some(file_type);
        next
    }

    pub fn file_size(self, file_size: u64) -> (b: Self)
        ensures
            b@ == (FileEventBuilderView { file_size: Some(file_size), ..self@ }),
    {
        let mut next = self;
        next.file_size = Some(file_size);
        next
    }

    pub fn permissions(self, permissions: String) -> (b: Self)
        ensures
            b@ == (FileEventBuilderView { permissions: Some(permissions@), ..self@ }),
    {
        let mut next = self;
        next.permissions = Some(permissions);
        next
    }

    pub fn hash(self, hash: String) -> (b: Self)
        ensures
            b@ == (FileEventBuilderView { hash: Some(hash@), ..self@ }),
    {
        let mut next = self;
        next.hash = Some(hash);
        next
    }

    pub fn process_id(self, process_id: u32) -> (b: Self)
        ensures
            b@ == (FileEventBuilderView { process_id: Some(process_id), ..self@ }),
    {
        let mut next = self;
        next.process_id = Some(process_id);
        next
    }

    pub fn process_name(self, process_name: String) -> (b: Self)
        ensures
            b@ == (FileEventBuilderView { process_name: Some(process_name@), ..self@ }),
    {
        let mut next = self;
        next.process_name = Some(process_name);
        next
    }

    /// Builds the event, with the given identifier and timestamp standing in
    /// where the builder holds none. Fails with the message for the first
    /// missing field, or else with that of the first broken invariant.
    pub fn build_with(self, id: String, timestamp: Timestamp) -> (r: Result<FileEvent, String>)
        ensures
            match r {
                Ok(event) => self@.rejection() is None && event@ == self@.event(id@, timestamp)
                    && event@.valid(),
                Err(message) => self@.rejection() == Some(message@),
            },
    {
        let id = match self.id {
            Some(given) => given,
            None => id,
        };
        let timestamp = match self.timestamp {
            Some(given) => given,
            None => timestamp,
        };
        let source = match self.source {
            Some(source) => source,
            None => { return Err(String::from_str("source is required")); },
        };
        let category = match self.category {
            Some(category) => category,
            None => { return Err(String::from_str("category is required")); },
        };
        let event_type = match self.event_type {
            Some(event_type) => event_type,
            None => { return Err(String::from_str("event_type is required")); },
        };
        let path = match self.path {
            Some(path) => path,
            None => { return Err(String::from_str("path is required")); },
        };
        let file_type = match self.file_type {
            Some(file_type) => file_type,
            None => { return Err(String::from_str("file_type is required")); },
        };
        let event = FileEvent {
            id,
            timestamp,
            source,
            category,
            event_type,
            path,
            new_path: self.new_path,
            file_type,
            file_size: self.file_size,
            permissions: self.permissions,
            hash: self.hash,
            process_id: self.process_id,
            process_name: self.process_name,
        };
        match event.validate() {
            Ok(()) => Ok(event),
            Err(message) => Err(message),
        }
    }

    /// Builds the event. An identifier or a timestamp that was not set is
    /// generated. Fails with the message for the first missing field, or else
    /// with that of the first broken invariant.
    pub fn build(self) -> (r: Result<FileEvent, String>)
        ensures
            match r {
                Ok(event) => {
                    &&& self@.rejection() is None
                    &&& event@ == self@.event(event@.id, event@.timestamp)
                    &&& self@.id is None ==> event@.id.len() == ID_LENGTH
                    &&& event@.valid()
                },
                Err(message) => self@.rejection() == Some(message@),
            },
    {
        let id = if self.id.is_none() {
            generate_id()
        } else {
            String::new()
        };
        let timestamp = Timestamp::now();
        self.build_with(id, timestamp)
    }
}

impl Default for FileEventBuilder {
    fn default() -> (b: Self)
        ensures
            b@ == FileEventBuilderView::empty(),
    {
        FileEventBuilder::new()
    }
}

} // verus!
