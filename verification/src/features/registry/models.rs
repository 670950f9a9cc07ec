use vstd::prelude::*;
use crate::shared::clock::Timestamp;
use crate::shared::ident::{generate_id, ID_LENGTH};
use crate::shared::text::text_of;
use crate::shared::traits::{Event, Identifiable, Severity, Validatable};

verus! {

/// What happened to a registry key or value.
#[derive(Debug, Clone, Copy, PartialEq, Eq, Structural)]
pub enum RegistryEventType {
    Created,
    Modified,
    Deleted,
}

impl RegistryEventType {
    /// The name under which events of this kind are reported.
    pub open spec fn label(self) -> Seq<char> {
        match self {
            RegistryEventType::Created => "registry_created"@,
            RegistryEventType::Modified => "registry_modified"@,
            RegistryEventType::Deleted => "registry_deleted"@,
        }
    }

    /// The name of the kind itself.
    pub open spec fn name(self) -> Seq<char> {
        match self {
            RegistryEventType::Created => "Created"@,
            RegistryEventType::Modified => "Modified"@,
            RegistryEventType::Deleted => "Deleted"@,
        }
    }

    /// The severity of events of this kind: a fixed table.
    pub open spec fn severity(self) -> Severity {
        match self {
            RegistryEventType::Created | RegistryEventType::Deleted => Severity::High,
            RegistryEventType::Modified => Severity::Medium,
        }
    }

    /// The name of the kind itself, as text.
    pub fn to_name(self) -> (s: String)
        ensures
            s@ == self.name(),
    {
        match self {
            RegistryEventType::Created => String::from_str("Created"),
            RegistryEventType::Modified => String::from_str("Modified"),
            RegistryEventType::Deleted => String::from_str("Deleted"),
        }
    }
}

/// A validated record of one change to a registry key or value.
#[derive(Debug, Clone)]
pub struct RegistryEvent {
    pub id: String,
    pub timestamp: Timestamp,
    pub source: String,
    pub category: String,
    pub event_type: RegistryEventType,
    pub key_path: String,
    pub value_name: Option<String>,
    pub old_data: Option<String>,
    pub new_data: Option<String>,
    pub process_name: Option<String>,
    pub process_id: Option<u32>,
}

/// A registry event as plain values.
pub struct RegistryEventView {
    pub id: Seq<char>,
    pub timestamp: Timestamp,
    pub source: Seq<char>,
    pub category: Seq<char>,
    pub event_type: RegistryEventType,
    pub key_path: Seq<char>,
    pub value_name: Option<Seq<char>>,
    pub old_data: Option<Seq<char>>,
    pub new_data: Option<Seq<char>>,
    pub process_name: Option<Seq<char>>,
    pub process_id: Option<u32>,
}

impl View for RegistryEvent {
    type V = RegistryEventView;

    open spec fn view(&self) -> RegistryEventView {
        RegistryEventView {
            id: self.id@,
            timestamp: self.timestamp,
            source: self.source@,
            category: self.category@,
            event_type: self.event_type,
            key_path: self.key_path@,
            value_name: text_of(self.value_name),
            old_data: text_of(self.old_data),
            new_data: text_of(self.new_data),
            process_name: text_of(self.process_name),
            process_id: self.process_id,
        }
    }
}

impl RegistryEventView {
    /// The invariant of a registry event: it names a key.
    pub open spec fn valid(self) -> bool {
        self.key_path.len() > 0
    }

    /// The message of the invariant that the event breaks, if any.
    pub open spec fn violation(self) -> Option<Seq<char>> {
        if self.key_path.len() == 0 {
            Some("Registry key path cannot be empty"@)
        } else {
            None
        }
    }
}

impl Event for RegistryEvent {
    fn timestamp(&self) -> (t: Timestamp)
        ensures
            t == self.timestamp,
    {
        self.timestamp
    }

    fn source(&self) -> (s: &str)
        ensures
            s@ == self.source@,
    {
        self.source.as_str()
    }

    fn event_type(&self) -> (s: &str)
        ensures
            s@ == self.event_type.label(),
    {
        match self.event_type {
            RegistryEventType::Created => "registry_created",
            RegistryEventType::Modified => "registry_modified",
            RegistryEventType::Deleted => "registry_deleted",
        }
    }

    fn severity(&self) -> (s: Severity)
        ensures
            s == self.event_type.severity(),
    {
        match self.event_type {
            RegistryEventType::Created | RegistryEventType::Deleted => Severity::High,
            RegistryEventType::Modified => Severity::Medium,
        }
    }
}

impl Identifiable for RegistryEvent {
    fn id(&self) -> (s: &str)
        ensures
            s@ == self.id@,
    {
        self.id.as_str()
    }

    fn category(&self) -> (s: &str)
        ensures
            s@ == self.category@,
    {
        self.category.as_str()
    }
}

impl Validatable for RegistryEvent {
    open spec fn valid(&self) -> bool {
        self@.valid()
    }

    fn validate(&self) -> (r: Result<(), String>)
        ensures
            r matches Err(m) ==> self@.violation() == Some(m@),
    {
        if self.key_path.as_str().is_empty() {
            return Err(String::from_str("Registry key path cannot be empty"));
        }
        Ok(())
    }
}

/// A program that the system is set to start by itself.
#[derive(Debug, Clone)]
pub struct AutoRunEntry {
    pub id: String,
    pub timestamp: Timestamp,
    pub source: String,
    pub category: String,
    pub location: String,
    pub name: String,
    pub command: String,
    pub enabled: bool,
    pub last_modified: Timestamp,
}

impl AutoRunEntry {
    /// The invariants of an entry: location, name and command are not empty.
    pub open spec fn well_formed(&self) -> bool {
        &&& self.location@.len() > 0
        &&& self.name@.len() > 0
        &&& self.command@.len() > 0
    }

    /// The message of the first invariant that the entry breaks, if any.
    pub open spec fn violation(&self) -> Option<Seq<char>> {
        if self.location@.len() == 0 {
            Some("Location cannot be empty"@)
        } else if self.name@.len() == 0 {
            Some("Name cannot be empty"@)
        } else if self.command@.len() == 0 {
            Some("Command cannot be empty"@)
        } else {
            None
        }
    }
}

impl Event for AutoRunEntry {
    fn timestamp(&self) -> (t: Timestamp)
        ensures
            t == self.timestamp,
    {
        self.timestamp
    }

    fn source(&self) -> (s: &str)
        ensures
            s@ == self.source@,
    {
        self.source.as_str()
    }

    fn event_type(&self) -> (s: &str)
        ensures
            s@ == "autorun_entry"@,
    {
        "autorun_entry"
    }

    fn severity(&self) -> (s: Severity)
        ensures
            s == (if self.enabled { Severity::High } else { Severity::Low }),
    {
        if self.enabled {
            Severity::High
        } else {
            Severity::Low
        }
    }
}

impl Identifiable for AutoRunEntry {
    fn id(&self) -> (s: &str)
        ensures
            s@ == self.id@,
    {
        self.id.as_str()
    }

    fn category(&self) -> (s: &str)
        ensures
            s@ == self.category@,
    {
        self.category.as_str()
    }
}

impl Validatable for AutoRunEntry {
    open spec fn valid(&self) -> bool {
        self.well_formed()
    }

    fn validate(&self) -> (r: Result<(), String>)
        ensures
            r matches Err(m) ==> self.violation() == Some(m@),
    {
        if self.location.as_str().is_empty() {
            return Err(String::from_str("Location cannot be empty"));
        }
        if self.name.as_str().is_empty() {
            return Err(String::from_str("Name cannot be empty"));
        }
        if self.command.as_str().is_empty() {
            return Err(String::from_str("Command cannot be empty"));
        }
        Ok(())
    }
}

/// A registry event that a heuristic has flagged, with the reason.
#[derive(Debug, Clone)]
pub struct SuspiciousRegistryOperation {
    pub id: String,
    pub timestamp: Timestamp,
    pub source: String,
    pub category: String,
    pub operation: String,
    pub key_path: String,
    pub value_name: Option<String>,
    pub data: Option<String>,
    pub process_name: Option<String>,
    pub process_id: Option<u32>,
    pub severity_level: Severity,
    pub reason: String,
}

/// A flagged operation as plain values.
pub struct SuspiciousRegistryOperationView {
    pub id: Seq<char>,
    pub timestamp: Timestamp,
    pub source: Seq<char>,
    pub category: Seq<char>,
    pub operation: Seq<char>,
    pub key_path: Seq<char>,
    pub value_name: Option<Seq<char>>,
    pub data: Option<Seq<char>>,
    pub process_name: Option<Seq<char>>,
    pub process_id: Option<u32>,
    pub severity_level: Severity,
    pub reason: Seq<char>,
}

impl View for SuspiciousRegistryOperation {
    type V = SuspiciousRegistryOperationView;

    open spec fn view(&self) -> SuspiciousRegistryOperationView {
        SuspiciousRegistryOperationView {
            id: self.id@,
            timestamp: self.timestamp,
            source: self.source@,
            category: self.category@,
            operation: self.operation@,
            key_path: self.key_path@,
            value_name: text_of(self.value_name),
            data: text_of(self.data),
            process_name: text_of(self.process_name),
            process_id: self.process_id,
            severity_level: self.severity_level,
            reason: self.reason@,
        }
    }
}

impl SuspiciousRegistryOperationView {
    /// The invariants of a flagged operation: operation, key path and reason
    /// are not empty.
    pub open spec fn valid(self) -> bool {
        &&& self.operation.len() > 0
        &&& self.key_path.len() > 0
        &&& self.reason.len() > 0
    }

    /// The message of the first invariant that the operation breaks, if any.
    pub open spec fn violation(self) -> Option<Seq<char>> {
        if self.operation.len() == 0 {
            Some("Operation cannot be empty"@)
        } else if self.key_path.len() == 0 {
            Some("Registry key path cannot be empty"@)
        } else if self.reason.len() == 0 {
            Some("Reason cannot be empty"@)
        } else {
            None
        }
    }
}

impl Event for SuspiciousRegistryOperation {
    fn timestamp(&self) -> (t: Timestamp)
        ensures
            t == self.timestamp,
    {
        self.timestamp
    }

    fn source(&self) -> (s: &str)
        ensures
            s@ == self.source@,
    {
        self.source.as_str()
    }

    fn event_type(&self) -> (s: &str)
        ensures
            s@ == "suspicious_registry_operation"@,
    {
        "suspicious_registry_operation"
    }

    fn severity(&self) -> (s: Severity)
        ensures
            s == self.severity_level,
    {
        self.severity_level
    }
}

impl Identifiable for SuspiciousRegistryOperation {
    fn id(&self) -> (s: &str)
        ensures
            s@ == self.id@,
    {
        self.id.as_str()
    }

    fn category(&self) -> (s: &str)
        ensures
            s@ == self.category@,
    {
        self.category.as_str()
    }
}

impl Validatable for SuspiciousRegistryOperation {
    open spec fn valid(&self) -> bool {
        self@.valid()
    }

    fn validate(&self) -> (r: Result<(), String>)
        ensures
            r matches Err(m) ==> self@.violation() == Some(m@),
    {
        if self.operation.as_str().is_empty() {
            return Err(String::from_str("Operation cannot be empty"));
        }
        if self.key_path.as_str().is_empty() {
            return Err(String::from_str("Registry key path cannot be empty"));
        }
        if self.reason.as_str().is_empty() {
            return Err(String::from_str("Reason cannot be empty"));
        }
        Ok(())
    }
}

/// Accumulates the fields of a registry event. Nothing of it is an event
/// until `build` has accepted it.
pub struct RegistryEventBuilder {
    id: Option<String>,
    timestamp: Option<Timestamp>,
    source: Option<String>,
    category: Option<String>,
    event_type: Option<RegistryEventType>,
    key_path: Option<String>,
    value_name: Option<String>,
    old_data: Option<String>,
    new_data: Option<String>,
    process_name: Option<String>,
    process_id: Option<u32>,
}

/// The fields that a builder holds so far, as plain values.
pub struct RegistryEventBuilderView {
    pub id: Option<Seq<char>>,
    pub timestamp: Option<Timestamp>,
    pub source: Option<Seq<char>>,
    pub category: Option<Seq<char>>,
    pub event_type: Option<RegistryEventType>,
    pub key_path: Option<Seq<char>>,
    pub value_name: Option<Seq<char>>,
    pub old_data: Option<Seq<char>>,
    pub new_data: Option<Seq<char>>,
    pub process_name: Option<Seq<char>>,
    pub process_id: Option<u32>,
}

impl RegistryEventBuilderView {
    /// The builder that holds nothing.
    pub open spec fn empty() -> RegistryEventBuilderView {
        RegistryEventBuilderView {
            id: None,
            timestamp: None,
            source: None,
            category: None,
            event_type: None,
            key_path: None,
            value_name: None,
            old_data: None,
            new_data: None,
            process_name: None,
            process_id: None,
        }
    }

    /// The message for the first required field that is missing, if any. The
    /// identifier and the timestamp are not required: `build` generates them.
    pub open spec fn missing(self) -> Option<Seq<char>> {
        if self.source is None {
            Some("source is required"@)
        } else if self.category is None {
            Some("category is required"@)
        } else if self.event_type is None {
            Some("event_type is required"@)
        } else if self.key_path is None {
            Some("key_path is required"@)
        } else {
            None
        }
    }

    /// The event that the fields make, with `id` and `timestamp` standing in
    /// where the builder holds none. Meaningful where nothing is missing.
    pub open spec fn event(self, id: Seq<char>, timestamp: Timestamp) -> RegistryEventView {
        RegistryEventView {
            id: if self.id is Some { self.id->0 } else { id },
            timestamp: if self.timestamp is Some { self.timestamp->0 } else { timestamp },
            source: self.source->0,
            category: self.category->0,
            event_type: self.event_type->0,
            key_path: self.key_path->0,
            value_name: self.value_name,
            old_data: self.old_data,
            new_data: self.new_data,
            process_name: self.process_name,
            process_id: self.process_id,
        }
    }

    /// Why `build` refuses these fields, if it does: a required field is
    /// missing, or the event would break its invariant. Neither depends on the
    /// identifier or the timestamp.
    pub open spec fn rejection(self) -> Option<Seq<char>> {
        if self.missing() is Some {
            self.missing()
        } else {
            self.event(Seq::empty(), Timestamp { secs: 0, nanos: 0 }).violation()
        }
    }
}

/// No event is built from an empty key path, whatever its kind and its other
/// fields.
pub proof fn lemma_empty_key_path_is_rejected(fields: RegistryEventBuilderView)
    requires
        fields.key_path == Some(Seq::<char>::empty()),
    ensures
        fields.rejection() is Some,
{
}

/// Every event that is built has a key path that is not empty.
pub proof fn lemma_built_event_is_valid(
    fields: RegistryEventBuilderView,
    id: Seq<char>,
    timestamp: Timestamp,
)
    requires
        fields.rejection() is None,
    ensures
        fields.event(id, timestamp).valid(),
        fields.event(id, timestamp).key_path.len() > 0,
{
}

impl View for RegistryEventBuilder {
    type V = RegistryEventBuilderView;

    closed spec fn view(&self) -> RegistryEventBuilderView {
        RegistryEventBuilderView {
            id: text_of(self.id),
            timestamp: self.timestamp,
            source: text_of(self.source),
            category: text_of(self.category),
            event_type: self.event_type,
            key_path: text_of(self.key_path),
            value_name: text_of(self.value_name),
            old_data: text_of(self.old_data),
            new_data: text_of(self.new_data),
            process_name: text_of(self.process_name),
            process_id: self.process_id,
        }
    }
}

impl RegistryEventBuilder {
    pub fn new() -> (b: Self)
        ensures
            b@ == RegistryEventBuilderView::empty(),
    {
        RegistryEventBuilder {
            id: None,
            timestamp: None,
            source: None,
            category: None,
            event_type: None,
            key_path: None,
            value_name: None,
            old_data: None,
            new_data: None,
            process_name: None,
            process_id: None,
        }
    }

    pub fn id(self, id: String) -> (b: Self)
        ensures
            b@ == (RegistryEventBuilderView { id: Some(id@), ..self@ }),
    {
        let mut next = self;
        next.id = Some(id);
        next
    }

    pub fn timestamp(self, timestamp: Timestamp) -> (b: Self)
        ensures
            b@ == (RegistryEventBuilderView { timestamp: Some(timestamp), ..self@ }),
    {
        let mut next = self;
        next.timestamp = Some(timestamp);
        next
    }

    pub fn source(self, source: String) -> (b: Self)
        ensures
            b@ == (RegistryEventBuilderView { source: Some(source@), ..self@ }),
    {
        let mut next = self;
        next.source = Some(source);
        next
    }

    pub fn category(self, category: String) -> (b: Self)
        ensures
            b@ == (RegistryEventBuilderView { category: Some(category@), ..self@ }),
    {
        let mut next = self;
        next.category = Some(category);
        next
    }

    pub fn event_type(self, event_type: RegistryEventType) -> (b: Self)
        ensures
            b@ == (RegistryEventBuilderView { event_type: Some(event_type), ..self@ }),
    {
        let mut next = self;
        next.event_type = Some(event_type);
        next
    }

    pub fn key_path(self, key_path: String) -> (b: Self)
        ensures
            b@ == (RegistryEventBuilderView { key_path: Some(key_path@), ..self@ }),
    {
        let mut next = self;
        next.key_path = Some(key_path);
        next
    }

    pub fn value_name(self, value_name: String) -> (b: Self)
        ensures
            b@ == (RegistryEventBuilderView { value_name: Some(value_name@), ..self@ }),
    {
        let mut next = self;
        next.value_name = Some(value_name);
        next
    }

    pub fn old_data(self, old_data: String) -> (b: Self)
        ensures
            b@ == (RegistryEventBuilderView { old_data: Some(old_data@), ..self@ }),
    {
        let mut next = self;
        next.old_data = Some(old_data);
        next
    }

    pub fn new_data(self, new_data: String) -> (b: Self)
        ensures
            b@ == (RegistryEventBuilderView { new_data: Some(new_data@), ..self@ }),
    {
        let mut next = self;
        next.new_data = Some(new_data);
        next
    }

    pub fn process_name(self, process_name: String) -> (b: Self)
        ensures
            b@ == (RegistryEventBuilderView { process_name: Some(process_name@), ..self@ }),
    {
        let mut next = self;
        next.process_name = Some(process_name);
        next
    }

    pub fn process_id(self, process_id: u32) -> (b: Self)
        ensures
            b@ == (RegistryEventBuilderView { process_id: Some(process_id), ..self@ }),
    {
        let mut next = self;
        next.process_id = Some(process_id);
        next
    }

    /// Builds the event, with the given identifier and timestamp standing in
    /// where the builder holds none. Fails with the message for the first
    /// missing field, or else with that of the broken invariant.
    pub fn build_with(self, id: String, timestamp: Timestamp) -> (r: Result<RegistryEvent, String>)
        ensures
            match r {
                Ok(event) => self@.rejection() is None && event@ == self@.event(id@, timestamp)
                    && event@.valid(),
                Err(message) => self@.rejection() == Some(message@),
            },
    {
        let id = match self.id {
            Some(given) => given,
            None => id,
        };
        let timestamp = match self.timestamp {
            Some(given) => given,
            None => timestamp,
        };
        let source = match self.source {
            Some(source) => source,
            None => { return Err(String::from_str("source is required")); },
        };
        let category = match self.category {
            Some(category) => category,
            None => { return Err(String::from_str("category is required")); },
        };
        let event_type = match self.event_type {
            Some(event_type) => event_type,
            None => { return Err(String::from_str("event_type is required")); },
        };
        let key_path = match self.key_path {
            Some(key_path) => key_path,
            None => { return Err(String::from_str("key_path is required")); },
        };
        let event = RegistryEvent {
            id,
            timestamp,
            source,
            category,
            event_type,
            key_path,
            value_name: self.value_name,
            old_data: self.old_data,
            new_data: self.new_data,
            process_name: self.process_name,
            process_id: self.process_id,
        };
        match event.validate() {
            Ok(()) => Ok(event),
            Err(message) => Err(message),
        }
    }

    /// Builds the event. An identifier or a timestamp that was not set is
    /// generated. Fails with the message for the first missing field, or else
    /// with that of the broken invariant.
    pub fn build(self) -> (r: Result<RegistryEvent, String>)
        ensures
            match r {
                Ok(event) => {
                    &&& self@.rejection() is None
                    &&& event@ == self@.event(event@.id, event@.timestamp)
                    &&& self@.id is None ==> event@.id.len() == ID_LENGTH
                    &&& event@.valid()
                },
                Err(message) => self@.rejection() == Some(message@),
            },
    {
        let id = if self.id.is_none() {
            generate_id()
        } else {
            String::new()
        };
        let timestamp = Timestamp::now();
        self.build_with(id, timestamp)
    }
}

impl Default for RegistryEventBuilder {
    fn default() -> (b: Self)
        ensures
            b@ == RegistryEventBuilderView::empty(),
    {
        RegistryEventBuilder::new()
    }
}

/// Accumulates the fields of a flagged operation. Nothing of it is a record
/// until `build` has accepted it.
pub struct SuspiciousRegistryOperationBuilder {
    id: Option<String>,
    timestamp: Option<Timestamp>,
    source: Option<String>,
    category: Option<String>,
    operation: Option<String>,
    key_path: Option<String>,
    value_name: Option<String>,
    data: Option<String>,
    process_name: Option<String>,
    process_id: Option<u32>,
    severity_level: Option<Severity>,
    reason: Option<String>,
}

/// The fields that a builder holds so far, as plain values.
pub struct SuspiciousRegistryOperationBuilderView {
    pub id: Option<Seq<char>>,
    pub timestamp: Option<Timestamp>,
    pub source: Option<Seq<char>>,
    pub category: Option<Seq<char>>,
    pub operation: Option<Seq<char>>,
    pub key_path: Option<Seq<char>>,
    pub value_name: Option<Seq<char>>,
    pub data: Option<Seq<char>>,
    pub process_name: Option<Seq<char>>,
    pub process_id: Option<u32>,
    pub severity_level: Option<Severity>,
    pub reason: Option<Seq<char>>,
}

impl SuspiciousRegistryOperationBuilderView {
    /// The builder that holds nothing.
    pub open spec fn empty() -> SuspiciousRegistryOperationBuilderView {
        SuspiciousRegistryOperationBuilderView {
            id: None,
            timestamp: None,
            source: None,
            category: None,
            operation: None,
            key_path: None,
            value_name: None,
            data: None,
            process_name: None,
            process_id: None,
            severity_level: None,
            reason: None,
        }
    }

    /// The message for the first required field that is missing, if any. The
    /// identifier and the timestamp are not required: `build` generates them.
    pub open spec fn missing(self) -> Option<Seq<char>> {
        if self.source is None {
            Some("source is required"@)
        } else if self.category is None {
            Some("category is required"@)
        } else if self.operation is None {
            Some("operation is required"@)
        } else if self.key_path is None {
            Some("key_path is required"@)
        } else if self.severity_level is None {
            Some("severity_level is required"@)
        } else if self.reason is None {
            Some("reason is required"@)
        } else {
            None
        }
    }

    /// The record that the fields make, with `id` and `timestamp` standing in
    /// where the builder holds none. Meaningful where nothing is missing.
    pub open spec fn operation_record(
        self,
        id: Seq<char>,
        timestamp: Timestamp,
    ) -> SuspiciousRegistryOperationView {
        SuspiciousRegistryOperationView {
            id: if self.id is Some { self.id->0 } else { id },
            timestamp: if self.timestamp is Some { self.timestamp->0 } else { timestamp },
            source: self.source->0,
            category: self.category->0,
            operation: self.operation->0,
            key_path: self.key_path->0,
            value_name: self.value_name,
            data: self.data,
            process_name: self.process_name,
            process_id: self.process_id,
            severity_level: self.severity_level->0,
            reason: self.reason->0,
        }
    }

    /// Why `build` refuses these fields, if it does: a required field is
    /// missing, or the record would break an invariant. Neither depends on the
    /// identifier or the timestamp.
    pub open spec fn rejection(self) -> Option<Seq<char>> {
        if self.missing() is Some {
            self.missing()
        } else {
            self.operation_record(Seq::empty(), Timestamp { secs: 0, nanos: 0 }).violation()
        }
    }
}

/// No record is built from an empty operation, key path or reason.
pub proof fn lemma_empty_text_is_rejected(fields: SuspiciousRegistryOperationBuilderView)
    requires
        fields.operation == Some(Seq::<char>::empty()) || fields.key_path == Some(
            Seq::<char>::empty(),
        ) || fields.reason == Some(Seq::<char>::empty()),
    ensures
        fields.rejection() is Some,
{
}

/// Every record that is built names an operation, a key path and a reason.
pub proof fn lemma_built_record_is_valid(
    fields: SuspiciousRegistryOperationBuilderView,
    id: Seq<char>,
    timestamp: Timestamp,
)
    requires
        fields.rejection() is None,
    ensures
        fields.operation_record(id, timestamp).valid(),
{
}

impl View for SuspiciousRegistryOperationBuilder {
    type V = SuspiciousRegistryOperationBuilderView;

    closed spec fn view(&self) -> SuspiciousRegistryOperationBuilderView {
        SuspiciousRegistryOperationBuilderView {
            id: text_of(self.id),
            timestamp: self.timestamp,
            source: text_of(self.source),
            category: text_of(self.category),
            operation: text_of(self.operation),
            key_path: text_of(self.key_path),
            value_name: text_of(self.value_name),
            data: text_of(self.data),
            process_name: text_of(self.process_name),
            process_id: self.process_id,
            severity_level: self.severity_level,
            reason: text_of(self.reason),
        }
    }
}

impl SuspiciousRegistryOperationBuilder {
    pub fn new() -> (b: Self)
        ensures
            b@ == SuspiciousRegistryOperationBuilderView::empty(),
    {
        SuspiciousRegistryOperationBuilder {
            id: None,
            timestamp: None,
            source: None,
            category: None,
            operation: None,
            key_path: None,
            value_name: None,
            data: None,
            process_name: None,
            process_id: None,
            severity_level: None,
            reason: None,
        }
    }

    pub fn id(self, id: String) -> (b: Self)
        ensures
            b@ == (SuspiciousRegistryOperationBuilderView { id: Some(id@), ..self@ }),
    {
        let mut next = self;
        next.id = Some(id);
        next
    }

    pub fn timestamp(self, timestamp: Timestamp) -> (b: Self)
        ensures
            b@ == (SuspiciousRegistryOperationBuilderView { timestamp: Some(timestamp), ..self@ }),
    {
        let mut next = self;
        next.timestamp = Some(timestamp);
        next
    }

    pub fn source(self, source: String) -> (b: Self)
        ensures
            b@ == (SuspiciousRegistryOperationBuilderView { source: Some(source@), ..self@ }),
    {
        let mut next = self;
        next.source = Some(source);
        next
    }

    pub fn category(self, category: String) -> (b: Self)
        ensures
            b@ == (SuspiciousRegistryOperationBuilderView { category: Some(category@), ..self@ }),
    {
        let mut next = self;
        next.category = Some(category);
        next
    }

    pub fn operation(self, operation: String) -> (b: Self)
        ensures
            b@ == (SuspiciousRegistryOperationBuilderView { operation: Some(operation@), ..self@ }),
    {
        let mut next = self;
        next.operation = Some(operation);
        next
    }

    pub fn key_path(self, key_path: String) -> (b: Self)
        ensures
            b@ == (SuspiciousRegistryOperationBuilderView { key_path: Some(key_path@), ..self@ }),
    {
        let mut next = self;
        next.key_path = Some(key_path);
        next
    }

    pub fn value_name(self, value_name: String) -> (b: Self)
        ensures
            b@ == (SuspiciousRegistryOperationBuilderView { value_name: Some(value_name@), ..self@ }),
    {
        let mut next = self;
        next.value_name = Some(value_name);
        next
    }

    pub fn data(self, data: String) -> (b: Self)
        ensures
            b@ == (SuspiciousRegistryOperationBuilderView { data: Some(data@), ..self@ }),
    {
        let mut next = self;
        next.data = Some(data);
        next
    }

    pub fn process_name(self, process_name: String) -> (b: Self)
        ensures
            b@ == (SuspiciousRegistryOperationBuilderView { process_name: Some(process_name@), ..self@ }),
    {
        let mut next = self;
        next.process_name = Some(process_name);
        next
    }

    pub fn process_id(self, process_id: u32) -> (b: Self)
        ensures
            b@ == (SuspiciousRegistryOperationBuilderView { process_id: Some(process_id), ..self@ }),
    {
        let mut next = self;
        next.process_id = Some(process_id);
        next
    }

    pub fn severity_level(self, severity_level: Severity) -> (b: Self)
        ensures
            b@ == (SuspiciousRegistryOperationBuilderView { severity_level: Some(severity_level), ..self@ }),
    {
        let mut next = self;
        next.severity_level = Some(severity_level);
        next
    }

    pub fn reason(self, reason: String) -> (b: Self)
        ensures
            b@ == (SuspiciousRegistryOperationBuilderView { reason: Some(reason@), ..self@ }),
    {
        let mut next = self;
        next.reason = Some(reason);
        next
    }

    /// Builds the record, with the given identifier and timestamp standing in
    /// where the builder holds none. Fails with the message for the first
    /// missing field, or else with that of the first broken invariant.
    pub fn build_with(self, id: String, timestamp: Timestamp) -> (r: Result<
        SuspiciousRegistryOperation,
        String,
    >)
        ensures
            match r {
                Ok(record) => self@.rejection() is None && record@ == self@.operation_record(
                    id@,
                    timestamp,
                ) && record@.valid(),
                Err(message) => self@.rejection() == Some(message@),
            },
    {
        let id = match self.id {
            Some(given) => given,
            None => id,
        };
        let timestamp = match self.timestamp {
            Some(given) => given,
            None => timestamp,
        };
        let source = match self.source {
            Some(source) => source,
            None => { return Err(String::from_str("source is required")); },
        };
        let category = match self.category {
            Some(category) => category,
            None => { return Err(String::from_str("category is required")); },
        };
        let operation = match self.operation {
            Some(operation) => operation,
            None => { return Err(String::from_str("operation is required")); },
        };
        let key_path = match self.key_path {
            Some(key_path) => key_path,
            None => { return Err(String::from_str("key_path is required")); },
        };
        let severity_level = match self.severity_level {
            Some(severity_level) => severity_level,
            None => { return Err(String::from_str("severity_level is required")); },
        };
        let reason = match self.reason {
            Some(reason) => reason,
            None => { return Err(String::from_str("reason is required")); },
        };
        let record = SuspiciousRegistryOperation {
            id,
            timestamp,
            source,
            category,
            operation,
            key_path,
            value_name: self.value_name,
            data: self.data,
            process_name: self.process_name,
            process_id: self.process_id,
            severity_level,
            reason,
        };
        match record.validate() {
            Ok(()) => Ok(record),
            Err(message) => Err(message),
        }
    }

    /// Builds the record. An identifier or a timestamp that was not set is
    /// generated. Fails with the message for the first missing field, or else
    /// with that of the first broken invariant.
    pub fn build(self) -> (r: Result<SuspiciousRegistryOperation, String>)
        ensures
            match r {
                Ok(record) => {
                    &&& self@.rejection() is None
                    &&& record@ == self@.operation_record(record@.id, record@.timestamp)
                    &&& self@.id is None ==> record@.id.len() == ID_LENGTH
                    &&& record@.valid()
                },
                Err(message) => self@.rejection() == Some(message@),
            },
    {
        let id = if self.id.is_none() {
            generate_id()
        } else {
            String::new()
        };
        let timestamp = Timestamp::now();
        self.build_with(id, timestamp)
    }
}

impl Default for SuspiciousRegistryOperationBuilder {
    fn default() -> (b: Self)
        ensures
            b@ == SuspiciousRegistryOperationBuilderView::empty(),
    {
        SuspiciousRegistryOperationBuilder::new()
    }
}

} // verus!
