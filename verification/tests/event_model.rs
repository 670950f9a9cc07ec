use lsedr::features::filesystem::models::{FileEvent, FileEventBuilder, FileEventType};
use lsedr::features::registry::models::{
    AutoRunEntry, RegistryEvent, RegistryEventBuilder, RegistryEventType,
    SuspiciousRegistryOperationBuilder,
};
use lsedr::shared::clock::Timestamp;
use lsedr::shared::error::CollectionError;
use lsedr::shared::traits::{Event, Identifiable, Severity, Validatable};

fn at(secs: i64) -> Timestamp {
    Timestamp { secs, nanos: 0 }
}

fn file_builder(kind: FileEventType) -> FileEventBuilder {
    FileEventBuilder::new()
        .id("id-1".to_string())
        .timestamp(at(10))
        .source("host".to_string())
        .category("filesystem".to_string())
        .event_type(kind)
        .path("/tmp/a.txt".to_string())
        .file_type("file".to_string())
}

fn all_file_kinds() -> Vec<FileEventType> {
    vec![
        FileEventType::Created,
        FileEventType::Modified,
        FileEventType::Deleted,
        FileEventType::Renamed,
        FileEventType::AttributesModified,
        FileEventType::Accessed,
    ]
}

fn registry_builder(kind: RegistryEventType) -> RegistryEventBuilder {
    RegistryEventBuilder::new()
        .id("id-2".to_string())
        .timestamp(at(20))
        .source("host".to_string())
        .category("registry".to_string())
        .event_type(kind)
        .key_path("HKEY_LOCAL_MACHINE\\SOFTWARE\\Run".to_string())
}

fn file_event(kind: FileEventType) -> FileEvent {
    file_builder(kind).build().unwrap()
}

fn registry_event(kind: RegistryEventType) -> RegistryEvent {
    registry_builder(kind).build().unwrap()
}

#[test]
fn file_event_builds_with_all_fields() {
    let event = file_builder(FileEventType::Renamed)
        .new_path("/tmp/b.txt".to_string())
        .file_size(12)
        .permissions("rw-".to_string())
        .hash("abcd".to_string())
        .process_id(7)
        .process_name("proc".to_string())
        .build()
        .unwrap();
    assert_eq!(event.id, "id-1");
    assert_eq!(event.timestamp, at(10));
    assert_eq!(event.source, "host");
    assert_eq!(event.category, "filesystem");
    assert_eq!(event.event_type, FileEventType::Renamed);
    assert_eq!(event.path, "/tmp/a.txt");
    assert_eq!(event.new_path, Some("/tmp/b.txt".to_string()));
    assert_eq!(event.file_type, "file");
    assert_eq!(event.file_size, Some(12));
    assert_eq!(event.permissions, Some("rw-".to_string()));
    assert_eq!(event.hash, Some("abcd".to_string()));
    assert_eq!(event.process_id, Some(7));
    assert_eq!(event.process_name, Some("proc".to_string()));
}

#[test]
fn file_event_optional_fields_default_to_none() {
    let event = file_event(FileEventType::Created);
    assert_eq!(event.new_path, None);
    assert_eq!(event.file_size, None);
    assert_eq!(event.permissions, None);
    assert_eq!(event.hash, None);
    assert_eq!(event.process_id, None);
    assert_eq!(event.process_name, None);
}

#[test]
fn file_builder_rejects_empty_path_for_every_kind() {
    for kind in all_file_kinds() {
        let built = file_builder(kind).path(String::new()).build();
        assert_eq!(built.err(), Some("File path cannot be empty".to_string()));
    }
}

#[test]
fn registry_builder_rejects_empty_key_path_for_every_kind() {
    for kind in [RegistryEventType::Created, RegistryEventType::Modified, RegistryEventType::Deleted] {
        let built = registry_builder(kind).key_path(String::new()).build();
        assert_eq!(built.err(), Some("Registry key path cannot be empty".to_string()));
    }
}

#[test]
fn file_builder_rejects_zero_size() {
    let built = file_builder(FileEventType::Created).file_size(0).build();
    assert_eq!(built.err(), Some("File size cannot be zero when provided".to_string()));
    assert!(file_builder(FileEventType::Created).file_size(1).build().is_ok());
}

#[test]
fn file_builder_rejects_empty_rename_target() {
    let built = file_builder(FileEventType::Renamed).new_path(String::new()).build();
    assert_eq!(built.err(), Some("New file path cannot be empty when provided".to_string()));
}

#[test]
fn file_builder_rejects_empty_file_type() {
    let built = file_builder(FileEventType::Created).file_type(String::new()).build();
    assert_eq!(built.err(), Some("File type cannot be empty".to_string()));
}

#[test]
fn file_builder_reports_first_violation_only() {
    let built = file_builder(FileEventType::Created)
        .path(String::new())
        .file_type(String::new())
        .file_size(0)
        .build();
    assert_eq!(built.err(), Some("File path cannot be empty".to_string()));
}

#[test]
fn file_builder_names_first_missing_field() {
    let none = FileEventBuilder::new().build();
    assert_eq!(none.err(), Some("source is required".to_string()));
    let with_source = FileEventBuilder::new().source("h".to_string()).build();
    assert_eq!(with_source.err(), Some("category is required".to_string()));
    let with_category =
        FileEventBuilder::new().source("h".to_string()).category("c".to_string()).build();
    assert_eq!(with_category.err(), Some("event_type is required".to_string()));
    let with_kind = FileEventBuilder::new()
        .source("h".to_string())
        .category("c".to_string())
        .event_type(FileEventType::Created)
        .build();
    assert_eq!(with_kind.err(), Some("path is required".to_string()));
    let with_path = FileEventBuilder::new()
        .source("h".to_string())
        .category("c".to_string())
        .event_type(FileEventType::Created)
        .path("/p".to_string())
        .build();
    assert_eq!(with_path.err(), Some("file_type is required".to_string()));
}

#[test]
fn file_builder_generates_id_and_timestamp_when_absent() {
    let event = FileEventBuilder::new()
        .source("h".to_string())
        .category("c".to_string())
        .event_type(FileEventType::Created)
        .path("/p".to_string())
        .file_type("file".to_string())
        .build()
        .unwrap();
    assert_eq!(event.id.chars().count(), 36);
    assert!(event.timestamp.secs > 1_600_000_000);
    assert!(event.timestamp.nanos < 2_000_000_000);
}

#[test]
fn file_builder_build_with_uses_fallbacks_only_when_absent() {
    let bare = FileEventBuilder::new()
        .source("h".to_string())
        .category("c".to_string())
        .event_type(FileEventType::Created)
        .path("/p".to_string())
        .file_type("file".to_string())
        .build_with("fallback".to_string(), at(99))
        .unwrap();
    assert_eq!(bare.id, "fallback");
    assert_eq!(bare.timestamp, at(99));
    let set = file_builder(FileEventType::Created).build_with("fallback".to_string(), at(99)).unwrap();
    assert_eq!(set.id, "id-1");
    assert_eq!(set.timestamp, at(10));
}

#[test]
fn default_builders_hold_nothing() {
    assert_eq!(FileEventBuilder::default().build().err(), Some("source is required".to_string()));
    assert_eq!(
        RegistryEventBuilder::default().build().err(),
        Some("source is required".to_string())
    );
    assert_eq!(
        SuspiciousRegistryOperationBuilder::default().build().err(),
        Some("source is required".to_string())
    );
}

#[test]
fn file_severity_table() {
    assert_eq!(file_event(FileEventType::Created).severity(), Severity::High);
    assert_eq!(file_event(FileEventType::Deleted).severity(), Severity::High);
    assert_eq!(file_event(FileEventType::Modified).severity(), Severity::Medium);
    assert_eq!(file_event(FileEventType::Renamed).severity(), Severity::Medium);
    assert_eq!(file_event(FileEventType::AttributesModified).severity(), Severity::Low);
    assert_eq!(file_event(FileEventType::Accessed).severity(), Severity::Low);
}

#[test]
fn file_event_type_names() {
    assert_eq!(file_event(FileEventType::Created).event_type(), "file_created");
    assert_eq!(file_event(FileEventType::Modified).event_type(), "file_modified");
    assert_eq!(file_event(FileEventType::Deleted).event_type(), "file_deleted");
    assert_eq!(file_event(FileEventType::Renamed).event_type(), "file_renamed");
    assert_eq!(
        file_event(FileEventType::AttributesModified).event_type(),
        "file_attributes_modified"
    );
    assert_eq!(file_event(FileEventType::Accessed).event_type(), "file_accessed");
}

#[test]
fn file_event_accessors() {
    let event = file_event(FileEventType::Created);
    assert_eq!(event.timestamp(), at(10));
    assert_eq!(event.source(), "host");
    assert_eq!(event.id(), "id-1");
    assert_eq!(event.category(), "filesystem");
    assert!(event.is_valid());
    assert_eq!(event.validate(), Ok(()));
}

#[test]
fn file_event_validate_catches_later_mutation() {
    let mut event = file_event(FileEventType::Created);
    event.path = String::new();
    assert!(!event.is_valid());
    assert_eq!(event.validate(), Err("File path cannot be empty".to_string()));
}

#[test]
fn registry_severity_table_and_names() {
    let created = registry_event(RegistryEventType::Created);
    let modified = registry_event(RegistryEventType::Modified);
    let deleted = registry_event(RegistryEventType::Deleted);
    assert_eq!(created.severity(), Severity::High);
    assert_eq!(modified.severity(), Severity::Medium);
    assert_eq!(deleted.severity(), Severity::High);
    assert_eq!(created.event_type(), "registry_created");
    assert_eq!(modified.event_type(), "registry_modified");
    assert_eq!(deleted.event_type(), "registry_deleted");
    assert_eq!(RegistryEventType::Created.to_name(), "Created");
    assert_eq!(RegistryEventType::Modified.to_name(), "Modified");
    assert_eq!(RegistryEventType::Deleted.to_name(), "Deleted");
}

#[test]
fn registry_event_builds_with_all_fields() {
    let event = registry_builder(RegistryEventType::Modified)
        .value_name("Updater".to_string())
        .old_data("a.exe".to_string())
        .new_data("b.exe".to_string())
        .process_name("reg.exe".to_string())
        .process_id(44)
        .build()
        .unwrap();
    assert_eq!(event.id, "id-2");
    assert_eq!(event.timestamp, at(20));
    assert_eq!(event.source, "host");
    assert_eq!(event.category, "registry");
    assert_eq!(event.key_path, "HKEY_LOCAL_MACHINE\\SOFTWARE\\Run");
    assert_eq!(event.value_name, Some("Updater".to_string()));
    assert_eq!(event.old_data, Some("a.exe".to_string()));
    assert_eq!(event.new_data, Some("b.exe".to_string()));
    assert_eq!(event.process_name, Some("reg.exe".to_string()));
    assert_eq!(event.process_id, Some(44));
    assert_eq!(event.id(), "id-2");
    assert_eq!(event.category(), "registry");
    assert_eq!(event.source(), "host");
    assert_eq!(event.timestamp(), at(20));
}

#[test]
fn registry_builder_names_first_missing_field() {
    assert_eq!(RegistryEventBuilder::new().build().err(), Some("source is required".to_string()));
    assert_eq!(
        RegistryEventBuilder::new().source("h".to_string()).build().err(),
        Some("category is required".to_string())
    );
    assert_eq!(
        RegistryEventBuilder::new()
            .source("h".to_string())
            .category("c".to_string())
            .build()
            .err(),
        Some("event_type is required".to_string())
    );
    assert_eq!(
        RegistryEventBuilder::new()
            .source("h".to_string())
            .category("c".to_string())
            .event_type(RegistryEventType::Created)
            .build()
            .err(),
        Some("key_path is required".to_string())
    );
}

#[test]
fn registry_builder_generates_id_and_timestamp_when_absent() {
    let event = RegistryEventBuilder::new()
        .source("h".to_string())
        .category("c".to_string())
        .event_type(RegistryEventType::Created)
        .key_path("K".to_string())
        .build()
        .unwrap();
    assert_eq!(event.id.chars().count(), 36);
    assert!(event.timestamp.secs > 1_600_000_000);
}

fn suspicious_builder() -> SuspiciousRegistryOperationBuilder {
    SuspiciousRegistryOperationBuilder::new()
        .id("op-1".to_string())
        .timestamp(at(30))
        .source("host".to_string())
        .category("registry_suspicious".to_string())
        .operation("Created".to_string())
        .key_path("K".to_string())
        .severity_level(Severity::High)
        .reason("because".to_string())
}

#[test]
fn suspicious_operation_builds_and_reports_itself() {
    let op = suspicious_builder()
        .value_name("v".to_string())
        .data("d".to_string())
        .process_name("p".to_string())
        .process_id(3)
        .build()
        .unwrap();
    assert_eq!(op.id, "op-1");
    assert_eq!(op.timestamp, at(30));
    assert_eq!(op.operation, "Created");
    assert_eq!(op.key_path, "K");
    assert_eq!(op.value_name, Some("v".to_string()));
    assert_eq!(op.data, Some("d".to_string()));
    assert_eq!(op.process_name, Some("p".to_string()));
    assert_eq!(op.process_id, Some(3));
    assert_eq!(op.severity_level, Severity::High);
    assert_eq!(op.reason, "because");
    assert_eq!(op.event_type(), "suspicious_registry_operation");
    assert_eq!(op.severity(), Severity::High);
    assert_eq!(op.id(), "op-1");
    assert_eq!(op.category(), "registry_suspicious");
    assert_eq!(op.source(), "host");
    assert_eq!(op.timestamp(), at(30));
    assert!(op.is_valid());
}

#[test]
fn suspicious_builder_rejects_empty_required_texts() {
    assert_eq!(
        suspicious_builder().operation(String::new()).build().err(),
        Some("Operation cannot be empty".to_string())
    );
    assert_eq!(
        suspicious_builder().key_path(String::new()).build().err(),
        Some("Registry key path cannot be empty".to_string())
    );
    assert_eq!(
        suspicious_builder().reason(String::new()).build().err(),
        Some("Reason cannot be empty".to_string())
    );
}

#[test]
fn suspicious_builder_names_first_missing_field() {
    let b = SuspiciousRegistryOperationBuilder::new;
    assert_eq!(b().build().err(), Some("source is required".to_string()));
    assert_eq!(
        b().source("h".to_string()).build().err(),
        Some("category is required".to_string())
    );
    assert_eq!(
        b().source("h".to_string()).category("c".to_string()).build().err(),
        Some("operation is required".to_string())
    );
    assert_eq!(
        b().source("h".to_string())
            .category("c".to_string())
            .operation("o".to_string())
            .build()
            .err(),
        Some("key_path is required".to_string())
    );
    assert_eq!(
        b().source("h".to_string())
            .category("c".to_string())
            .operation("o".to_string())
            .key_path("k".to_string())
            .build()
            .err(),
        Some("severity_level is required".to_string())
    );
    assert_eq!(
        b().source("h".to_string())
            .category("c".to_string())
            .operation("o".to_string())
            .key_path("k".to_string())
            .severity_level(Severity::Low)
            .build()
            .err(),
        Some("reason is required".to_string())
    );
}

fn autorun(enabled: bool) -> AutoRunEntry {
    AutoRunEntry {
        id: "a".to_string(),
        timestamp: at(1),
        source: "host".to_string(),
        category: "autorun".to_string(),
        location: "HKLM\\Run".to_string(),
        name: "n".to_string(),
        command: "c.exe".to_string(),
        enabled,
        last_modified: at(2),
    }
}

#[test]
fn autorun_entry_severity_and_validation() {
    assert_eq!(autorun(true).severity(), Severity::High);
    assert_eq!(autorun(false).severity(), Severity::Low);
    assert_eq!(autorun(true).event_type(), "autorun_entry");
    assert_eq!(autorun(true).id(), "a");
    assert_eq!(autorun(true).category(), "autorun");
    assert_eq!(autorun(true).source(), "host");
    assert_eq!(autorun(true).timestamp(), at(1));
    assert!(autorun(true).is_valid());
    let mut no_location = autorun(true);
    no_location.location = String::new();
    assert_eq!(no_location.validate(), Err("Location cannot be empty".to_string()));
    let mut no_name = autorun(true);
    no_name.name = String::new();
    assert_eq!(no_name.validate(), Err("Name cannot be empty".to_string()));
    let mut no_command = autorun(true);
    no_command.command = String::new();
    assert_eq!(no_command.validate(), Err("Command cannot be empty".to_string()));
    assert!(!no_command.is_valid());
}

#[test]
fn collection_error_messages() {
    assert_eq!(
        CollectionError::Parse("bad".to_string()).message(),
        "Failed to parse data: bad"
    );
    assert_eq!(
        CollectionError::SystemApi("down".to_string()).message(),
        "System API error: down"
    );
    assert_eq!(CollectionError::RateLimit.message(), "Rate limit exceeded");
    let io = std::io::Error::new(std::io::ErrorKind::Other, "boom");
    assert_eq!(CollectionError::Io(io).message(), "IO error: boom");
}

#[test]
fn current_time_is_after_2020() {
    let now = Timestamp::now();
    assert!(now.secs > 1_577_836_800);
    assert!(now.nanos < 2_000_000_000);
}
