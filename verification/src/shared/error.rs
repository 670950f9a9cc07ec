use vstd::prelude::*;
use vstd::string::to_string_from_display_ensures;
use crate::shared::text::joined;

verus! {

/// `std::io::Error`: an error of the operating system, carried through as
/// it came.
#[verifier::external_type_specification]
#[verifier::external_body]
pub struct ExIoError(std::io::Error);

/// A failure while gathering data from the operating system.
#[derive(Debug)]
pub enum CollectionError {
    Io(std::io::Error),
    Parse(String),
    SystemApi(String),
    RateLimit,
}

/// A failure while transforming collected data.
#[derive(Debug)]
pub enum ProcessingError {
    InvalidFormat(String),
    Validation(String),
    Transform(String),
}

/// A failure of the store that events are handed to.
#[derive(Debug)]
pub enum StorageError {
    Database(String),
    Connection(String),
    Write(String),
    Read(String),
}

/// Any failure of the agent, by the stage that it came from.
#[derive(Debug)]
pub enum XdrError {
    Collection(CollectionError),
    Processing(ProcessingError),
    Storage(StorageError),
}

impl CollectionError {
    /// The fixed text that the message begins with.
    pub open spec fn message_prefix(&self) -> Seq<char> {
        match self {
            CollectionError::Io(_) => "IO error: "@,
            CollectionError::Parse(_) => "Failed to parse data: "@,
            CollectionError::SystemApi(_) => "System API error: "@,
            CollectionError::RateLimit => "Rate limit exceeded"@,
        }
    }

    /// Whether a text is the message of the error: the fixed text for its
    /// kind and the detail that it carries. The detail of an I/O error is
    /// what that error prints for itself.
    pub open spec fn says(&self, text: Seq<char>) -> bool {
        match self {
            CollectionError::Io(e) => exists|detail: String|
                #[trigger] to_string_from_display_ensures::<std::io::Error>(e, detail) && text
                    == self.message_prefix() + detail@,
            CollectionError::Parse(m) => text == self.message_prefix() + m@,
            CollectionError::SystemApi(m) => text == self.message_prefix() + m@,
            CollectionError::RateLimit => text == self.message_prefix(),
        }
    }

    /// The human-readable message of the error.
    pub fn message(&self) -> (s: String)
        ensures
            self.says(s@),
            self.message_prefix().is_prefix_of(s@),
    {
        match self {
            CollectionError::Io(e) => {
                let detail = e.to_string();
                joined("IO error: ", detail.as_str())
            },
            CollectionError::Parse(m) => joined("Failed to parse data: ", m.as_str()),
            CollectionError::SystemApi(m) => joined("System API error: ", m.as_str()),
            CollectionError::RateLimit => String::from_str("Rate limit exceeded"),
        }
    }
}

impl ProcessingError {
    /// The message of the error: the fixed text for its kind and the detail.
    pub open spec fn message_text(&self) -> Seq<char> {
        match self {
            ProcessingError::InvalidFormat(m) => "Invalid data format: "@ + m@,
            ProcessingError::Validation(m) => "Data validation failed: "@ + m@,
            ProcessingError::Transform(m) => "Transformation error: "@ + m@,
        }
    }

    /// The human-readable message of the error.
    pub fn message(&self) -> (s: String)
        ensures
            s@ == self.message_text(),
    {
        match self {
            ProcessingError::InvalidFormat(m) => joined("Invalid data format: ", m.as_str()),
            ProcessingError::Validation(m) => joined("Data validation failed: ", m.as_str()),
            ProcessingError::Transform(m) => joined("Transformation error: ", m.as_str()),
        }
    }
}

impl StorageError {
    /// The message of the error: the fixed text for its kind and the detail.
    pub open spec fn message_text(&self) -> Seq<char> {
        match self {
            StorageError::Database(m) => "Database error: "@ + m@,
            StorageError::Connection(m) => "Connection failed: "@ + m@,
            StorageError::Write(m) => "Write operation failed: "@ + m@,
            StorageError::Read(m) => "Read operation failed: "@ + m@,
        }
    }

    /// The human-readable message of the error.
    pub fn message(&self) -> (s: String)
        ensures
            s@ == self.message_text(),
    {
        match self {
            StorageError::Database(m) => joined("Database error: ", m.as_str()),
            StorageError::Connection(m) => joined("Connection failed: ", m.as_str()),
            StorageError::Write(m) => joined("Write operation failed: ", m.as_str()),
            StorageError::Read(m) => joined("Read operation failed: ", m.as_str()),
        }
    }
}

impl XdrError {
    /// The fixed text that the message begins with: the stage that failed.
    pub open spec fn message_prefix(&self) -> Seq<char> {
        match self {
            XdrError::Collection(_) => "Collection failed: "@,
            XdrError::Processing(_) => "Processing failed: "@,
            XdrError::Storage(_) => "Storage failed: "@,
        }
    }

    /// Whether a text is the message of the error: the stage that failed and
    /// the message of the failure.
    pub open spec fn says(&self, text: Seq<char>) -> bool {
        match self {
            XdrError::Collection(e) => exists|inner: Seq<char>|
                #[trigger] e.says(inner) && text == self.message_prefix() + inner,
            XdrError::Processing(e) => text == self.message_prefix() + e.message_text(),
            XdrError::Storage(e) => text == self.message_prefix() + e.message_text(),
        }
    }

    /// The human-readable message of the error.
    pub fn message(&self) -> (s: String)
        ensures
            self.says(s@),
            self.message_prefix().is_prefix_of(s@),
    {
        match self {
            XdrError::Collection(e) => {
                let inner = e.message();
                joined("Collection failed: ", inner.as_str())
            },
            XdrError::Processing(e) => {
                let inner = e.message();
                joined("Processing failed: ", inner.as_str())
            },
            XdrError::Storage(e) => {
                let inner = e.message();
                joined("Storage failed: ", inner.as_str())
            },
        }
    }
}

impl From<std::io::Error> for CollectionError {
    fn from(e: std::io::Error) -> (r: CollectionError) {
        CollectionError::Io(e)
    }
}

impl vstd::std_specs::convert::FromSpecImpl<std::io::Error> for CollectionError {
    open spec fn obeys_from_spec() -> bool {
        true
    }

    open spec fn from_spec(e: std::io::Error) -> CollectionError {
        CollectionError::Io(e)
    }
}

impl From<CollectionError> for XdrError {
    fn from(e: CollectionError) -> (r: XdrError) {
        XdrError::Collection(e)
    }
}

impl vstd::std_specs::convert::FromSpecImpl<CollectionError> for XdrError {
    open spec fn obeys_from_spec() -> bool {
        true
    }

    open spec fn from_spec(e: CollectionError) -> XdrError {
        XdrError::Collection(e)
    }
}

impl From<ProcessingError> for XdrError {
    fn from(e: ProcessingError) -> (r: XdrError) {
        XdrError::Processing(e)
    }
}

impl vstd::std_specs::convert::FromSpecImpl<ProcessingError> for XdrError {
    open spec fn obeys_from_spec() -> bool {
        true
    }

    open spec fn from_spec(e: ProcessingError) -> XdrError {
        XdrError::Processing(e)
    }
}

impl From<StorageError> for XdrError {
    fn from(e: StorageError) -> (r: XdrError) {
        XdrError::Storage(e)
    }
}

impl vstd::std_specs::convert::FromSpecImpl<StorageError> for XdrError {
    open spec fn obeys_from_spec() -> bool {
        true
    }

    open spec fn from_spec(e: StorageError) -> XdrError {
        XdrError::Storage(e)
    }
}

} // verus!
