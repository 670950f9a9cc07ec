use vstd::prelude::*;
use vstd::string::to_string_from_display_ensures;
use crate::shared::text::joined;

verus! {

/// A failure of a collector that runs an outside command.
#[derive(Debug)]
pub enum CollectorError {
    IoError(std::io::Error),
    ParseError(String),
    CommandError(String),
}

impl CollectorError {
    /// The fixed text that the message begins with.
    pub open spec fn message_prefix(&self) -> Seq<char> {
        match self {
            CollectorError::IoError(_) => "IO error: "@,
            CollectorError::ParseError(_) => "Failed to parse output: "@,
            CollectorError::CommandError(_) => "Command execution failed: "@,
        }
    }

    /// Whether a text is the message of the error: the fixed text for its
    /// kind and the detail that it carries. The detail of an I/O error is
    /// what that error prints for itself.
    pub open spec fn says(&self, text: Seq<char>) -> bool {
        match self {
            CollectorError::IoError(e) => exists|detail: String|
                #[trigger] to_string_from_display_ensures::<std::io::Error>(e, detail) && text
                    == self.message_prefix() + detail@,
            CollectorError::ParseError(m) => text == self.message_prefix() + m@,
            CollectorError::CommandError(m) => text == self.message_prefix() + m@,
        }
    }

    /// The human-readable message of the error.
    pub fn message(&self) -> (s: String)
        ensures
            self.says(s@),
            self.message_prefix().is_prefix_of(s@),
    {
        match self {
            CollectorError::IoError(e) => {
                let detail = e.to_string();
                joined("IO error: ", detail.as_str())
            },
            CollectorError::ParseError(m) => joined("Failed to parse output: ", m.as_str()),
            CollectorError::CommandError(m) => joined("Command execution failed: ", m.as_str()),
        }
    }
}

impl From<std::io::Error> for CollectorError {
    fn from(e: std::io::Error) -> (r: CollectorError) {
        CollectorError::IoError(e)
    }
}

impl vstd::std_specs::convert::FromSpecImpl<std::io::Error> for CollectorError {
    open spec fn obeys_from_spec() -> bool {
        true
    }

    open spec fn from_spec(e: std::io::Error) -> CollectorError {
        CollectorError::IoError(e)
    }
}

/// A collector with an output type of its own.
pub trait Collector {
    type Output;

    fn collect(&mut self) -> Result<Self::Output, CollectorError>;
}

} // verus!
