use vstd::prelude::*;
use crate::shared::clock::Timestamp;
use crate::shared::error::{CollectionError, ProcessingError};

verus! {

/// How urgent an event is for whoever consumes it.
#[derive(Debug, Clone, Copy, PartialEq, Eq, Structural)]
pub enum Severity {
    Low,
    Medium,
    High,
    Critical,
}

/// What every record that the agent emits can tell about itself.
pub trait Event {
    fn timestamp(&self) -> Timestamp;

    fn source(&self) -> &str;

    fn event_type(&self) -> &str;

    fn severity(&self) -> Severity;
}

/// The pull contract of an engine: the scheduler calls `collect` on its own
/// schedule and gets whatever is available now.
pub trait DataCollector<T> {
    fn collect(&mut self) -> Result<T, CollectionError>;

    fn validate(&self) -> Result<(), CollectionError>;

    fn health_check(&self) -> bool;
}

/// A transformation from collected data to derived data.
pub trait DataProcessor<T, U> {
    fn process(&self, data: T) -> Result<U, ProcessingError>;

    fn validate_input(&self, data: &T) -> Result<(), ProcessingError>;

    fn validate_output(&self, data: &U) -> Result<(), ProcessingError>;
}

/// Descriptive metadata of a component.
pub trait MetadataProvider {
    fn name(&self) -> &str;

    fn version(&self) -> &str;

    fn description(&self) -> &str;
}

/// A record with an identity and a category.
pub trait Identifiable {
    fn id(&self) -> &str;

    fn category(&self) -> &str;
}

/// A record with invariants that can be checked at run time.
pub trait Validatable {
    /// The invariants of the record.
    spec fn valid(&self) -> bool;

    /// `Ok` exactly for a record that meets its invariants; otherwise the
    /// message of the first invariant that fails.
    fn validate(&self) -> (r: Result<(), String>)
        ensures
            r is Ok <==> self.valid(),
    ;

    /// Whether the record meets its invariants.
    fn is_valid(&self) -> (r: bool)
        ensures
            r == self.valid(),
    {
        self.validate().is_ok()
    }
}

} // verus!
