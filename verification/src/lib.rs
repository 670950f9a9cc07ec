pub mod features;
pub mod shared;

pub use features::filesystem::{FileEvent, FileEventType, FileSystemCollector};
pub use features::network::{NetworkCollector, NetworkInformation};
pub use features::registry::{
    RegistryCollector, RegistryEvent, RegistryEventType, SuspiciousRegistryOperation,
};
pub use features::service::{ServiceCollector, ServiceInformation};
pub use features::system_metrics::{DiskInformation, MemoryInformation};
pub use shared::error::{CollectionError, ProcessingError, StorageError};
pub use shared::traits::{DataCollector, Event, Identifiable, Severity, Validatable};
