pub mod cache;
pub mod classifier;
pub mod collector;
pub mod diff;
pub mod locations;
pub mod models;

pub use collector::RegistryCollector;
pub use models::{
    AutoRunEntry, RegistryEvent, RegistryEventBuilder, RegistryEventType,
    SuspiciousRegistryOperation, SuspiciousRegistryOperationBuilder,
};
