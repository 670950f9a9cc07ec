pub mod models;

pub use models::{DiskInformation, MemoryInformation};
