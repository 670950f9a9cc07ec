pub mod collector;
pub mod models;

pub use collector::FileSystemCollector;
pub use models::{FileEvent, FileEventBuilder, FileEventType};
