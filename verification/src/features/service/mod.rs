pub mod collector;
pub mod models;

pub use collector::ServiceCollector;
pub use models::{ServiceInformation, ServiceInformationBuilder};
