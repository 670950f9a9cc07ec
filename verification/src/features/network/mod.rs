pub mod collector;
pub mod models;

pub use collector::NetworkCollector;
pub use models::{
    NetworkConnectionInformation, NetworkInformation, NetworkMetrics, NetworkMetricsBuilder,
};
