pub mod filesystem;
pub mod network;
pub mod process;
pub mod registry;
pub mod service;
pub mod system_metrics;
