[package]
name = "lsedr"
version = "0.1.0"
edition = "2021"
publish = false

[dependencies]
async-trait = "=0.1.92"
chrono = { version = "=0.4.45", default-features = false, features = ["std", "now", "serde"] }
elasticsearch = { version = "8.5.0-alpha.1", default-features = false, features = ["rustls-tls"] }
encoding_rs = "=0.8.42"
env_logger = { version = "=0.11.11", default-features = false }
log = "=0.4.34"
notify = { version = "=6.1.1", default-features = false }
regex = "=1.13.1"
serde = { version = "=1.0.229", features = ["derive"] }
serde_json = "1"
serde_yaml = "=0.9.34"
sha2 = "=0.10.9"
sysinfo = { version = "0.33", default-features = false, features = ["system", "network", "disk"] }
thiserror = "=1.0.69"
tokio = { version = "=1.54.1", features = ["rt-multi-thread", "macros", "sync", "time"] }
url = "2"
uuid = { version = "=1.29.0", features = ["v4"] }
which = "=6.0.3"
whoami = "=1.6.1"
windows = { version = "0.57", features = ["Win32_Foundation", "Win32_Security", "Win32_System_Registry", "Win32_System_Threading"] }
