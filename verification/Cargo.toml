[package]
name = "nc_data_export"
version = "0.1.0"
edition = "2021"
publish = false

[dependencies]
anyhow = "=1.0.104"
base64 = "=0.23.1"
chrono = "=0.4.45"
clap = { version = "=4.6.7", features = ["derive", "env"] }
directories = "=6.0.0"
futures = "=0.3.34"
reqwest = { version = "=0.13.5", default-features = false, features = ["json", "query", "cookies"] }
serde = { version = "=1.0.229", features = ["derive"] }
serde_json = "=1.0.151"
thiserror = "=2.0.21"
tokio = { version = "=1.53.2", features = ["rt-multi-thread", "macros", "sync", "time"] }
tracing = "*"
