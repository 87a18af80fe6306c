[package]
name = "project_workspaces"
version = "0.1.0"
edition = "2021"
publish = false

[dependencies]
url = "=2.5.8"
uuid = "=1.29.0"
thiserror = "=1.0.69"
tokio = { version = "=1.54.1", features = ["rt", "rt-multi-thread", "macros"] }
sha2 = "0.10"

[dev-dependencies]
chrono = "=0.4.45"
tempfile = "=3.27.0"
