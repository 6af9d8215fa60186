[package]
name = "coda_api"
version = "0.1.0"
edition = "2021"
publish = false

[dependencies]
chrono = { version = "0.4", default-features = false, features = ["serde", "std"] }
governor = "*"
progenitor-client = "*"
reqwest = { version = "*", default-features = false, features = ["json"] }
serde = { version = "1", features = ["derive"] }
thiserror = "*"
time = { version = "0.3", features = ["formatting", "parsing"] }
