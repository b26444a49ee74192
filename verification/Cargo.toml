[package]
name = "ssrf_cloudrf"
version = "0.1.0"
edition = "2021"
publish = false

[dependencies]
anyhow = "1"
chrono = "0.4"
quick-xml = { version = "0.31", features = ["serialize"] }
rand = "0.8"
rand_distr = "0.4"
regex = "1"
reqwest = { version = "0.11", features = ["blocking", "json"] }
serde = { version = "1", features = ["derive"] }
serde_repr = "0.1"
serde_tuple = "0.5"
thiserror = "1"
