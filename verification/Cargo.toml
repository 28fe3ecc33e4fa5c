[package]
name = "metadata_resolve"
version = "0.1.0"
edition = "2021"
publish = false

[dependencies]
indexmap = { version = "=2.14.2", features = ["serde"] }
serde = { version = "=1.0.229", features = ["derive", "rc"] }
async-trait = "=0.1.92"
datafusion = { version = "=55.2.0", default-features = false }
