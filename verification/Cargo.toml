[package]
name = "byo_graphql"
version = "0.1.0"
edition = "2021"
publish = false

[dependencies]
serde = { version = "=1.0.229", features = ["derive"] }
reqwest = { version = "=0.13.5", default-features = false, features = ["blocking", "json"] }
thiserror = "=2.0.21"

[dev-dependencies]
serde_json = "=1.0.151"
