[package]
name = "styrene_storage"
version = "0.1.0"
edition = "2021"
publish = false

[dependencies]
rusqlite = { version = "=0.41.1", features = ["bundled"] }
hex = "=0.4.3"
sha2 = "=0.10.9"
serde_json = "=1.0.154"
serde = { version = "=1.0.229", features = ["derive"] }
thiserror = "=2.0.21"
rustix = { version = "=1.1.6", features = ["fs"] }
rand_core = { version = "=0.6.4", features = ["getrandom"] }

[dev-dependencies]
tempfile = "3"
