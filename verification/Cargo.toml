[package]
name = "modpack_sync"
version = "0.1.0"
edition = "2021"
publish = false

[dependencies]
bytesize = "1.3"
futures-util = "0.3"
preferences = "1.1"
reqwest = { version = "0.11", features = ["stream"] }
rfd = "0.11"
serde = { version = "1", features = ["derive"] }
serde_json = "1"
sha2 = "0.10"
