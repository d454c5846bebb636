[package]
name = "spider"
version = "0.1.0"
edition = "2021"
publish = false

[dependencies]
hashbrown = "0.14"
string-interner = "0.15"
chromiumoxide = { version = "0.6", default-features = false, features = ["tokio-runtime", "bytes"] }
tokio = { version = "1", features = ["rt", "time"] }
tokio-stream = "0.1"
