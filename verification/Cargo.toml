[package]
name = "cosmonaute"
version = "0.1.0"
edition = "2021"
publish = false

[dependencies]
serde_json = "1"
cargo_metadata = "*"
rustdoc-types = "*"
bitcode = { version = "0.6", features = ["serde"] }
tokio = { version = "1", features = ["process", "io-util", "fs", "rt", "rt-multi-thread", "macros", "sync"] }
derive_more = { version = "1", features = ["error", "from"] }
