[package]
name = "nvmd"
version = "0.1.0"
edition = "2021"
publish = false

[dependencies]
node-semver = "*"
version-compare = "*"
anyhow = "*"
serde = { version = "*", features = ["derive"] }
serde_json = "*"
tokio = { version = "*", features = ["rt", "rt-multi-thread", "fs", "io-util", "sync", "time", "macros"] }
tokio-util = { version = "*", features = ["compat"] }
tokio-tar = "*"
async-compression = { version = "*", features = ["tokio", "gzip"] }
async_zip = { version = "*", features = ["tokio", "deflate"] }
futures-util = "*"
futures-lite = "*"
reqwest = { version = "*", default-features = false, features = ["rustls-tls", "stream"] }
once_cell = "*"
open = "*"
