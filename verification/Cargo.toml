[package]
name = "bux"
version = "0.1.0"
edition = "2021"
publish = false

[dependencies]
sha2 = "0.10"
serde = { version = "1", features = ["derive"] }
serde_json = "1"
postcard = { version = "1", features = ["alloc"] }
tokio = { version = "1", features = ["rt", "macros", "io-util", "net", "process", "time", "fs", "sync"] }
tokio-vsock = "*"
rusqlite = { version = "*", features = ["bundled"] }
tar = "0.4"
flate2 = "1"
libc = "0.2"
nix = { version = "*", features = ["fs", "process", "signal", "term"] }
oci-client = "*"
thiserror = "*"
anyhow = "1"
clap = { version = "4", features = ["derive"] }
dirs = "*"
