[package]
name = "shfs"
version = "0.1.0"
edition = "2021"
publish = false

[dependencies]
path-absolutize = "3"
zstd = "0.13"
serde = { version = "1", features = ["derive"] }
serde_json = "1"
tokio = { version = "1", features = ["net", "rt", "rt-multi-thread"] }
clap = "2"
dns-lookup = "1"
fuse = "0.3"
time = "0.1"
rich = "*"
