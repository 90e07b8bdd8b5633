[package]
name = "mirrorurl"
version = "0.1.0"
edition = "2021"
publish = false

[dependencies]
url = "2"
mime = "0.3"
scraper = "*"
serde_json = "1"
clap = { version = "4", features = ["derive"] }
tokio = { version = "1", features = ["rt-multi-thread", "macros", "sync", "fs", "time", "io-util"] }
reqwest = { version = "*", default-features = false }
log = "0.4"
num_cpus = "1"
