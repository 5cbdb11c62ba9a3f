[package]
name = "rustwhy"
version = "0.1.0"
edition = "2021"
publish = false

[dependencies]
anyhow = "1"
async-trait = "0.1"
bytesize = "1"
chrono = { version = "0.4", features = ["serde"] }
clap = { version = "4", features = ["derive"] }
clap_complete = "4"
colored = "2"
humantime = "2"
regex = "1"
serde = { version = "1", features = ["derive"] }
serde_json = "1"
sysinfo = "0.31"
tabled = "0.15"
tokio = { version = "1", features = ["rt-multi-thread"] }
users = "0.11"
walkdir = "2"
which = "6"
