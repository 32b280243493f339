[package]
name = "tcgui-backend"
version = "0.1.0"
edition = "2021"
publish = false

[dependencies]
regex = "1"
dirs = "*"
clap = "4"
anyhow = "1"
tracing = "0.1"
tracing-subscriber = "0.3"
tokio = { version = "1", features = ["rt-multi-thread", "macros", "time", "process"] }
nlink = "*"
serde = { version = "1", features = ["derive"] }
serde_json = "1"
thiserror = "*"
nix = { version = "*", features = ["sched"] }
