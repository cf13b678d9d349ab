[package]
name = "gem"
version = "0.1.0"
edition = "2021"
publish = false

[dependencies]
anyhow = "1"
clap = { version = "4", features = ["derive"] }
crokey = "*"
crossbeam = "0.8"
crossterm = "*"
hocon = { version = "0.9", default-features = false }
log = "0.4"
log4rs = "1"
minimad = "*"
serde = { version = "1", features = ["derive"] }
sys-info = "0.9"
termimad = "*"
tokio = { version = "1", features = ["rt", "process", "io-util", "macros", "sync"] }
uuid = { version = "1", features = ["v4"] }

[dev-dependencies]
regex = "1"
