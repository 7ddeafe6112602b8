[package]
name = "pview"
version = "0.1.0"
edition = "2021"
publish = false

[dependencies]
anyhow = "1.0.86"
arc-swap = "1.7.1"
async-stream = "0.3"
clap = { version = "4.5.4", features = ["derive"] }
futures-util = "0.3"
log = "0.4.21"
mosquitto-rs = "*"
reqwest = { version = "0.12.4", default-features = false, features = ["json", "stream"] }
serde = { version = "1.0.202", features = ["derive"] }
serde_json = "1.0.117"
serde_repr = "0.1.19"
tabout = "0.3.0"
thiserror = "1.0.61"
tokio = { version = "1.37.0", features = ["rt", "macros", "rt-multi-thread", "time", "sync"] }
wez-mdns = "*"
