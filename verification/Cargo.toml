[package]
name = "endless-ssh-rs"
version = "0.1.0"
edition = "2021"
publish = false

[dependencies]
anyhow = "1"
axum = { version = "0.8", features = ["ws"] }
clap = { version = "4", features = ["derive"] }
color-eyre = "0.6"
dashmap = "6"
dotenvy = "0.15"
fastrand = "=2.5.0"
flate2 = "1"
http = "1"
ipnet = "2"
libc = "=0.2.191"
maxminddb = { version = "*", features = ["mmap"] }
memmap2 = "0.9"
reqwest = { version = "0.12", default-features = false, features = ["rustls-tls"] }
serde = { version = "1", features = ["derive"] }
serde_json = "1"
sqlx = { version = "0.8", default-features = false, features = ["postgres", "runtime-tokio", "time", "migrate", "ipnet"] }
tar = "0.4"
thiserror = "2"
time = { version = "=0.3.55", features = ["parsing", "formatting", "serde"] }
tokio = { version = "=1.54.1", features = ["rt-multi-thread", "net", "time", "signal", "sync", "macros", "io-util"] }
tokio-util = { version = "0.7", features = ["rt"] }
tracing = "0.1"
tracing-error = "0.2"
tracing-subscriber = { version = "0.3", features = ["env-filter"] }
url = "=2.5.8"
