[package]
name = "glaredb_pg"
version = "0.1.0"
edition = "2021"
publish = false

[dependencies]
uuid = "=1.29.0"
tokio-postgres = { version = "=0.7.18", features = ["with-chrono-0_4"] }
bytes = "=1.12.1"
chrono = "=0.4.45"
chrono-tz = "=0.8.6"
serde_json = "=1.0.154"
tokio = { version = "=1.54.1", features = ["rt", "macros", "io-util", "sync"] }
futures = "=0.3.34"
async-trait = "=0.1.92"
tracing = "=0.1.44"
once_cell = "=1.21.4"
