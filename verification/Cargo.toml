[package]
name = "repo_sync"
version = "0.1.0"
edition = "2021"
publish = false

[dependencies]
regex = "1"
url = "2"
csv = "1"
walkdir = "2"
chrono = "0.4"
clap = { version = "4", features = ["derive"] }
tokio = { version = "1", features = ["macros", "rt-multi-thread"] }
serde = { version = "1", features = ["derive"] }
dotenvy = "0.15"
tracing = { version = "0.1", features = ["log"] }
sea-orm = { version = "*", features = ["sqlx-postgres", "runtime-tokio-rustls", "macros"] }
rdkafka = "*"
