[package]
name = "market_sync"
version = "0.1.0"
edition = "2021"
publish = false

[dependencies]
anyhow = "=1.0.104"
chrono = "=0.4.45"
reqwest = { version = "=0.12.28", default-features = false, features = ["json", "rustls-tls"] }
serde = { version = "=1.0.229", features = ["derive"] }
serde_json = "=1.0.151"
sqlx = { version = "=0.9.0", default-features = false, features = ["postgres", "runtime-tokio", "chrono", "json"] }
tokio = { version = "=1.53.2", features = ["rt-multi-thread", "macros", "time", "sync", "signal"] }
toml = "=1.1.6"
uuid = { version = "=1.27.0", features = ["v4"] }
