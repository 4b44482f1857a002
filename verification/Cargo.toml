[package]
name = "niumside_poptracker"
version = "0.1.0"
edition = "2021"
publish = false

[dependencies]
async-trait = "0.1"
chrono = { version = "=0.4.45", default-features = false, features = ["std", "clock"] }
config = { version = "*", default-features = false, features = ["toml"] }
ezsockets = "*"
metrics = "*"
regex = "=1.13.1"
serde = { version = "1", features = ["derive"] }
serde_json = { version = "=1.0.154", features = ["preserve_order"] }
sqlx = { version = "*", default-features = false, features = ["postgres", "runtime-tokio", "chrono"] }
tokio = { version = "1", features = ["rt-multi-thread", "macros", "time", "sync"] }
tracing = "0.1"
tracing-subscriber = "*"
url = { version = "=2.5.8", features = ["serde"] }
