[package]
name = "bybit_rs"
version = "0.1.0"
edition = "2021"
publish = false

[dependencies]
serde_json = "*"
hmac = "*"
sha2 = "*"
serde = { version = "*", features = ["derive"] }
chrono = "*"
tokio = { version = "*", features = ["rt", "macros", "time"] }
futures = "*"
async-tungstenite = { version = "*", default-features = false, features = ["tokio-runtime"] }
reqwest = { version = "*", default-features = false, features = ["json"] }
