[package]
name = "trade_monitor"
version = "0.1.0"
edition = "2021"
publish = false

[dependencies]
chrono = "0.4"
rand = "0.8"
serde = { version = "1", features = ["derive"] }
serde_json = "1"
actix-web = { version = "4", default-features = false, features = ["macros"] }
async-trait = "0.1"
futures-util = "0.3"
log = "0.4"
mysql = { version = "*", default-features = false, features = ["minimal"] }
