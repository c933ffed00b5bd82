[package]
name = "dbgrid"
version = "0.1.0"
edition = "2021"
publish = false

[dependencies]
tui = "0.19"
crossterm = "0.25"
sqlx = { version = "0.6", default-features = false, features = ["runtime-tokio-rustls", "mysql", "chrono", "json"] }
tokio = { version = "1", features = ["rt-multi-thread", "macros"] }
dotenv = "0.15"
chrono = { version = "0.4", default-features = false, features = ["clock"] }
serde_json = "1"
unicode-width = "0.1"
