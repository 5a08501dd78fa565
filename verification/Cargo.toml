[package]
name = "support_net"
version = "0.1.0"
edition = "2021"
publish = false

[dependencies]
chrono = "0.4"
chrono-tz = "*"
dotenvy = "0.15"
serenity = { version = "0.11", default-features = false, features = ["client", "gateway", "model", "rustls_backend"] }
tokio = { version = "1", features = ["macros", "rt-multi-thread", "sync"] }
