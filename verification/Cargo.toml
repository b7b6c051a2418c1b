[package]
name = "browser_automation"
version = "0.1.0"
edition = "2021"
publish = false

[dependencies]
rand = "0.8"
fantoccini = { version = "0.19", default-features = false, features = ["rustls-tls"] }
serde_json = "1"
tokio = { version = "1", features = ["macros", "rt-multi-thread", "time"] }
