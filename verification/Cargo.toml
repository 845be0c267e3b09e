[package]
name = "arpav"
version = "0.1.0"
edition = "2021"
publish = false

[dependencies]
chrono = "0.4"
futures-util = "0.3"
hyper = "0.13"
serde = { version = "1", features = ["derive"] }
serde_json = "1"
serde-xml-rs = "0.4"
tokio = { version = "0.2", features = ["macros", "rt-threaded"] }
