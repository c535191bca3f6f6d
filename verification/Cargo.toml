[package]
name = "marketmaker_iced"
version = "0.1.0"
edition = "2021"
publish = false

[dependencies]
iced = { version = "=0.14.0", default-features = false, features = ["tiny-skia", "x11", "canvas", "tokio"] }
serde = { version = "=1.0.229", features = ["derive"] }
serde_json = "=1.0.154"
clap = { version = "=4.6.7", features = ["derive"] }
reqwest = { version = "=0.13.5", default-features = false, features = ["json"] }
tokio = { version = "=1.54.1", features = ["time"] }
tokio-tungstenite = "=0.30.0"
futures = "=0.3.34"
