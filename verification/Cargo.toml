[package]
name = "clubfridge_neo"
version = "0.1.0"
edition = "2021"
publish = false

[dependencies]
iced = { version = "=0.13.1", default-features = false, features = ["tiny-skia", "tokio"] }
tokio = { version = "=1.54.1", features = ["fs", "rt"] }
clap = { version = "=4.6.7", features = ["derive"] }
anyhow = "=1.0.104"
tracing = "=0.1.44"
