[package]
name = "staged_dispatcher"
version = "0.1.0"
edition = "2021"
publish = false

[dependencies]
legion = "0.4"
rayon = "1"
serde = { version = "1", features = ["derive"] }
