[package]
name = "furiosa_metadata"
version = "0.1.0"
edition = "2021"
publish = false

[dependencies]
glob = "0.3"
chrono = { version = "0.4", default-features = false, features = ["clock", "std"] }
