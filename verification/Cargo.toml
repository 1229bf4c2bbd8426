[package]
name = "ztl"
version = "0.1.0"
edition = "2021"
publish = false

[dependencies]
anyhow = "1"
async-std = "1"
chrono = "0.4"
clap = "2"
confy = "0.4"
serde = { version = "1", features = ["derive"] }
slug = "0.1"
uuid = { version = "0.8", features = ["v4"] }
