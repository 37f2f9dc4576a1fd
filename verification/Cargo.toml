[package]
name = "yarge-core"
version = "0.1.0"
edition = "2021"
publish = false

[dependencies]
arrayvec = "0.7"
arraydeque = "0.5"
bit_reverse = "0.1"
thiserror = "1"
clap = { version = "4", features = ["derive"] }
