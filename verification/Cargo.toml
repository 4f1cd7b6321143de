[package]
name = "notes_core"
version = "0.1.0"
edition = "2021"
publish = false

[dependencies]
uuid = { version = "*", features = ["v7"] }
chrono = "*"
async-trait = "*"
thiserror = "*"
