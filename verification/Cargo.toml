[package]
name = "redwood"
version = "0.1.0"
edition = "2021"
publish = false

[dependencies]
clap = { version = "3", features = ["derive"] }
git2 = { version = "*", default-features = false }
log = "0.4"
log4rs = "1"
serde_json = { version = "1", features = ["preserve_order"] }
