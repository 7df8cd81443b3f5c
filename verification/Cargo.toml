[package]
name = "ferox_heuristics"
version = "0.1.0"
edition = "2021"
publish = false

[dependencies]
uuid = { version = "*", features = ["v4"] }
tokio = { version = "*", features = ["sync"] }
console = "*"
indicatif = "*"
log = "*"
