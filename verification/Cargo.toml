[package]
name = "rustsend"
version = "0.1.0"
edition = "2021"
publish = false

[dependencies]
uuid = { version = "*", features = ["v4"] }
network-interface = "*"
tokio = { version = "*", features = ["full"] }
serde = { version = "*", features = ["derive"] }
serde_json = "*"
dialoguer = "*"
indicatif = "*"
console = "*"
rcgen = "*"
futures-util = "*"
