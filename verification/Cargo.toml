[package]
name = "ssip_client"
version = "0.1.0"
edition = "2021"
publish = false

[dependencies]
async-net = "2"
dirs = "*"
futures-lite = "2"
lingua = { version = "1", default-features = false, features = ["english", "french"] }
log = "0.4"
serde = { version = "1", features = ["derive"] }
zvariant = "*"
