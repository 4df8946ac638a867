[package]
name = "nearby_transfer"
version = "0.1.0"
edition = "2021"
publish = false

[dependencies]
snow = "*"
rand = "*"
tokio = { version = "*", features = ["full"] }
rusqlite = { version = "*", features = ["bundled"] }
dirs = "*"
pnet = "*"
