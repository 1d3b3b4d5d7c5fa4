[package]
name = "nvme_telem"
version = "0.3.3"
edition = "2021"
publish = false

[dependencies]
nvme-cli-sys = "*"
serde = { version = "1", features = ["derive"] }
