[package]
name = "cohen_gig"
version = "0.1.0"
edition = "2021"
publish = false

[dependencies]
hotlib = "*"
libloading = "*"
serde = { version = "*", features = ["derive"] }
serde_json = "*"
