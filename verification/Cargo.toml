[package]
name = "dora-cat"
version = "0.1.0"
edition = "2021"
publish = false

[dependencies]
comp-cat-rs = "*"
tarpc-cat = "*"
serde = { version = "1", features = ["derive"] }
